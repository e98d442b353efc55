//! The first position at which something holds.

use vstd::prelude::*;

verus! {

/// The least `i` with `0 <= i < n` and `p(i)`, if there is one.
pub open spec fn first_index(n: int, p: spec_fn(int) -> bool) -> Option<int>
    decreases n,
{
    if n <= 0 {
        None
    } else {
        match first_index(n - 1, p) {
            Some(i) => Some(i),
            None => if p(n - 1) {
                Some(n - 1)
            } else {
                None
            },
        }
    }
}

/// `first_index` finds a position at which `p` holds and before which it
/// does not, and finds none only where `p` holds nowhere.
pub proof fn lemma_first_index(n: int, p: spec_fn(int) -> bool)
    ensures
        match first_index(n, p) {
            Some(i) => 0 <= i < n && p(i) && forall|j: int| 0 <= j < i ==> !#[trigger] p(j),
            None => forall|j: int| 0 <= j < n ==> !#[trigger] p(j),
        },
    decreases n,
{
    if n > 0 {
        lemma_first_index(n - 1, p);
    }
}

/// A position at which `p` holds and before which it does not is the one
/// that `first_index` finds.
pub proof fn lemma_first_index_is(n: int, p: spec_fn(int) -> bool, i: int)
    requires
        0 <= i < n,
        p(i),
        forall|j: int| 0 <= j < i ==> !#[trigger] p(j),
    ensures
        first_index(n, p) == Some(i),
{
    lemma_first_index(n, p);
}

/// Where `p` holds nowhere below `n`, `first_index` finds nothing.
pub proof fn lemma_first_index_none(n: int, p: spec_fn(int) -> bool)
    requires
        forall|j: int| 0 <= j < n ==> !#[trigger] p(j),
    ensures
        first_index(n, p) is None,
{
    lemma_first_index(n, p);
}

/// Whether an earlier entry of `names` equals the entry at `j`.
pub open spec fn repeats_at(names: Seq<Seq<char>>, j: int) -> bool {
    exists|i: int| 0 <= i < j && names[i] == names[j]
}

/// The first entry of `names` that equals an earlier one, if any does.
pub open spec fn first_repeat(names: Seq<Seq<char>>) -> Option<int> {
    first_index(names.len() as int, |j: int| repeats_at(names, j))
}

/// `first_repeat` finds nothing exactly where no two entries are equal.
pub proof fn lemma_first_repeat_none(names: Seq<Seq<char>>)
    ensures
        first_repeat(names) is None <==> names.no_duplicates(),
{
    let p = |j: int| repeats_at(names, j);
    lemma_first_index(names.len() as int, p);
    if first_repeat(names) is None {
        assert forall|i: int, j: int|
            0 <= i < names.len() && 0 <= j < names.len() && i != j implies names[i] != names[j] by {
            if names[i] == names[j] {
                if i < j {
                    assert(p(j));
                } else {
                    assert(p(i));
                }
            }
        }
    } else {
        let j = first_repeat(names)->0;
        assert(p(j));
    }
}

/// Looks for the first entry of `names` that equals an earlier one.
#[verifier::loop_isolation(false)]
pub fn find_repeat(names: &Vec<String>) -> (r: Option<usize>)
    ensures
        match r {
            Some(j) => j < names@.len() && first_repeat(texts(names@)) == Some(j as int),
            None => first_repeat(texts(names@)) is None,
        },
{
    let ghost all = texts(names@);
    let ghost p = |j: int| repeats_at(all, j);
    let n = names.len();
    let mut j: usize = 0;
    while j < n
        invariant
            n == names@.len(),
            all == texts(names@),
            p == (|j: int| repeats_at(all, j)),
            0 <= j <= n,
            forall|k: int| 0 <= k < j ==> !#[trigger] p(k),
        decreases n - j,
    {
        let mut i: usize = 0;
        while i < j
            invariant
                n == names@.len(),
                all == texts(names@),
                0 <= i <= j < n,
                forall|k: int| 0 <= k < i ==> all[k] != all[j as int],
            decreases j - i,
        {
            if names[i] == names[j] {
                proof {
                    assert(all[i as int] == all[j as int]);
                    assert(p(j as int));
                    lemma_first_index_is(n as int, p, j as int);
                }
                return Some(j);
            }
            i += 1;
        }
        assert(!p(j as int));
        j += 1;
    }
    proof {
        lemma_first_index_none(n as int, p);
    }
    None
}

/// The texts of `names`, in order.
pub open spec fn texts(names: Seq<String>) -> Seq<Seq<char>> {
    Seq::new(names.len(), |i: int| names[i]@)
}

} // verus!
