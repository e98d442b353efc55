//! Which configurations give modules, and what the modules keep of them.

use vstd::prelude::*;
use crate::address::{address_of_str, lemma_lower_hex_reads_back, Decoded};
use crate::chains::{
    chain_failing_in, chain_module_error, chain_module_of, chain_modules_error, chain_modules_of,
    failing_in, first_lowercase, is_valid, lowercase_in, mod_names, symbols, token_group_error,
    token_groups_error, token_structs_error,
};
use crate::search::{first_index, lemma_first_index, lemma_first_repeat_none};
use crate::symbol::all_uppercase;
use crate::types::{ChainConifg, TokenConfig, TokenGroup, TruthConfig};

verus! {

/// Whether every symbol of `tokens` is in upper case throughout.
pub open spec fn all_valid(tokens: Seq<TokenConfig>) -> bool {
    forall|i: int| 0 <= i < tokens.len() ==> (#[trigger] tokens[i]).is_valid()
}

/// Whether `group` gives a token group enum: every symbol is in upper case
/// throughout and none occurs twice.
pub open spec fn group_is_valid(group: TokenGroup) -> bool {
    &&& all_valid(group.tokens@)
    &&& symbols(group.tokens@).no_duplicates()
}

/// Whether the chain `name`, configured as `chain`, gives a module: its
/// tokens and its groups are valid, and no two items of the module would
/// have the same name.
pub open spec fn chain_is_valid(name: Seq<char>, chain: ChainConifg) -> bool {
    &&& all_valid(chain.tokens@)
    &&& forall|g: int|
        0 <= g < chain.token_groups@.len() ==> group_is_valid(#[trigger] chain.token_groups@[g])
    &&& chain_module_of(name, chain).idents().no_duplicates()
}

/// Whether `chains` give modules: each chain is valid, and no two modules
/// would have the same name.
pub open spec fn chains_are_valid(chains: Seq<(String, ChainConifg)>) -> bool {
    &&& forall|c: int|
        0 <= c < chains.len() ==> chain_is_valid((#[trigger] chains[c]).0@, chains[c].1)
    &&& mod_names(chains).no_duplicates()
}

/// Tokens give token structs exactly where every symbol is in upper case
/// throughout; where one is not, the first such is found.
pub proof fn lemma_token_structs_error(tokens: Seq<TokenConfig>)
    ensures
        token_structs_error(tokens) is None <==> all_valid(tokens),
        first_lowercase(tokens) is None <==> all_valid(tokens),
        first_lowercase(tokens) matches Some(i) ==> {
            &&& 0 <= i < tokens.len()
            &&& !tokens[i].is_valid()
            &&& all_valid(tokens.take(i))
        },
{
    let p = lowercase_in(tokens);
    lemma_first_index(tokens.len() as int, p);
    if first_lowercase(tokens) is None {
        assert forall|i: int| 0 <= i < tokens.len() implies (#[trigger] tokens[i]).is_valid() by {
            assert(!p(i));
        }
    } else {
        let i = first_lowercase(tokens)->0;
        assert(p(i));
        assert(!tokens[i].is_valid());
        assert forall|j: int| 0 <= j < i implies (#[trigger] tokens.take(i)[j]).is_valid() by {
            assert(!p(j));
        }
    }
}

/// A group gives a token group enum exactly where it is valid.
pub proof fn lemma_token_group_error(group: TokenGroup)
    ensures
        token_group_error(group) is None <==> group_is_valid(group),
{
    lemma_token_structs_error(group.tokens@);
    lemma_first_repeat_none(symbols(group.tokens@));
}

/// Groups give token group enums exactly where each of them is valid.
pub proof fn lemma_token_groups_error(groups: Seq<TokenGroup>)
    ensures
        token_groups_error(groups) is None <==> forall|g: int|
            0 <= g < groups.len() ==> group_is_valid(#[trigger] groups[g]),
{
    let p = failing_in(groups);
    lemma_first_index(groups.len() as int, p);
    assert forall|g: int| 0 <= g < groups.len() implies (p(g) <==> !group_is_valid(
        #[trigger] groups[g],
    )) by {
        lemma_token_group_error(groups[g]);
    }
    if first_index(groups.len() as int, p) is None {
        assert forall|g: int| 0 <= g < groups.len() implies group_is_valid(#[trigger] groups[g]) by {
            assert(!p(g));
        }
    } else {
        let g = first_index(groups.len() as int, p)->0;
        assert(p(g));
        assert(!group_is_valid(groups[g]));
    }
}

/// A chain gives a module exactly where it is valid.
pub proof fn lemma_chain_module_error(name: Seq<char>, chain: ChainConifg)
    ensures
        chain_module_error(name, chain) is None <==> chain_is_valid(name, chain),
{
    lemma_token_structs_error(chain.tokens@);
    lemma_token_groups_error(chain.token_groups@);
    lemma_first_repeat_none(chain_module_of(name, chain).idents());
}

/// Chains give modules exactly where they are valid.
pub proof fn lemma_chain_modules_error(chains: Seq<(String, ChainConifg)>)
    ensures
        chain_modules_error(chains) is None <==> chains_are_valid(chains),
{
    let p = chain_failing_in(chains);
    lemma_first_index(chains.len() as int, p);
    lemma_first_repeat_none(mod_names(chains));
    assert forall|c: int| 0 <= c < chains.len() implies (p(c) <==> !chain_is_valid(
        (#[trigger] chains[c]).0@,
        chains[c].1,
    )) by {
        lemma_chain_module_error(chains[c].0@, chains[c].1);
    }
    if first_index(chains.len() as int, p) is None {
        assert forall|c: int| 0 <= c < chains.len() implies chain_is_valid(
            (#[trigger] chains[c]).0@,
            chains[c].1,
        ) by {
            assert(!p(c));
        }
    } else {
        let c = first_index(chains.len() as int, p)->0;
        assert(p(c));
        assert(!chain_is_valid(chains[c].0@, chains[c].1));
    }
}

/// A configuration is valid, and so gives modules, exactly where every
/// symbol is in upper case throughout, no symbol occurs twice in a group,
/// no two items of a module have the same name, and no two modules have.
pub proof fn lemma_valid_configuration(config: TruthConfig)
    ensures
        is_valid(config) <==> chains_are_valid(config.chains@),
{
    lemma_chain_modules_error(config.chains@);
}

/// In the modules of a valid configuration every token struct is called by
/// the symbol of its token, letter for letter, which is in upper case
/// throughout, and has the address of its token.
pub proof fn lemma_token_struct_keeps_its_entry(config: TruthConfig, c: int, i: int)
    requires
        is_valid(config),
        0 <= c < config.chains@.len(),
        0 <= i < config.chains@[c].1.tokens@.len(),
    ensures
        chain_modules_of(config.chains@)[c].tokens[i].name == config.chains@[c].1.tokens@[i].name.0@,
        chain_modules_of(config.chains@)[c].tokens[i].address
            == config.chains@[c].1.tokens@[i].address@,
        all_uppercase(chain_modules_of(config.chains@)[c].tokens[i].name),
{
    lemma_valid_configuration(config);
    let chain = config.chains@[c];
    assert(chain_is_valid(chain.0@, chain.1));
    assert(chain.1.tokens@[i].is_valid());
}

/// In the modules of a valid configuration every variant of a token group
/// enum is called by the symbol of its token, letter for letter, which is
/// in upper case throughout, and has the address of its token, which is
/// what the variant's address text reads as.
pub proof fn lemma_group_variant_keeps_its_entry(config: TruthConfig, c: int, g: int, i: int)
    requires
        is_valid(config),
        0 <= c < config.chains@.len(),
        0 <= g < config.chains@[c].1.token_groups@.len(),
        0 <= i < config.chains@[c].1.token_groups@[g].tokens@.len(),
    ensures
        chain_modules_of(config.chains@)[c].token_groups[g].variants[i].name
            == config.chains@[c].1.token_groups@[g].tokens@[i].name.0@,
        chain_modules_of(config.chains@)[c].token_groups[g].variants[i].address
            == config.chains@[c].1.token_groups@[g].tokens@[i].address@,
        all_uppercase(chain_modules_of(config.chains@)[c].token_groups[g].variants[i].name),
        address_of_str(chain_modules_of(config.chains@)[c].token_groups[g].variants[i].address_text)
            == Decoded::Ok(chain_modules_of(config.chains@)[c].token_groups[g].variants[i].address),
        chain_modules_of(config.chains@)[c].token_groups[g].wf(),
{
    lemma_valid_configuration(config);
    let chain = config.chains@[c];
    assert(chain_is_valid(chain.0@, chain.1));
    let group = chain.1.token_groups@[g];
    assert(group_is_valid(group));
    assert(group.tokens@[i].is_valid());
    let made = chain_modules_of(config.chains@)[c].token_groups[g];
    assert(made.variant_names() =~= symbols(group.tokens@));
    assert forall|k: int| 0 <= k < made.variants.len() implies address_of_str(
        (#[trigger] made.variants[k]).address_text,
    ) == Decoded::Ok(made.variants[k].address) by {
        group.tokens@[k].address.lemma_len();
        lemma_lower_hex_reads_back(group.tokens@[k].address@);
    }
}

/// A configuration with a standalone token whose symbol is not in upper
/// case throughout is not valid: it gives no modules.
pub proof fn lemma_lowercase_token_is_refused(config: TruthConfig, c: int, i: int)
    requires
        0 <= c < config.chains@.len(),
        0 <= i < config.chains@[c].1.tokens@.len(),
        !all_uppercase(config.chains@[c].1.tokens@[i].name.0@),
    ensures
        !is_valid(config),
        chain_modules_error(config.chains@) is Some,
{
    lemma_valid_configuration(config);
    if is_valid(config) {
        let chain = config.chains@[c];
        assert(chain_is_valid(chain.0@, chain.1));
        assert(chain.1.tokens@[i].is_valid());
    }
}

/// A configuration with a token in a group whose symbol is not in upper
/// case throughout is not valid: it gives no modules.
pub proof fn lemma_lowercase_group_token_is_refused(config: TruthConfig, c: int, g: int, i: int)
    requires
        0 <= c < config.chains@.len(),
        0 <= g < config.chains@[c].1.token_groups@.len(),
        0 <= i < config.chains@[c].1.token_groups@[g].tokens@.len(),
        !all_uppercase(config.chains@[c].1.token_groups@[g].tokens@[i].name.0@),
    ensures
        !is_valid(config),
        chain_modules_error(config.chains@) is Some,
{
    lemma_valid_configuration(config);
    if is_valid(config) {
        let chain = config.chains@[c];
        assert(chain_is_valid(chain.0@, chain.1));
        let group = chain.1.token_groups@[g];
        assert(group_is_valid(group));
        assert(group.tokens@[i].is_valid());
    }
}

} // verus!
