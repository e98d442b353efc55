//! What generation produces: the module of a chain, its token structs and
//! its token group enums, and what each of them offers.

use vstd::prelude::*;
use vstd::string::StringExecFns;
use std::hash::Hash;
use crate::address::{address_of_str, Address, Decoded};
use crate::search::{first_index, lemma_first_index, lemma_first_index_is, lemma_first_index_none};
use crate::symbol::UpperCaseSymbol;
use crate::token::InvalidAddress;

verus! {

/// What a token struct is: where it stands, what it is called, and its
/// address, as text and as bytes.
pub struct TokenStructView {
    pub module: Seq<char>,
    pub chain: Seq<char>,
    pub name: Seq<char>,
    pub address_text: Seq<char>,
    pub address: Seq<u8>,
}

impl TokenStructView {
    /// The address is what its text reads as.
    pub open spec fn wf(self) -> bool {
        address_of_str(self.address_text) == Decoded::Ok(self.address)
    }
}

/// The type of one standalone token. It has a single value, the token.
pub struct TokenStruct {
    module: String,
    chain: String,
    name: String,
    address_text: String,
    address: Address,
}

impl View for TokenStruct {
    type V = TokenStructView;

    closed spec fn view(&self) -> TokenStructView {
        TokenStructView {
            module: self.module@,
            chain: self.chain@,
            name: self.name@,
            address_text: self.address_text@,
            address: self.address@,
        }
    }
}

impl TokenStruct {
    #[verifier::type_invariant]
    spec fn inv(&self) -> bool {
        self@.wf()
    }

    /// The token struct `name` in `module`, for the chain `chain`, with the
    /// address `address` that is written as `address_text`.
    pub(crate) fn new(
        module: String,
        chain: String,
        name: String,
        address_text: String,
        address: Address,
    ) -> (t: TokenStruct)
        requires
            address_of_str(address_text@) == Decoded::Ok(address@),
        ensures
            t@ == (TokenStructView {
                module: module@,
                chain: chain@,
                name: name@,
                address_text: address_text@,
                address: address@,
            }),
    {
        TokenStruct { module, chain, name, address_text, address }
    }

    /// The name of the module that the type stands in.
    pub fn module(&self) -> (s: &str)
        ensures
            s@ == self@.module,
    {
        self.module.as_str()
    }

    /// The name of the marker of the token's chain.
    pub fn chain(&self) -> (s: &str)
        ensures
            s@ == self@.chain,
    {
        self.chain.as_str()
    }

    /// The name of the type, which is the token's symbol.
    pub fn name(&self) -> (s: &str)
        ensures
            s@ == self@.name,
    {
        self.name.as_str()
    }

    /// The text from which the token has its address.
    pub fn address_text(&self) -> (s: &str)
        ensures
            s@ == self@.address_text,
            address_of_str(s@) == Decoded::Ok(self@.address),
    {
        proof {
            use_type_invariant(self);
        }
        self.address_text.as_str()
    }

    /// The token's address: what its address text reads as.
    pub fn address(&self) -> (a: Address)
        ensures
            a@ == self@.address,
            address_of_str(self@.address_text) == Decoded::Ok(a@),
    {
        proof {
            use_type_invariant(self);
        }
        self.address
    }

    /// The token's symbol, as the configuration spells it.
    pub fn symbol(&self) -> (s: UpperCaseSymbol<&str>)
        ensures
            s@ == self@.name,
    {
        UpperCaseSymbol::new_unchecked(self.name.as_str())
    }

    /// The text that shows the token: its symbol.
    pub fn to_string(&self) -> (s: String)
        ensures
            s@ == self@.name,
    {
        self.name.clone()
    }

    /// Takes `address` for the token if it is the token's own address, and
    /// refuses every other, naming this type.
    pub fn try_from_address(&self, address: &Address) -> (r: Result<&TokenStruct, InvalidAddress>)
        ensures
            match r {
                Ok(token) => address@ == self@.address && token == self,
                Err(e) => address@ != self@.address && e.0@ == self@.name,
            },
    {
        if *address == self.address {
            Ok(self)
        } else {
            Err(InvalidAddress(self.name.clone()))
        }
    }
}

impl Clone for TokenStruct {
    fn clone(&self) -> (t: TokenStruct)
        ensures
            t@ == self@,
    {
        proof {
            use_type_invariant(self);
        }
        TokenStruct {
            module: self.module.clone(),
            chain: self.chain.clone(),
            name: self.name.clone(),
            address_text: self.address_text.clone(),
            address: self.address,
        }
    }
}

impl PartialEq for TokenStruct {
    /// Token structs are the same where they stand in the same module under
    /// the same name, whatever they hold.
    fn eq(&self, other: &Self) -> (r: bool) {
        self.module == other.module && self.name == other.name
    }
}

impl Eq for TokenStruct {

}

impl vstd::std_specs::cmp::PartialEqSpecImpl for TokenStruct {
    open spec fn obeys_eq_spec() -> bool {
        true
    }

    open spec fn eq_spec(&self, other: &Self) -> bool {
        self.view().module == other.view().module && self.view().name == other.view().name
    }
}

impl Hash for TokenStruct {
    /// Calls `Hash::hash` of the standard library on what `eq` compares: the
    /// module's name and the type's name.
    #[verifier::external_body]
    fn hash<H: std::hash::Hasher>(&self, state: &mut H) {
        self.module.hash(state);
        self.name.hash(state);
    }
}

/// The views of `structs`, in order.
pub open spec fn struct_views(structs: Seq<TokenStruct>) -> Seq<TokenStructView> {
    Seq::new(structs.len(), |i: int| structs[i]@)
}

/// What one variant of a token group enum is: its name and its address, as
/// text and as bytes.
pub struct GroupVariantView {
    pub name: Seq<char>,
    pub address_text: Seq<char>,
    pub address: Seq<u8>,
}

/// What a token group enum is: where it stands, what it is called, the
/// organization it is for, and its variants in order.
pub struct TokenGroupEnumView {
    pub module: Seq<char>,
    pub chain: Seq<char>,
    pub name: Seq<char>,
    pub org: Seq<char>,
    pub variants: Seq<GroupVariantView>,
}

impl TokenGroupEnumView {
    /// The names of the variants, in order.
    pub open spec fn variant_names(self) -> Seq<Seq<char>> {
        Seq::new(self.variants.len(), |i: int| self.variants[i].name)
    }

    /// Tells of a position whether the variant there has the address
    /// `address`.
    pub open spec fn holding(self, address: Seq<u8>) -> spec_fn(int) -> bool {
        |i: int| self.variants[i].address == address
    }

    /// The first variant with the address `address`, if there is one.
    pub open spec fn lookup(self, address: Seq<u8>) -> Option<int> {
        first_index(self.variants.len() as int, self.holding(address))
    }

    /// No two variants have the same name, and each variant's address is
    /// what its text reads as.
    pub open spec fn wf(self) -> bool {
        &&& self.variant_names().no_duplicates()
        &&& forall|i: int|
            0 <= i < self.variants.len() ==> address_of_str(
                (#[trigger] self.variants[i]).address_text,
            ) == Decoded::Ok(self.variants[i].address)
    }
}

/// One variant of a token group enum.
pub struct GroupVariant {
    name: String,
    address_text: String,
    address: Address,
}

impl GroupVariant {
    /// The variant `name` with the address `address` that is written as
    /// `address_text`.
    pub(crate) fn new(name: String, address_text: String, address: Address) -> (v: GroupVariant)
        ensures
            v@ == (GroupVariantView {
                name: name@,
                address_text: address_text@,
                address: address@,
            }),
    {
        GroupVariant { name, address_text, address }
    }
}

impl View for GroupVariant {
    type V = GroupVariantView;

    closed spec fn view(&self) -> GroupVariantView {
        GroupVariantView {
            name: self.name@,
            address_text: self.address_text@,
            address: self.address@,
        }
    }
}

/// The type of the tokens of one organization: a sum type with one variant
/// for each of them.
pub struct TokenGroupEnum {
    module: String,
    chain: String,
    name: String,
    org: String,
    variants: Vec<GroupVariant>,
}

/// The views of `variants`, in order.
pub open spec fn variant_views(variants: Seq<GroupVariant>) -> Seq<GroupVariantView> {
    Seq::new(variants.len(), |i: int| variants[i]@)
}

impl View for TokenGroupEnum {
    type V = TokenGroupEnumView;

    closed spec fn view(&self) -> TokenGroupEnumView {
        TokenGroupEnumView {
            module: self.module@,
            chain: self.chain@,
            name: self.name@,
            org: self.org@,
            variants: variant_views(self.variants@),
        }
    }
}

/// The text that shows the token `name` of the organization `org`.
pub open spec fn group_token_text(org: Seq<char>, name: Seq<char>) -> Seq<char> {
    org + "-"@ + name
}

/// What a token of a group is: the variant at `index` of `group`.
pub struct GroupTokenView {
    pub group: TokenGroupEnumView,
    pub index: int,
}

impl GroupTokenView {
    /// The group has a variant at the token's index.
    pub open spec fn wf(self) -> bool {
        0 <= self.index < self.group.variants.len()
    }

    /// The variant that the token is.
    pub open spec fn variant(self) -> GroupVariantView {
        self.group.variants[self.index]
    }
}

/// A token of a group: one variant of a token group enum.
#[derive(Clone, Copy)]
pub struct GroupToken<'a> {
    group: &'a TokenGroupEnum,
    index: usize,
}

impl<'a> View for GroupToken<'a> {
    type V = GroupTokenView;

    closed spec fn view(&self) -> GroupTokenView {
        GroupTokenView { group: self.group@, index: self.index as int }
    }
}

impl TokenGroupEnum {
    #[verifier::type_invariant]
    spec fn inv(&self) -> bool {
        self@.wf()
    }

    /// The token group enum `name` in `module`, for the chain `chain` and
    /// the organization `org`, with the variants `variants`.
    pub(crate) fn new(
        module: String,
        chain: String,
        name: String,
        org: String,
        variants: Vec<GroupVariant>,
    ) -> (g: TokenGroupEnum)
        requires
            (TokenGroupEnumView {
                module: module@,
                chain: chain@,
                name: name@,
                org: org@,
                variants: variant_views(variants@),
            }).wf(),
        ensures
            g@ == (TokenGroupEnumView {
                module: module@,
                chain: chain@,
                name: name@,
                org: org@,
                variants: variant_views(variants@),
            }),
    {
        TokenGroupEnum { module, chain, name, org, variants }
    }

    /// The name of the module that the type stands in.
    pub fn module(&self) -> (s: &str)
        ensures
            s@ == self@.module,
    {
        self.module.as_str()
    }

    /// The name of the marker of the tokens' chain.
    pub fn chain(&self) -> (s: &str)
        ensures
            s@ == self@.chain,
    {
        self.chain.as_str()
    }

    /// The name of the type.
    pub fn name(&self) -> (s: &str)
        ensures
            s@ == self@.name,
    {
        self.name.as_str()
    }

    /// The name of the group: the organization.
    pub fn group_name(&self) -> (s: &str)
        ensures
            s@ == self@.org,
    {
        self.org.as_str()
    }

    /// All tokens of the group: one for each variant, in the order of the
    /// configuration, none twice.
    pub fn all(&self) -> (tokens: Vec<GroupToken<'_>>)
        ensures
            tokens@.len() == self@.variants.len(),
            forall|i: int|
                0 <= i < tokens@.len() ==> (#[trigger] tokens@[i])@ == (GroupTokenView {
                    group: self@,
                    index: i,
                }),
            forall|i: int, j: int|
                0 <= i < j < tokens@.len() ==> (#[trigger] tokens@[i])@ != (#[trigger] tokens@[j])@,
    {
        let n = self.variants.len();
        let mut tokens: Vec<GroupToken<'_>> = Vec::new();
        for index in 0..n
            invariant
                n == self.variants@.len(),
                n == self@.variants.len(),
                tokens@.len() == index,
                forall|i: int|
                    0 <= i < index ==> (#[trigger] tokens@[i])@ == (GroupTokenView {
                        group: self@,
                        index: i,
                    }),
        {
            tokens.push(GroupToken { group: self, index });
        }
        tokens
    }

    /// Takes `address` for the first variant that has it, and refuses an
    /// address that no variant has, naming this type.
    pub fn try_from_address(&self, address: &Address) -> (r: Result<GroupToken<'_>, InvalidAddress>)
        ensures
            match r {
                Ok(token) => token@.group == self@ && self@.lookup(address@) == Some(token@.index),
                Err(e) => self@.lookup(address@) is None && e.0@ == self@.name,
            },
    {
        let n = self.variants.len();
        let ghost p = self@.holding(address@);
        for index in 0..n
            invariant
                n == self.variants@.len(),
                n == self@.variants.len(),
                p == self@.holding(address@),
                forall|k: int| 0 <= k < index ==> !#[trigger] p(k),
        {
            if self.variants[index].address == *address {
                proof {
                    assert(p(index as int));
                    lemma_first_index_is(n as int, p, index as int);
                }
                return Ok(GroupToken { group: self, index });
            }
        }
        proof {
            lemma_first_index_none(n as int, p);
        }
        Err(InvalidAddress(self.name.clone()))
    }

    /// The address `address` is taken for a variant that has it and before
    /// which no variant has it, and is refused only where no variant has it.
    pub proof fn lemma_lookup(group: TokenGroupEnumView, address: Seq<u8>)
        ensures
            match group.lookup(address) {
                Some(i) => {
                    &&& 0 <= i < group.variants.len()
                    &&& group.variants[i].address == address
                    &&& forall|j: int| 0 <= j < i ==> group.variants[j].address != address
                },
                None => forall|j: int|
                    0 <= j < group.variants.len() ==> group.variants[j].address != address,
            },
    {
        let p = group.holding(address);
        lemma_first_index(group.variants.len() as int, p);
        match group.lookup(address) {
            Some(i) => {
                assert forall|j: int| 0 <= j < i implies group.variants[j].address != address by {
                    assert(!p(j));
                }
            },
            None => {
                assert forall|j: int| 0 <= j < group.variants.len() implies group.variants[j].address
                    != address by {
                    assert(!p(j));
                }
            },
        }
    }

    /// The address of the variant at `i` is taken for the first variant that
    /// has this address: for the variant at `i` itself where no earlier
    /// variant shares its address.
    pub proof fn lemma_round_trip(group: TokenGroupEnumView, i: int)
        requires
            0 <= i < group.variants.len(),
        ensures
            group.lookup(group.variants[i].address) matches Some(j) && j <= i
                && group.variants[j].address == group.variants[i].address,
            (forall|j: int| 0 <= j < i ==> group.variants[j].address != group.variants[i].address)
                ==> group.lookup(group.variants[i].address) == Some(i),
    {
        Self::lemma_lookup(group, group.variants[i].address);
    }

    /// An address that no variant has is refused.
    pub proof fn lemma_other_address(group: TokenGroupEnumView, address: Seq<u8>)
        requires
            forall|i: int| 0 <= i < group.variants.len() ==> group.variants[i].address != address,
        ensures
            group.lookup(address) is None,
    {
        Self::lemma_lookup(group, address);
    }
}

impl<'a> GroupToken<'a> {
    #[verifier::type_invariant]
    spec fn inv(&self) -> bool {
        self@.wf()
    }

    /// The type that the token is a value of.
    pub fn group(&self) -> (g: &'a TokenGroupEnum)
        ensures
            g@ == self@.group,
            self@.wf(),
    {
        proof {
            use_type_invariant(self);
        }
        self.group
    }

    /// The place of the token's variant among the variants of its type.
    pub fn index(&self) -> (i: usize)
        ensures
            i == self@.index,
            self@.wf(),
    {
        proof {
            use_type_invariant(self);
        }
        self.index
    }

    /// The name of the token's variant, which is the token's symbol.
    pub fn name(&self) -> (s: &'a str)
        ensures
            s@ == self@.variant().name,
    {
        proof {
            use_type_invariant(self);
        }
        self.group.variants[self.index].name.as_str()
    }

    /// The text from which the token has its address.
    pub fn address_text(&self) -> (s: &'a str)
        ensures
            s@ == self@.variant().address_text,
            address_of_str(s@) == Decoded::Ok(self@.variant().address),
    {
        proof {
            use_type_invariant(self);
            use_type_invariant(self.group);
        }
        self.group.variants[self.index].address_text.as_str()
    }

    /// The token's address: what its address text reads as.
    pub fn address(&self) -> (a: Address)
        ensures
            a@ == self@.variant().address,
            address_of_str(self@.variant().address_text) == Decoded::Ok(a@),
    {
        proof {
            use_type_invariant(self);
            use_type_invariant(self.group);
        }
        self.group.variants[self.index].address
    }

    /// The token's symbol, as the configuration spells it.
    pub fn symbol(&self) -> (s: UpperCaseSymbol<&'a str>)
        ensures
            s@ == self@.variant().name,
    {
        proof {
            use_type_invariant(self);
        }
        UpperCaseSymbol::new_unchecked(self.group.variants[self.index].name.as_str())
    }

    /// The text that shows the token: the organization, a hyphen and the
    /// token's symbol.
    pub fn to_string(&self) -> (s: String)
        ensures
            s@ == group_token_text(self@.group.org, self@.variant().name),
    {
        proof {
            use_type_invariant(self);
        }
        self.group.org.clone().concat("-").concat(self.group.variants[self.index].name.as_str())
    }
}

impl<'a> PartialEq for GroupToken<'a> {
    /// Tokens of a group are the same where they are the same variant of
    /// types that stand in the same module under the same name.
    fn eq(&self, other: &Self) -> (r: bool) {
        self.index == other.index && self.group.module == other.group.module && self.group.name
            == other.group.name
    }
}

impl<'a> Eq for GroupToken<'a> {

}

impl<'a> vstd::std_specs::cmp::PartialEqSpecImpl for GroupToken<'a> {
    open spec fn obeys_eq_spec() -> bool {
        true
    }

    open spec fn eq_spec(&self, other: &Self) -> bool {
        &&& self.view().index == other.view().index
        &&& self.view().group.module == other.view().group.module
        &&& self.view().group.name == other.view().group.name
    }
}

impl<'a> Hash for GroupToken<'a> {
    /// Calls `Hash::hash` of the standard library on what `eq` compares: the
    /// variant's place, the module's name and the type's name.
    #[verifier::external_body]
    fn hash<H: std::hash::Hasher>(&self, state: &mut H) {
        self.index.hash(state);
        self.group.module.hash(state);
        self.group.name.hash(state);
    }
}

/// The views of `enums`, in order.
pub open spec fn enum_views(enums: Seq<TokenGroupEnum>) -> Seq<TokenGroupEnumView> {
    Seq::new(enums.len(), |i: int| enums[i]@)
}

/// The text of `text`, if there is one.
pub open spec fn text_of(text: Option<String>) -> Option<Seq<char>> {
    match text {
        Some(t) => Some(t@),
        None => None,
    }
}

/// The names of `structs`, in order.
pub open spec fn struct_names(structs: Seq<TokenStructView>) -> Seq<Seq<char>> {
    Seq::new(structs.len(), |i: int| structs[i].name)
}

/// The names of `enums`, in order.
pub open spec fn enum_names(enums: Seq<TokenGroupEnumView>) -> Seq<Seq<char>> {
    Seq::new(enums.len(), |i: int| enums[i].name)
}

/// What a chain's module is: its name, the chain's marker with its
/// endpoints, the token structs and the token group enums.
pub struct ChainModuleView {
    pub mod_name: Seq<char>,
    pub chain_name: Seq<char>,
    pub http_rpc_url: Option<Seq<char>>,
    pub ws_rpc_url: Option<Seq<char>>,
    pub tokens: Seq<TokenStructView>,
    pub token_groups: Seq<TokenGroupEnumView>,
}

impl ChainModuleView {
    /// What the items of the module are called: first the chain's marker,
    /// then the token structs, then the token group enums.
    pub open spec fn idents(self) -> Seq<Seq<char>> {
        seq![self.chain_name] + struct_names(self.tokens) + enum_names(self.token_groups)
    }

    /// No two items of the module have the same name, every item belongs
    /// to this module and to its chain, and every item is well formed.
    pub open spec fn wf(self) -> bool {
        &&& self.idents().no_duplicates()
        &&& forall|i: int|
            0 <= i < self.tokens.len() ==> {
                &&& (#[trigger] self.tokens[i]).wf()
                &&& self.tokens[i].module == self.mod_name
                &&& self.tokens[i].chain == self.chain_name
            }
        &&& forall|i: int|
            0 <= i < self.token_groups.len() ==> {
                &&& (#[trigger] self.token_groups[i]).wf()
                &&& self.token_groups[i].module == self.mod_name
                &&& self.token_groups[i].chain == self.chain_name
            }
    }
}

/// The module of one chain.
pub struct ChainModule {
    mod_name: String,
    chain_name: String,
    http_rpc_url: Option<String>,
    ws_rpc_url: Option<String>,
    tokens: Vec<TokenStruct>,
    token_groups: Vec<TokenGroupEnum>,
}

impl View for ChainModule {
    type V = ChainModuleView;

    closed spec fn view(&self) -> ChainModuleView {
        ChainModuleView {
            mod_name: self.mod_name@,
            chain_name: self.chain_name@,
            http_rpc_url: text_of(self.http_rpc_url),
            ws_rpc_url: text_of(self.ws_rpc_url),
            tokens: struct_views(self.tokens@),
            token_groups: enum_views(self.token_groups@),
        }
    }
}

impl ChainModule {
    #[verifier::type_invariant]
    spec fn inv(&self) -> bool {
        self@.wf()
    }

    /// The module `mod_name` of the chain whose marker is `chain_name`.
    pub(crate) fn new(
        mod_name: String,
        chain_name: String,
        http_rpc_url: Option<String>,
        ws_rpc_url: Option<String>,
        tokens: Vec<TokenStruct>,
        token_groups: Vec<TokenGroupEnum>,
    ) -> (m: ChainModule)
        requires
            (ChainModuleView {
                mod_name: mod_name@,
                chain_name: chain_name@,
                http_rpc_url: text_of(http_rpc_url),
                ws_rpc_url: text_of(ws_rpc_url),
                tokens: struct_views(tokens@),
                token_groups: enum_views(token_groups@),
            }).wf(),
        ensures
            m@ == (ChainModuleView {
                mod_name: mod_name@,
                chain_name: chain_name@,
                http_rpc_url: text_of(http_rpc_url),
                ws_rpc_url: text_of(ws_rpc_url),
                tokens: struct_views(tokens@),
                token_groups: enum_views(token_groups@),
            }),
    {
        ChainModule { mod_name, chain_name, http_rpc_url, ws_rpc_url, tokens, token_groups }
    }

    /// The name of the module.
    pub fn mod_name(&self) -> (s: &str)
        ensures
            s@ == self@.mod_name,
    {
        self.mod_name.as_str()
    }

    /// The name of the chain's marker.
    pub fn chain_name(&self) -> (s: &str)
        ensures
            s@ == self@.chain_name,
    {
        self.chain_name.as_str()
    }

    /// The chain's HTTP endpoint, if it has one.
    pub fn http_rpc_url(&self) -> (url: Option<&str>)
        ensures
            match url {
                Some(s) => self@.http_rpc_url == Some(s@),
                None => self@.http_rpc_url is None,
            },
    {
        match &self.http_rpc_url {
            Some(s) => Some(s.as_str()),
            None => None,
        }
    }

    /// The chain's WebSocket endpoint, if it has one.
    pub fn ws_rpc_url(&self) -> (url: Option<&str>)
        ensures
            match url {
                Some(s) => self@.ws_rpc_url == Some(s@),
                None => self@.ws_rpc_url is None,
            },
    {
        match &self.ws_rpc_url {
            Some(s) => Some(s.as_str()),
            None => None,
        }
    }

    /// The token structs of the module, in the order of the configuration.
    pub fn tokens(&self) -> (tokens: &Vec<TokenStruct>)
        ensures
            struct_views(tokens@) == self@.tokens,
            self@.wf(),
    {
        proof {
            use_type_invariant(self);
        }
        &self.tokens
    }

    /// The token group enums of the module, in the order of the
    /// configuration.
    pub fn token_groups(&self) -> (token_groups: &Vec<TokenGroupEnum>)
        ensures
            enum_views(token_groups@) == self@.token_groups,
            self@.wf(),
    {
        proof {
            use_type_invariant(self);
        }
        &self.token_groups
    }
}

/// The views of `modules`, in order.
pub open spec fn module_views(modules: Seq<ChainModule>) -> Seq<ChainModuleView> {
    Seq::new(modules.len(), |i: int| modules[i]@)
}

} // verus!
