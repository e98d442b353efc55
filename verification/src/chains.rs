//! From a configuration to the modules that it describes.
//!
//! Each chain becomes a module. The module holds
//! - a marker for the chain, with the chain's endpoints,
//! - a token struct for each standalone token,
//! - a token group enum for each token group, with one variant per token.

use vstd::prelude::*;
use vstd::string::StringExecFns;
use crate::address::{
    address_of_str, checksum_text, lemma_lower_hex_reads_back, lower_hex_text, Decoded,
};
use crate::search::{
    find_repeat, first_index, first_repeat, lemma_first_index_is, lemma_first_index_none,
    lemma_first_repeat_none, texts,
};
use crate::text::{ascii_lowercase, upper_case_first, upper_case_first_spec};
use crate::symbol::is_all_uppercase;
use crate::generated::{
    enum_names, enum_views, module_views, struct_names, struct_views, text_of, variant_views,
    ChainModule, ChainModuleView, GroupVariant, GroupVariantView, TokenGroupEnum,
    TokenGroupEnumView, TokenStruct, TokenStructView,
};
use crate::types::{ChainConifg, TokenConfig, TokenGroup, TruthConfig};

verus! {

/// Why a configuration describes no modules.
#[derive(Debug)]
pub enum GenerationError {
    /// The token symbol `symbol` is not in upper case throughout.
    ExpectedUppercase { symbol: String },
    /// Two items that would stand side by side would both be called `ident`.
    DuplicateIdentifier { ident: String },
}

/// A `GenerationError` with its texts as sequences of characters.
pub enum GenerationErrorView {
    ExpectedUppercase { symbol: Seq<char> },
    DuplicateIdentifier { ident: Seq<char> },
}

impl View for GenerationError {
    type V = GenerationErrorView;

    open spec fn view(&self) -> GenerationErrorView {
        match self {
            GenerationError::ExpectedUppercase { symbol } => GenerationErrorView::ExpectedUppercase {
                symbol: symbol@,
            },
            GenerationError::DuplicateIdentifier { ident } => {
                GenerationErrorView::DuplicateIdentifier { ident: ident@ }
            },
        }
    }
}

/// Tells of a position whether the symbol of the token there is not in
/// upper case throughout.
pub open spec fn lowercase_in(tokens: Seq<TokenConfig>) -> spec_fn(int) -> bool {
    |i: int| !tokens[i].is_valid()
}

/// The first token whose symbol is not in upper case throughout.
pub open spec fn first_lowercase(tokens: Seq<TokenConfig>) -> Option<int> {
    first_index(tokens.len() as int, lowercase_in(tokens))
}

/// The token struct for `token` in the module `module` of the chain whose
/// marker is `chain`: it is called by the token's symbol, and its address is
/// written out as the address displays.
pub open spec fn token_struct_of(
    module: Seq<char>,
    chain: Seq<char>,
    token: TokenConfig,
) -> TokenStructView {
    TokenStructView {
        module,
        chain,
        name: token.name.0@,
        address_text: checksum_text(token.address@),
        address: token.address@,
    }
}

/// The token structs for `tokens`, in order.
pub open spec fn token_structs_of(
    module: Seq<char>,
    chain: Seq<char>,
    tokens: Seq<TokenConfig>,
) -> Seq<TokenStructView> {
    Seq::new(tokens.len(), |i: int| token_struct_of(module, chain, tokens[i]))
}

/// Why `tokens` give no token structs, if they do not.
pub open spec fn token_structs_error(tokens: Seq<TokenConfig>) -> Option<GenerationErrorView> {
    match first_lowercase(tokens) {
        Some(i) => Some(GenerationErrorView::ExpectedUppercase { symbol: tokens[i].name.0@ }),
        None => None,
    }
}

/// Makes the token struct of each of `tokens`, for the module `module` of
/// the chain whose marker is `chain_name`. Fails at the first token whose
/// symbol is not in upper case throughout.
pub fn create_token_structs(module: &str, chain_name: &str, tokens: Vec<TokenConfig>) -> (r: Result<
    Vec<TokenStruct>,
    GenerationError,
>)
    ensures
        match r {
            Ok(structs) => {
                &&& token_structs_error(tokens@) is None
                &&& structs@.len() == tokens@.len()
                &&& struct_views(structs@) == token_structs_of(module@, chain_name@, tokens@)
                &&& forall|i: int| 0 <= i < structs@.len() ==> (#[trigger] structs@[i])@.wf()
            },
            Err(e) => token_structs_error(tokens@) == Some(e@),
        },
{
    let n = tokens.len();
    let mut structs: Vec<TokenStruct> = Vec::new();
    for i in 0..n
        invariant
            n == tokens@.len(),
            structs@.len() == i,
            forall|k: int| 0 <= k < i ==> !#[trigger] lowercase_in(tokens@)(k),
            forall|k: int| 0 <= k < i ==> (#[trigger] structs@[k])@.wf(),
            forall|k: int|
                0 <= k < i ==> (#[trigger] structs@[k])@ == token_struct_of(
                    module@,
                    chain_name@,
                    tokens@[k],
                ),
    {
        let token = &tokens[i];
        if !is_all_uppercase(token.name.0.as_str()) {
            proof {
                assert(lowercase_in(tokens@)(i as int));
                lemma_first_index_is(n as int, lowercase_in(tokens@), i as int);
            }
            return Err(GenerationError::ExpectedUppercase { symbol: token.name.0.clone() });
        }
        let address_text = token.address.to_checksum_string();
        structs.push(
            TokenStruct::new(
                module.to_owned(),
                chain_name.to_owned(),
                token.name.0.clone(),
                address_text,
                token.address,
            ),
        );
    }
    proof {
        lemma_first_index_none(n as int, lowercase_in(tokens@));
        assert(struct_views(structs@) =~= token_structs_of(module@, chain_name@, tokens@));
    }
    Ok(structs)
}

/// The symbols of `tokens`, in order.
pub open spec fn symbols(tokens: Seq<TokenConfig>) -> Seq<Seq<char>> {
    Seq::new(tokens.len(), |i: int| tokens[i].name.0@)
}

/// The variant for `token`: it is called by the token's symbol, and its
/// address is written out in lower-case hexadecimal.
pub open spec fn group_variant_of(token: TokenConfig) -> GroupVariantView {
    GroupVariantView {
        name: token.name.0@,
        address_text: lower_hex_text(token.address@),
        address: token.address@,
    }
}

/// What the enum for the organization `org` is called.
pub open spec fn group_enum_name(org: Seq<char>) -> Seq<char> {
    upper_case_first_spec(org + "Tokens"@)
}

/// The token group enum for `group` in the module `module` of the chain
/// whose marker is `chain`.
pub open spec fn token_group_of(
    module: Seq<char>,
    chain: Seq<char>,
    group: TokenGroup,
) -> TokenGroupEnumView {
    TokenGroupEnumView {
        module,
        chain,
        name: group_enum_name(group.org@),
        org: group.org@,
        variants: Seq::new(group.tokens@.len(), |i: int| group_variant_of(group.tokens@[i])),
    }
}

/// The token group enums for `groups`, in order.
pub open spec fn token_groups_of(
    module: Seq<char>,
    chain: Seq<char>,
    groups: Seq<TokenGroup>,
) -> Seq<TokenGroupEnumView> {
    Seq::new(groups.len(), |i: int| token_group_of(module, chain, groups[i]))
}

/// Why `group` gives no token group enum, if it does not: the first symbol
/// that is not in upper case throughout or, if all are, the first symbol
/// that an earlier token of the group has too.
pub open spec fn token_group_error(group: TokenGroup) -> Option<GenerationErrorView> {
    match first_lowercase(group.tokens@) {
        Some(i) => Some(
            GenerationErrorView::ExpectedUppercase { symbol: group.tokens@[i].name.0@ },
        ),
        None => match first_repeat(symbols(group.tokens@)) {
            Some(j) => Some(
                GenerationErrorView::DuplicateIdentifier { ident: group.tokens@[j].name.0@ },
            ),
            None => None,
        },
    }
}

/// Tells of a position whether the group there gives no token group enum.
pub open spec fn failing_in(groups: Seq<TokenGroup>) -> spec_fn(int) -> bool {
    |i: int| token_group_error(groups[i]) is Some
}

/// Why `groups` give no token group enums, if they do not: what is wrong
/// with the first group with which something is.
pub open spec fn token_groups_error(groups: Seq<TokenGroup>) -> Option<GenerationErrorView> {
    match first_index(groups.len() as int, failing_in(groups)) {
        Some(i) => token_group_error(groups[i]),
        None => None,
    }
}

/// Makes the token group enum of `group`, for the module `module` of the
/// chain whose marker is `chain_name`.
pub fn create_token_group(module: &str, chain_name: &str, group: &TokenGroup) -> (r: Result<
    TokenGroupEnum,
    GenerationError,
>)
    ensures
        match r {
            Ok(group_enum) => {
                &&& token_group_error(*group) is None
                &&& group_enum@ == token_group_of(module@, chain_name@, *group)
                &&& group_enum@.wf()
            },
            Err(e) => token_group_error(*group) == Some(e@),
        },
{
    let tokens = &group.tokens;
    let n = tokens.len();
    let mut names: Vec<String> = Vec::new();
    let mut variants: Vec<GroupVariant> = Vec::new();
    for i in 0..n
        invariant
            tokens == &group.tokens,
            n == tokens@.len(),
            names@.len() == i,
            variants@.len() == i,
            forall|k: int| 0 <= k < i ==> !#[trigger] lowercase_in(tokens@)(k),
            forall|k: int| 0 <= k < i ==> (#[trigger] names@[k])@ == tokens@[k].name.0@,
            forall|k: int| 0 <= k < i ==> (#[trigger] variants@[k])@ == group_variant_of(tokens@[k]),
    {
        let token = &tokens[i];
        if !is_all_uppercase(token.name.0.as_str()) {
            proof {
                assert(lowercase_in(tokens@)(i as int));
                lemma_first_index_is(n as int, lowercase_in(tokens@), i as int);
            }
            return Err(GenerationError::ExpectedUppercase { symbol: token.name.0.clone() });
        }
        names.push(token.name.0.clone());
        variants.push(
            GroupVariant::new(
                token.name.0.clone(),
                token.address.to_hex_string(),
                token.address,
            ),
        );
    }
    proof {
        lemma_first_index_none(n as int, lowercase_in(tokens@));
        assert(texts(names@) =~= symbols(tokens@));
    }
    match find_repeat(&names) {
        Some(j) => Err(GenerationError::DuplicateIdentifier { ident: tokens[j].name.0.clone() }),
        None => {
            let name = upper_case_first(group.org.clone().concat("Tokens").as_str());
            let ghost expected = token_group_of(module@, chain_name@, *group);
            proof {
                lemma_first_repeat_none(symbols(tokens@));
                assert(variant_views(variants@) =~= expected.variants);
                assert(expected.variant_names() =~= symbols(tokens@));
                assert forall|i: int| 0 <= i < expected.variants.len() implies address_of_str(
                    (#[trigger] expected.variants[i]).address_text,
                ) == Decoded::Ok(expected.variants[i].address) by {
                    tokens@[i].address.lemma_len();
                    lemma_lower_hex_reads_back(tokens@[i].address@);
                }
            }
            Ok(
                TokenGroupEnum::new(
                    module.to_owned(),
                    chain_name.to_owned(),
                    name,
                    group.org.clone(),
                    variants,
                ),
            )
        },
    }
}

/// Makes the token group enum of each of `token_groups`, for the module
/// `module` of the chain whose marker is `chain_name`. Fails at the first
/// group with a symbol that is not in upper case throughout or that occurs
/// twice in the group.
pub fn create_token_groups(module: &str, chain_name: &str, token_groups: Vec<TokenGroup>) -> (r:
    Result<Vec<TokenGroupEnum>, GenerationError>)
    ensures
        match r {
            Ok(enums) => {
                &&& token_groups_error(token_groups@) is None
                &&& enums@.len() == token_groups@.len()
                &&& enum_views(enums@) == token_groups_of(module@, chain_name@, token_groups@)
                &&& forall|i: int| 0 <= i < enums@.len() ==> (#[trigger] enums@[i])@.wf()
            },
            Err(e) => token_groups_error(token_groups@) == Some(e@),
        },
{
    let n = token_groups.len();
    let mut enums: Vec<TokenGroupEnum> = Vec::new();
    for i in 0..n
        invariant
            n == token_groups@.len(),
            enums@.len() == i,
            forall|k: int| 0 <= k < i ==> !#[trigger] failing_in(token_groups@)(k),
            forall|k: int| 0 <= k < i ==> (#[trigger] enums@[k])@.wf(),
            forall|k: int|
                0 <= k < i ==> (#[trigger] enums@[k])@ == token_group_of(
                    module@,
                    chain_name@,
                    token_groups@[k],
                ),
    {
        match create_token_group(module, chain_name, &token_groups[i]) {
            Ok(group_enum) => {
                enums.push(group_enum);
            },
            Err(e) => {
                proof {
                    assert(failing_in(token_groups@)(i as int));
                    lemma_first_index_is(n as int, failing_in(token_groups@), i as int);
                }
                return Err(e);
            },
        }
    }
    proof {
        lemma_first_index_none(n as int, failing_in(token_groups@));
        assert(enum_views(enums@) =~= token_groups_of(module@, chain_name@, token_groups@));
    }
    Ok(enums)
}

/// What the module of the chain `name` is called: the name with its ASCII
/// capitals made small.
pub open spec fn mod_name_of(name: Seq<char>) -> Seq<char> {
    ascii_lowercase(name)
}

/// What the marker of the chain `name` is called: the name with its first
/// character in upper case.
pub open spec fn chain_name_of(name: Seq<char>) -> Seq<char> {
    upper_case_first_spec(name)
}

/// The module of the chain `name` that is configured as `chain`.
pub open spec fn chain_module_of(name: Seq<char>, chain: ChainConifg) -> ChainModuleView {
    ChainModuleView {
        mod_name: mod_name_of(name),
        chain_name: chain_name_of(name),
        http_rpc_url: text_of(chain.http_rpc),
        ws_rpc_url: text_of(chain.ws_rpc),
        tokens: token_structs_of(mod_name_of(name), chain_name_of(name), chain.tokens@),
        token_groups: token_groups_of(mod_name_of(name), chain_name_of(name), chain.token_groups@),
    }
}

/// Why the chain `name`, configured as `chain`, gives no module, if it does
/// not: what is wrong with its tokens or, if nothing is, with its token
/// groups or, if nothing is, the first item of the module that is called as
/// an earlier one.
pub open spec fn chain_module_error(name: Seq<char>, chain: ChainConifg) -> Option<
    GenerationErrorView,
> {
    let idents = chain_module_of(name, chain).idents();
    match token_structs_error(chain.tokens@) {
        Some(e) => Some(e),
        None => match token_groups_error(chain.token_groups@) {
            Some(e) => Some(e),
            None => match first_repeat(idents) {
                Some(j) => Some(GenerationErrorView::DuplicateIdentifier { ident: idents[j] }),
                None => None,
            },
        },
    }
}

/// Makes the module of the chain `name` that is configured as `chain`.
pub fn create_chain_module(name: String, chain: ChainConifg) -> (r: Result<
    ChainModule,
    GenerationError,
>)
    ensures
        match r {
            Ok(module) => {
                &&& chain_module_error(name@, chain) is None
                &&& module@ == chain_module_of(name@, chain)
                &&& module@.wf()
            },
            Err(e) => chain_module_error(name@, chain) == Some(e@),
        },
{
    let ghost expected = chain_module_of(name@, chain);
    let ChainConifg { http_rpc, ws_rpc, tokens, token_groups } = chain;
    let capitalized_name = upper_case_first(name.as_str());
    let mod_name = name.as_str().to_ascii_lowercase();
    let tokens = match create_token_structs(mod_name.as_str(), capitalized_name.as_str(), tokens) {
        Ok(tokens) => tokens,
        Err(e) => {
            return Err(e);
        },
    };
    let token_groups = match create_token_groups(
        mod_name.as_str(),
        capitalized_name.as_str(),
        token_groups,
    ) {
        Ok(token_groups) => token_groups,
        Err(e) => {
            return Err(e);
        },
    };
    let mut idents: Vec<String> = Vec::new();
    idents.push(capitalized_name.clone());
    for i in 0..tokens.len()
        invariant
            idents@.len() == 1 + i,
            texts(idents@) == (seq![capitalized_name@] + struct_names(struct_views(tokens@))).take(
                1 + i,
            ),
    {
        idents.push(tokens[i].name().to_owned());
        assert(texts(idents@) =~= (seq![capitalized_name@] + struct_names(
            struct_views(tokens@),
        )).take(1 + i + 1));
    }
    let ghost front = seq![capitalized_name@] + struct_names(struct_views(tokens@));
    assert(texts(idents@) =~= front);
    for i in 0..token_groups.len()
        invariant
            front.len() == 1 + tokens@.len(),
            idents@.len() == front.len() + i,
            texts(idents@) == (front + enum_names(enum_views(token_groups@))).take(
                front.len() + i,
            ),
    {
        idents.push(token_groups[i].name().to_owned());
        assert(texts(idents@) =~= (front + enum_names(enum_views(token_groups@))).take(
            front.len() + i + 1,
        ));
    }
    assert(texts(idents@) =~= expected.idents());
    match find_repeat(&idents) {
        Some(j) => Err(GenerationError::DuplicateIdentifier { ident: idents[j].clone() }),
        None => {
            proof {
                lemma_first_repeat_none(expected.idents());
                assert forall|i: int| 0 <= i < tokens@.len() implies (
                #[trigger] expected.tokens[i]).wf() by {
                    assert(tokens@[i]@.wf());
                }
                assert forall|i: int| 0 <= i < token_groups@.len() implies (
                #[trigger] expected.token_groups[i]).wf() by {
                    assert(token_groups@[i]@.wf());
                }
            }
            Ok(ChainModule::new(mod_name, capitalized_name, http_rpc, ws_rpc, tokens, token_groups))
        },
    }
}

/// Tells of a position whether the chain there gives no module.
pub open spec fn chain_failing_in(chains: Seq<(String, ChainConifg)>) -> spec_fn(int) -> bool {
    |i: int| chain_module_error(chains[i].0@, chains[i].1) is Some
}

/// What the modules of `chains` are called, in order.
pub open spec fn mod_names(chains: Seq<(String, ChainConifg)>) -> Seq<Seq<char>> {
    Seq::new(chains.len(), |i: int| mod_name_of(chains[i].0@))
}

/// The modules of `chains`, in order.
pub open spec fn chain_modules_of(chains: Seq<(String, ChainConifg)>) -> Seq<ChainModuleView> {
    Seq::new(chains.len(), |i: int| chain_module_of(chains[i].0@, chains[i].1))
}

/// Why `chains` give no modules, if they do not: what is wrong with the
/// first chain with which something is or, if nothing is with any, the first
/// module that is called as an earlier one.
pub open spec fn chain_modules_error(chains: Seq<(String, ChainConifg)>) -> Option<
    GenerationErrorView,
> {
    match first_index(chains.len() as int, chain_failing_in(chains)) {
        Some(i) => chain_module_error(chains[i].0@, chains[i].1),
        None => match first_repeat(mod_names(chains)) {
            Some(j) => Some(GenerationErrorView::DuplicateIdentifier { ident: mod_names(chains)[j] }),
            None => None,
        },
    }
}

/// Whether `config` gives modules: every symbol is in upper case
/// throughout, no two tokens of a group have the same symbol, no two items
/// of a module have the same name, and no two modules have.
pub open spec fn is_valid(config: TruthConfig) -> bool {
    chain_modules_error(config.chains@) is None
}

/// Makes the module of each chain of `config`, in the order of the
/// configuration.
pub fn create_chain_modules(config: TruthConfig) -> (r: Result<Vec<ChainModule>, GenerationError>)
    ensures
        match r {
            Ok(modules) => {
                &&& is_valid(config)
                &&& modules@.len() == config.chains@.len()
                &&& module_views(modules@) == chain_modules_of(config.chains@)
                &&& forall|i: int| 0 <= i < modules@.len() ==> (#[trigger] modules@[i])@.wf()
            },
            Err(e) => chain_modules_error(config.chains@) == Some(e@),
        },
{
    let ghost chains = config.chains@;
    let TruthConfig { chains: entries } = config;
    let mut modules: Vec<ChainModule> = Vec::new();
    let mut names: Vec<String> = Vec::new();
    for entry in iter: entries
        invariant
            chains == config.chains@,
            iter.seq() == chains,
            modules@.len() == iter.index(),
            names@.len() == iter.index(),
            forall|k: int| 0 <= k < iter.index() ==> !#[trigger] chain_failing_in(chains)(k),
            forall|k: int| 0 <= k < iter.index() ==> (#[trigger] names@[k])@ == mod_names(chains)[k],
            forall|k: int| 0 <= k < iter.index() ==> (#[trigger] modules@[k])@.wf(),
            forall|k: int|
                0 <= k < iter.index() ==> (#[trigger] modules@[k])@ == chain_module_of(
                    chains[k].0@,
                    chains[k].1,
                ),
    {
        let ghost i = iter.index() as int;
        let (name, chain) = entry;
        match create_chain_module(name, chain) {
            Ok(module) => {
                names.push(module.mod_name().to_owned());
                modules.push(module);
            },
            Err(e) => {
                proof {
                    assert(chain_failing_in(chains)(i));
                    lemma_first_index_is(chains.len() as int, chain_failing_in(chains), i);
                }
                return Err(e);
            },
        }
    }
    proof {
        lemma_first_index_none(chains.len() as int, chain_failing_in(chains));
        assert(texts(names@) =~= mod_names(chains));
        assert(module_views(modules@) =~= chain_modules_of(chains));
        lemma_first_repeat_none(mod_names(chains));
    }
    match find_repeat(&names) {
        Some(j) => Err(GenerationError::DuplicateIdentifier { ident: names[j].clone() }),
        None => Ok(modules),
    }
}

} // verus!
