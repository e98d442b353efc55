use std::collections::HashSet;
use token_config::address::Address;
use token_config::chains::{create_chain_module, create_token_group, create_token_structs};
use token_config::generated::{ChainModule, TokenGroupEnum};
use token_config::types::{ChainConifg, TokenConfig, TokenGroup};

const USDC: &str = "0x833589fCD6eDb6E08f4c7C32D4f71b54bdA02913";
const WETH: &str = "0x4200000000000000000000000000000000000006";
const UBTC: &str = "0xF1143f3A8D76f1Ca740d29D5671d365F66C44eD1";
const UETH: &str = "0x9C5eB1c5Da8e5b0a2b7d5E9d3F2eAF1e0a9C0d37";
const USOL: &str = "0x9B8Df6E244526ab5F6e6400d331DB28C8fdDdb55";

fn entry(name: &str, address: &str) -> TokenConfig {
    TokenConfig::new(name.to_string(), address).unwrap()
}

fn address(text: &str) -> Address {
    Address::parse(text).unwrap()
}

fn module() -> ChainModule {
    let chain = ChainConifg {
        http_rpc: None,
        ws_rpc: None,
        tokens: vec![entry("USDC", USDC), entry("WETH", WETH)],
        token_groups: vec![TokenGroup {
            org: "universal".to_string(),
            tokens: vec![entry("UBTC", UBTC), entry("UETH", UETH), entry("USOL", USOL)],
        }],
    };
    match create_chain_module("base".to_string(), chain) {
        Ok(m) => m,
        Err(e) => panic!("{:?}", e),
    }
}

fn group(tokens: Vec<TokenConfig>) -> TokenGroupEnum {
    let group = TokenGroup { org: "universal".to_string(), tokens };
    match create_token_group("base", "Base", &group) {
        Ok(g) => g,
        Err(e) => panic!("{:?}", e),
    }
}

#[test]
fn standalone_token_shows_as_its_symbol() {
    let m = module();
    assert_eq!(m.tokens()[0].to_string(), "USDC");
    assert_eq!(m.tokens()[1].to_string(), "WETH");
    assert_eq!(m.tokens()[0].symbol().to_string(), "USDC");
}

#[test]
fn standalone_token_address_is_stable() {
    let m = module();
    let t = &m.tokens()[0];
    assert!(t.address() == t.address());
    assert!(t.address() == address(USDC));
    assert!(t.address() == address(t.address_text()));
}

#[test]
fn standalone_token_takes_its_own_address() {
    let m = module();
    let t = &m.tokens()[0];
    match t.try_from_address(&t.address()) {
        Ok(found) => {
            assert!(found == t);
            assert_eq!(found.name(), "USDC");
        },
        Err(_) => panic!("own address refused"),
    }
}

#[test]
fn standalone_token_refuses_another_address() {
    let m = module();
    let t = &m.tokens()[0];
    match t.try_from_address(&address(WETH)) {
        Ok(_) => panic!("other address taken"),
        Err(e) => {
            assert_eq!(e.0, "USDC");
            assert_eq!(e.to_string(), "Not a valid address for this type. USDC");
        },
    }
    assert!(t.try_from_address(&Address::new([0u8; 20])).is_err());
    assert!(m.tokens()[1].try_from_address(&address(USDC)).is_err());
    assert!(m.tokens()[1].try_from_address(&address(WETH)).is_ok());
}

#[test]
fn standalone_tokens_are_the_same_by_module_and_name() {
    let a = create_token_structs("base", "Base", vec![entry("USDC", USDC)]).unwrap_or_default();
    let b = create_token_structs("base", "Base", vec![entry("USDC", WETH)]).unwrap_or_default();
    let c = create_token_structs("optimism", "Optimism", vec![entry("USDC", USDC)])
        .unwrap_or_default();
    let d = create_token_structs("base", "Base", vec![entry("WETH", USDC)]).unwrap_or_default();
    assert!(a[0] == b[0]);
    assert!(a[0] != c[0]);
    assert!(a[0] != d[0]);
    let mut set = HashSet::new();
    set.insert(a[0].clone());
    assert!(set.contains(&b[0]));
    assert!(!set.contains(&c[0]));
    assert!(!set.contains(&d[0]));
}

#[test]
fn clone_of_a_token_struct_answers_alike() {
    let m = module();
    let t = &m.tokens()[1];
    let c = t.clone();
    assert_eq!(c.name(), t.name());
    assert_eq!(c.module(), t.module());
    assert_eq!(c.chain(), t.chain());
    assert_eq!(c.address_text(), t.address_text());
    assert!(c.address() == t.address());
}

#[test]
fn all_gives_one_token_per_member_in_order() {
    let m = module();
    let g = &m.token_groups()[0];
    let all = g.all();
    assert_eq!(all.len(), 3);
    assert_eq!(all[0].name(), "UBTC");
    assert_eq!(all[1].name(), "UETH");
    assert_eq!(all[2].name(), "USOL");
    for (i, t) in all.iter().enumerate() {
        assert_eq!(t.index(), i);
        assert_eq!(t.group().name(), "UniversalTokens");
    }
}

#[test]
fn all_gives_no_token_twice() {
    let m = module();
    let all = m.token_groups()[0].all();
    for i in 0..all.len() {
        for j in 0..all.len() {
            assert_eq!(all[i] == all[j], i == j);
        }
    }
    let set: HashSet<_> = all.iter().copied().collect();
    assert_eq!(set.len(), 3);
}

#[test]
fn all_of_an_empty_group_is_empty() {
    let g = group(vec![]);
    assert!(g.all().is_empty());
}

#[test]
fn group_token_shows_as_organization_and_symbol() {
    let m = module();
    let all = m.token_groups()[0].all();
    assert_eq!(all[0].to_string(), "universal-UBTC");
    assert_eq!(all[2].to_string(), "universal-USOL");
    assert_eq!(*all[1].symbol(), "UETH");
}

#[test]
fn group_token_address_is_what_its_text_reads_as() {
    let m = module();
    let all = m.token_groups()[0].all();
    assert!(all[0].address() == address(UBTC));
    assert!(all[1].address() == address(UETH));
    assert!(all[1].address() == address(all[1].address_text()));
    assert!(all[1].address() == all[1].address());
}

#[test]
fn group_takes_each_member_address_for_its_member() {
    let m = module();
    let g = &m.token_groups()[0];
    for t in g.all() {
        match g.try_from_address(&t.address()) {
            Ok(found) => {
                assert!(found == t);
                assert_eq!(found.index(), t.index());
                assert_eq!(found.name(), t.name());
            },
            Err(_) => panic!("own address refused"),
        }
    }
}

#[test]
fn group_refuses_an_address_of_no_member() {
    let m = module();
    let g = &m.token_groups()[0];
    match g.try_from_address(&address(USDC)) {
        Ok(_) => panic!("other address taken"),
        Err(e) => {
            assert_eq!(e.0, "UniversalTokens");
            assert_eq!(e.to_string(), "Not a valid address for this type. UniversalTokens");
        },
    }
    assert!(group(vec![]).try_from_address(&address(USDC)).is_err());
}

#[test]
fn group_takes_a_shared_address_for_the_first_member() {
    let g = group(vec![entry("UBTC", UBTC), entry("UETH", UETH), entry("USOL", UETH)]);
    let all = g.all();
    match g.try_from_address(&all[2].address()) {
        Ok(found) => {
            assert_eq!(found.index(), 1);
            assert_eq!(found.name(), "UETH");
        },
        Err(_) => panic!("address refused"),
    }
}

#[test]
fn group_tokens_of_different_groups_differ() {
    let a = group(vec![entry("UBTC", UBTC)]);
    let other = TokenGroup { org: "wrapped".to_string(), tokens: vec![entry("UBTC", UBTC)] };
    let b = match create_token_group("base", "Base", &other) {
        Ok(g) => g,
        Err(e) => panic!("{:?}", e),
    };
    let same = TokenGroup { org: "universal".to_string(), tokens: vec![entry("UBTC", UBTC)] };
    let c = match create_token_group("optimism", "Optimism", &same) {
        Ok(g) => g,
        Err(e) => panic!("{:?}", e),
    };
    assert!(a.all()[0] != b.all()[0]);
    assert!(a.all()[0] != c.all()[0]);
    assert!(a.all()[0] == a.all()[0]);
}
