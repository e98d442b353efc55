//! Chains, tokens and token groups as a validated, read-only registry.
//!
//! A configuration names chains; each chain lists standalone tokens and
//! token groups. From it the crate derives, per chain, a module description:
//! one chain marker, one token type per standalone token and one sum type
//! per group, together with the operations those types offer (address,
//! symbol, display text, conversion from an address, enumeration of a
//! group's members).

pub mod address;
pub mod chains;
pub mod dyn_token;
pub mod generated;
pub mod search;
pub mod symbol;
pub mod text;
pub mod token;
pub mod types;
pub mod validity;

pub use address::Address;
pub use dyn_token::DynToken;
pub use symbol::UpperCaseSymbol;
pub use token::{Chain, InvalidAddress, Token, TokenGroup};
