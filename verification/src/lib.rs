//! The verified core of a CEP-78 style NFT collection contract.
pub mod address;
pub mod approval;
pub mod burn;
pub mod constants;
pub mod dict;
pub mod error;
pub mod ids;
pub mod install;
pub mod key;
pub mod laws;
pub mod mint;
pub mod modes;
pub mod queries;
pub mod rights;
pub mod runs;
pub mod state;
pub mod transfer;
pub mod uint;
