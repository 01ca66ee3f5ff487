//! A token-minting and exchange engine: it checks every account that an
//! operation names against its role, derives the program-owned authority
//! from a fixed seed and salt, and produces the mint and burn instructions
//! that the token ledger then carries out atomically.

pub mod address;
pub mod config;
pub mod accounts;
pub mod engine;
pub mod ledger;
pub mod laws;
