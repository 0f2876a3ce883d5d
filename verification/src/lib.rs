//! A security token ledger: mints whose manager issues and retires tokens,
//! token accounts that hold balances, and the rules under which tokens move
//! between accounts of the same mint, group and network authority.

pub mod error;
pub mod keys;
pub mod laws;
pub mod outcomes;
pub mod security_token;
pub mod state;
