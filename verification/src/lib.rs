//! The Saturn treasury's rules: bonds, staking, cash-outs and the bond
//! quote, each instruction as a change of the accounts' state.

pub mod errors;
pub mod keys;
pub mod saturnaccounts;
pub mod utils;
pub mod instructions;
pub mod laws;
