//! The accounting core of a single-asset token ledger: account records that
//! hold a balance and a locally recorded supply, and the operations that
//! create, move, mint, burn and read them.
//!
//! Every operation either applies its whole change or reports an error and
//! leaves every record it was given exactly as it was.

pub mod account;
pub mod instructions;
pub mod laws;

pub use account::{ErrorCode, TokenAccount};
pub use instructions::{
    burn, initialize, mint, query_balance, transfer, Burn, Initialize, Mint, QueryBalance,
    Transfer,
};
