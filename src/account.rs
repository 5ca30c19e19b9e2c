//! The account record, the ledger's errors, and the state transitions
//! described over them.

use vstd::prelude::*;

verus! {

/// One account record of the ledger.
///
/// `supply` is the total minted minus burned through calls on this record; it
/// is kept per record, not ledger-wide, so a transfer moves `balance` alone and
/// a record may hold more than its own `supply`.
#[derive(Clone, Copy, Debug, PartialEq, Eq, Structural)]
pub struct TokenAccount {
    pub balance: u64,
    pub supply: u64,
}

/// Why an operation was refused. A refused operation changes nothing.
#[derive(Clone, Copy, Debug, PartialEq, Eq, Structural)]
pub enum ErrorCode {
    /// The amount to debit is more than the balance.
    InsufficientBalance,
    /// An addition would exceed `u64::MAX`.
    Overflow,
    /// The supply recorded on the account is less than the amount to burn.
    Underflow,
}

/// The record that creating an account with `initial_supply` yields.
pub open spec fn initialized(initial_supply: u64) -> TokenAccount {
    TokenAccount { balance: initial_supply, supply: initial_supply }
}

/// The sender and receiver after moving `amount` between them, or the error.
pub open spec fn transferred(sender: TokenAccount, receiver: TokenAccount, amount: u64) -> Result<
    (TokenAccount, TokenAccount),
    ErrorCode,
> {
    if sender.balance < amount {
        Err(ErrorCode::InsufficientBalance)
    } else if receiver.balance + amount > u64::MAX {
        Err(ErrorCode::Overflow)
    } else {
        Ok(
            (
                TokenAccount { balance: (sender.balance - amount) as u64, supply: sender.supply },
                TokenAccount {
                    balance: (receiver.balance + amount) as u64,
                    supply: receiver.supply,
                },
            ),
        )
    }
}

/// The record after minting `amount` into it, or the error.
pub open spec fn minted(account: TokenAccount, amount: u64) -> Result<TokenAccount, ErrorCode> {
    if account.balance + amount > u64::MAX || account.supply + amount > u64::MAX {
        Err(ErrorCode::Overflow)
    } else {
        Ok(
            TokenAccount {
                balance: (account.balance + amount) as u64,
                supply: (account.supply + amount) as u64,
            },
        )
    }
}

/// The record after burning `amount` from it, or the error.
pub open spec fn burned(account: TokenAccount, amount: u64) -> Result<TokenAccount, ErrorCode> {
    if account.balance < amount {
        Err(ErrorCode::InsufficientBalance)
    } else if account.supply < amount {
        Err(ErrorCode::Underflow)
    } else {
        Ok(
            TokenAccount {
                balance: (account.balance - amount) as u64,
                supply: (account.supply - amount) as u64,
            },
        )
    }
}

} // verus!
