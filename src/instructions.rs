//! The ledger's operations. Each takes the records it works on, bundled as
//! the host hands them over, and either commits its whole change or returns
//! an error with every record untouched.

use vstd::prelude::*;

use crate::account::{burned, initialized, minted, transferred, ErrorCode, TokenAccount};

verus! {

/// The record slot that `initialize` fills.
#[derive(Clone, Copy, Debug, PartialEq, Eq, Structural)]
pub struct Initialize {
    pub token_account: TokenAccount,
}

/// The two records of a transfer. They are separate values, so a transfer
/// from a record to itself cannot be expressed here.
#[derive(Clone, Copy, Debug, PartialEq, Eq, Structural)]
pub struct Transfer {
    pub sender: TokenAccount,
    pub receiver: TokenAccount,
}

/// The record that `mint` credits.
#[derive(Clone, Copy, Debug, PartialEq, Eq, Structural)]
pub struct Mint {
    pub token_account: TokenAccount,
}

/// The record that `burn` debits.
#[derive(Clone, Copy, Debug, PartialEq, Eq, Structural)]
pub struct Burn {
    pub token_account: TokenAccount,
}

/// The record that `query_balance` reads.
#[derive(Clone, Copy, Debug, PartialEq, Eq, Structural)]
pub struct QueryBalance {
    pub token_account: TokenAccount,
}

/// Sets the slot to a new record holding `initial_supply` as both its balance
/// and its supply. Whatever the slot held before is not read.
pub fn initialize(ctx: &mut Initialize, initial_supply: u64)
    ensures
        final(ctx).token_account == initialized(initial_supply),
        final(ctx).token_account.balance == initial_supply,
        final(ctx).token_account.supply == initial_supply,
{
    ctx.token_account = TokenAccount { balance: initial_supply, supply: initial_supply };
}

/// Moves `amount` from the sender's balance to the receiver's. Fails with
/// `InsufficientBalance` when the sender holds less than `amount`, else with
/// `Overflow` when the receiver's balance would pass `u64::MAX`. Supplies are
/// not touched.
pub fn transfer(ctx: &mut Transfer, amount: u64) -> (r: Result<(), ErrorCode>)
    ensures
        match transferred(old(ctx).sender, old(ctx).receiver, amount) {
            Ok((sender, receiver)) => {
                &&& r is Ok
                &&& final(ctx).sender == sender
                &&& final(ctx).receiver == receiver
            },
            Err(e) => r == Err::<(), ErrorCode>(e) && *final(ctx) == *old(ctx),
        },
        r is Ok <==> old(ctx).sender.balance >= amount && old(ctx).receiver.balance + amount
            <= u64::MAX,
        r == Err::<(), ErrorCode>(ErrorCode::InsufficientBalance) <==> old(ctx).sender.balance
            < amount,
        r is Ok ==> {
            &&& final(ctx).sender.balance == old(ctx).sender.balance - amount
            &&& final(ctx).receiver.balance == old(ctx).receiver.balance + amount
            &&& final(ctx).sender.balance + final(ctx).receiver.balance == old(ctx).sender.balance
                + old(ctx).receiver.balance
            &&& final(ctx).sender.supply == old(ctx).sender.supply
            &&& final(ctx).receiver.supply == old(ctx).receiver.supply
        },
        r is Err ==> *final(ctx) == *old(ctx),
{
    if ctx.sender.balance < amount {
        return Err(ErrorCode::InsufficientBalance);
    }
    let credited = match ctx.receiver.balance.checked_add(amount) {
        Some(b) => b,
        None => {
            return Err(ErrorCode::Overflow);
        },
    };
    ctx.sender.balance = ctx.sender.balance - amount;
    ctx.receiver.balance = credited;
    Ok(())
}

/// Adds `amount` to both the balance and the supply of the record. Fails with
/// `Overflow` when either would pass `u64::MAX`.
pub fn mint(ctx: &mut Mint, amount: u64) -> (r: Result<(), ErrorCode>)
    ensures
        match minted(old(ctx).token_account, amount) {
            Ok(account) => r is Ok && final(ctx).token_account == account,
            Err(e) => r == Err::<(), ErrorCode>(e) && *final(ctx) == *old(ctx),
        },
        r is Ok <==> old(ctx).token_account.balance + amount <= u64::MAX
            && old(ctx).token_account.supply + amount <= u64::MAX,
        r is Ok ==> {
            &&& final(ctx).token_account.balance == old(ctx).token_account.balance + amount
            &&& final(ctx).token_account.supply == old(ctx).token_account.supply + amount
        },
        r is Err ==> r == Err::<(), ErrorCode>(ErrorCode::Overflow) && *final(ctx) == *old(ctx),
{
    let balance = match ctx.token_account.balance.checked_add(amount) {
        Some(b) => b,
        None => {
            return Err(ErrorCode::Overflow);
        },
    };
    let supply = match ctx.token_account.supply.checked_add(amount) {
        Some(s) => s,
        None => {
            return Err(ErrorCode::Overflow);
        },
    };
    ctx.token_account = TokenAccount { balance, supply };
    Ok(())
}

/// Takes `amount` from both the balance and the supply of the record. Fails
/// with `InsufficientBalance` when the balance is less than `amount`, else with
/// `Underflow` when the supply recorded on the account is.
pub fn burn(ctx: &mut Burn, amount: u64) -> (r: Result<(), ErrorCode>)
    ensures
        match burned(old(ctx).token_account, amount) {
            Ok(account) => r is Ok && final(ctx).token_account == account,
            Err(e) => r == Err::<(), ErrorCode>(e) && *final(ctx) == *old(ctx),
        },
        r == Err::<(), ErrorCode>(ErrorCode::InsufficientBalance)
            <==> old(ctx).token_account.balance < amount,
        r == Err::<(), ErrorCode>(ErrorCode::Underflow) <==> old(ctx).token_account.balance
            >= amount && old(ctx).token_account.supply < amount,
        r is Ok ==> {
            &&& final(ctx).token_account.balance == old(ctx).token_account.balance - amount
            &&& final(ctx).token_account.supply == old(ctx).token_account.supply - amount
        },
        r is Err ==> *final(ctx) == *old(ctx),
{
    if ctx.token_account.balance < amount {
        return Err(ErrorCode::InsufficientBalance);
    }
    if ctx.token_account.supply < amount {
        return Err(ErrorCode::Underflow);
    }
    ctx.token_account = TokenAccount {
        balance: ctx.token_account.balance - amount,
        supply: ctx.token_account.supply - amount,
    };
    Ok(())
}

/// The balance of the record.
pub fn query_balance(ctx: &QueryBalance) -> (r: u64)
    ensures
        r == ctx.token_account.balance,
{
    ctx.token_account.balance
}

} // verus!
