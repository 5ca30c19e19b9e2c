//! Properties that relate several operations of the ledger.

use vstd::prelude::*;

use crate::account::{burned, minted, ErrorCode, TokenAccount};

verus! {

/// Minting an amount and then burning the same amount gives back the record
/// exactly as it was, balance and supply both, whenever the mint succeeds.
pub proof fn lemma_mint_then_burn_restores(account: TokenAccount, amount: u64)
    requires
        minted(account, amount) is Ok,
    ensures
        burned(minted(account, amount)->Ok_0, amount) == Ok::<TokenAccount, ErrorCode>(account),
{
}

} // verus!
