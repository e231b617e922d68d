//! Buybacks out of the treasury.

use vstd::prelude::*;
use crate::account::{is_authorized, AccountId};
use crate::error::ClawnchError;
use crate::events::BuybackExecuted;
use crate::state::TokenTreasury;

verus! {

/// Why a buyback is rejected, if it is: a caller other than the treasury's
/// authority is `Unauthorized`; an amount above what the treasury holds is
/// `InsufficientTreasuryBalance`.
pub open spec fn buyback_error(treasury: TokenTreasury, caller: AccountId, amount: u64) -> Option<
    ClawnchError,
> {
    if caller != treasury.authority {
        Some(ClawnchError::Unauthorized)
    } else if treasury.balance < amount {
        Some(ClawnchError::InsufficientTreasuryBalance)
    } else {
        None
    }
}

/// Takes `amount` out of the treasury for a buyback, on behalf of `caller`.
///
/// Only the treasury's authority may do so, and the treasury must hold the
/// amount: the balance is never clamped. When the call fails, the treasury is
/// as before.
pub fn execute_buyback(
    treasury: &mut TokenTreasury,
    treasury_id: AccountId,
    caller: AccountId,
    amount: u64,
) -> (outcome: Result<BuybackExecuted, ClawnchError>)
    ensures
        match outcome {
            Ok(event) => {
                &&& buyback_error(*old(treasury), caller, amount) is None
                &&& event == (BuybackExecuted { treasury: treasury_id, amount, authority: caller })
                &&& *final(treasury) == (TokenTreasury {
                    balance: (old(treasury).balance - amount) as u64,
                    ..*old(treasury)
                })
            },
            Err(e) => {
                &&& buyback_error(*old(treasury), caller, amount) == Some(e)
                &&& *final(treasury) == *old(treasury)
            },
        },
{
    if !is_authorized(&caller, &treasury.authority) {
        return Err(ClawnchError::Unauthorized);
    }
    match treasury.debit(amount) {
        Ok(_) => Ok(BuybackExecuted { treasury: treasury_id, amount, authority: caller }),
        Err(e) => Err(e),
    }
}

} // verus!
