//! The staking engine: a stake earns a reward that grows linearly with time
//! and is paid out of the treasury.
//!
//! A vault is empty or staked. Staking adds principal; unstaking always
//! empties the vault and pays principal and reward in full.

use vstd::prelude::*;
use crate::account::{is_authorized, AccountId};
use crate::arith::{
    accrued_reward,
    elapsed_seconds,
    elapsed_spec,
    lemma_reward_full_year,
    lemma_reward_zero,
    reward_spec,
};
use crate::error::ClawnchError;
use crate::events::{TokensStaked, TokensUnstaked};
use crate::ledger::{can_credit, can_debit, checked_credit, credited, debited, VaultLedger};
use crate::state::{StakingVault, TokenTreasury};

verus! {

/// What a successful stake hands back.
#[derive(Clone, Copy, Debug, PartialEq, Eq)]
pub struct StakeReceipt {
    /// The record of the stake.
    pub event: TokensStaked,
    /// The reward on the earlier principal that this stake settled: the
    /// treasury paid it to the user. Zero when the vault was empty.
    pub settled_reward: u64,
}

/// A stake earns nothing until time passes: at or before its last update,
/// also when the clock ran backwards, the pending reward is zero. An empty
/// vault never has a reward pending.
pub proof fn law_no_reward_without_time(vault: StakingVault, now: i64)
    requires
        now <= vault.last_update || vault.is_empty_spec(),
    ensures
        vault.pending_reward(now) == 0,
{
    lemma_reward_zero(
        vault.staked_amount as nat,
        elapsed_spec(vault.last_update as int, now as int),
    );
}

/// After exactly one year of 365 days the pending reward equals the
/// principal.
pub proof fn law_full_year_reward(vault: StakingVault, now: i64)
    requires
        now - vault.last_update == 31_536_000,
    ensures
        vault.pending_reward(now) == vault.staked_amount,
{
    lemma_reward_full_year(vault.staked_amount as nat);
}

/// Unstaking at the very time of a stake pays the principal and no reward,
/// and leaves the vault empty.
pub proof fn law_unstake_at_once(vault: StakingVault, amount: u64, now: i64)
    requires
        vault.staked_amount + amount <= u64::MAX,
    ensures
        vault.after_stake(amount, now).pending_reward(now) == 0,
        vault.after_stake(amount, now).payout(now) == vault.staked_amount + amount,
        vault.after_stake(amount, now).after_unstake(now).is_empty_spec(),
{
    law_no_reward_without_time(vault.after_stake(amount, now), now);
}

/// A stake into a vault that already holds one loses no reward and pays none
/// twice. What the earlier principal earned up to `now` is what the stake
/// settles; from `now` on the grown principal earns, and nothing of the
/// earlier period is pending any more. So a stake at `now` and an unstake at
/// `later` pay, together, the reward of the earlier principal up to `now`
/// and that of the grown principal from `now` to `later`.
pub proof fn law_stake_settles_earlier_reward(
    vault: StakingVault,
    amount: u64,
    now: i64,
    later: i64,
)
    requires
        vault.staked_amount + amount <= u64::MAX,
    ensures
        vault.pending_reward(now) == reward_spec(
            vault.staked_amount as nat,
            elapsed_spec(vault.last_update as int, now as int),
        ),
        vault.after_stake(amount, now).pending_reward(now) == 0,
        vault.after_stake(amount, now).pending_reward(later) == reward_spec(
            (vault.staked_amount + amount) as nat,
            elapsed_spec(now as int, later as int),
        ),
        vault.pending_reward(now) + vault.after_stake(amount, now).pending_reward(later)
            == reward_spec(
            vault.staked_amount as nat,
            elapsed_spec(vault.last_update as int, now as int),
        ) + reward_spec(
            (vault.staked_amount + amount) as nat,
            elapsed_spec(now as int, later as int),
        ),
{
    law_no_reward_without_time(vault.after_stake(amount, now), now);
}

/// The reward pending on `vault` at time `now`, or `None` where it does not
/// fit in 64 bits: no treasury can pay such a reward.
pub fn reward_due(vault: &StakingVault, now: i64) -> (due: Option<u64>)
    ensures
        match due {
            Some(reward) => reward == vault.pending_reward(now),
            None => vault.pending_reward(now) > u64::MAX,
        },
{
    let reward: u128 = accrued_reward(vault.staked_amount, elapsed_seconds(vault.last_update, now));
    if reward > u64::MAX as u128 {
        None
    } else {
        Some(reward as u64)
    }
}

/// Why a stake is rejected, if it is.
///
/// An amount of zero is `InvalidAmount`; a user who does not own the vault is
/// `Unauthorized`; a user who holds less than `amount` is
/// `InsufficientBalance`; a treasury that cannot pay the reward pending on
/// the earlier principal is `InsufficientTreasuryForRewards`; a principal
/// that would not fit in 64 bits is `Overflow`, and so is a user balance that
/// would not fit after the settled reward came in.
pub open spec fn stake_error(
    vault: StakingVault,
    treasury: TokenTreasury,
    balances: Map<AccountId, u64>,
    user: AccountId,
    amount: u64,
    now: i64,
) -> Option<ClawnchError> {
    if amount == 0 {
        Some(ClawnchError::InvalidAmount)
    } else if vault.owner != user {
        Some(ClawnchError::Unauthorized)
    } else if !can_debit(balances, user, amount as nat) {
        Some(ClawnchError::InsufficientBalance)
    } else if treasury.balance < vault.pending_reward(now) {
        Some(ClawnchError::InsufficientTreasuryForRewards)
    } else if vault.staked_amount + amount > u64::MAX || !can_credit(
        debited(balances, user, amount as nat),
        user,
        vault.pending_reward(now),
    ) {
        Some(ClawnchError::Overflow)
    } else {
        None
    }
}

/// Stakes `amount` of the user's tokens at time `now`.
///
/// The amount leaves the user's balance and joins the vault's principal.
/// Where the vault already held a stake, the reward that this stake earned
/// since the last update is settled first: the treasury pays it to the user.
/// Then the vault's clock is set to `now`, so that the new principal earns
/// from `now` on and no reward of the earlier period is lost or paid twice.
///
/// When the call fails, the vault, the treasury and the ledger are as before.
pub fn stake(
    vault: &mut StakingVault,
    treasury: &mut TokenTreasury,
    ledger: &mut VaultLedger,
    vault_id: AccountId,
    user: AccountId,
    amount: u64,
    now: i64,
) -> (outcome: Result<StakeReceipt, ClawnchError>)
    ensures
        match outcome {
            Ok(receipt) => {
                &&& stake_error(*old(vault), *old(treasury), old(ledger)@, user, amount, now)
                    is None
                &&& receipt.event == (TokensStaked { user, amount, vault: vault_id })
                &&& receipt.settled_reward == old(vault).pending_reward(now)
                &&& *final(vault) == old(vault).after_stake(amount, now)
                &&& *final(treasury) == (TokenTreasury {
                    balance: (old(treasury).balance - receipt.settled_reward) as u64,
                    ..*old(treasury)
                })
                &&& final(ledger)@ == credited(
                    debited(old(ledger)@, user, amount as nat),
                    user,
                    receipt.settled_reward as nat,
                )
            },
            Err(e) => {
                &&& stake_error(*old(vault), *old(treasury), old(ledger)@, user, amount, now)
                    == Some(e)
                &&& *final(vault) == *old(vault)
                &&& *final(treasury) == *old(treasury)
                &&& final(ledger)@ == old(ledger)@
            },
        },
{
    if amount == 0 {
        return Err(ClawnchError::InvalidAmount);
    }
    if !is_authorized(&user, &vault.owner) {
        return Err(ClawnchError::Unauthorized);
    }
    // Every step is made on a copy, so that a step that fails leaves nothing
    // behind; only the finished batch is written back.
    let mut ledger_after: VaultLedger = ledger.clone();
    ledger_after.debit(user, amount)?;
    let reward: u64 = match reward_due(vault, now) {
        Some(reward) => reward,
        None => {
            return Err(ClawnchError::InsufficientTreasuryForRewards);
        },
    };
    let mut treasury_after: TokenTreasury = *treasury;
    treasury_after.pay_reward(reward)?;
    let mut vault_after: StakingVault = *vault;
    vault_after.deposit(amount, now)?;
    ledger_after.credit(user, reward)?;

    *vault = vault_after;
    *treasury = treasury_after;
    *ledger = ledger_after;
    Ok(StakeReceipt { event: TokensStaked { user, amount, vault: vault_id }, settled_reward: reward })
}

/// Why an unstake is rejected, if it is.
///
/// A user who does not own the vault is `Unauthorized`; an empty vault is
/// `NothingStaked`; a treasury that holds less than principal plus reward is
/// `InsufficientTreasuryForRewards`; a user balance that would not fit in 64
/// bits after the payout is `Overflow`.
pub open spec fn unstake_error(
    vault: StakingVault,
    treasury: TokenTreasury,
    balances: Map<AccountId, u64>,
    user: AccountId,
    now: i64,
) -> Option<ClawnchError> {
    if vault.owner != user {
        Some(ClawnchError::Unauthorized)
    } else if vault.staked_amount == 0 {
        Some(ClawnchError::NothingStaked)
    } else if treasury.balance < vault.payout(now) {
        Some(ClawnchError::InsufficientTreasuryForRewards)
    } else if !can_credit(balances, user, vault.payout(now)) {
        Some(ClawnchError::Overflow)
    } else {
        None
    }
}

/// Withdraws the whole stake at time `now`, together with its reward.
///
/// The reward is `floor(staked_amount * seconds / 31536000)` for the seconds
/// since the last update, and zero if the clock ran backwards. The treasury
/// pays principal and reward to the user, and the vault is emptied with its
/// clock set to `now`. There is no partial payout: a treasury that holds
/// less than principal plus reward pays nothing.
///
/// When the call fails, the vault, the treasury and the ledger are as before.
pub fn unstake(
    vault: &mut StakingVault,
    treasury: &mut TokenTreasury,
    ledger: &mut VaultLedger,
    vault_id: AccountId,
    user: AccountId,
    now: i64,
) -> (outcome: Result<TokensUnstaked, ClawnchError>)
    ensures
        match outcome {
            Ok(event) => {
                &&& unstake_error(*old(vault), *old(treasury), old(ledger)@, user, now) is None
                &&& event.user == user
                &&& event.vault == vault_id
                &&& event.principal == old(vault).staked_amount
                &&& event.reward == old(vault).pending_reward(now)
                &&& *final(vault) == old(vault).after_unstake(now)
                &&& final(vault).is_empty_spec()
                &&& *final(treasury) == (TokenTreasury {
                    balance: (old(treasury).balance - old(vault).payout(now)) as u64,
                    ..*old(treasury)
                })
                &&& final(ledger)@ == credited(old(ledger)@, user, old(vault).payout(now))
            },
            Err(e) => {
                &&& unstake_error(*old(vault), *old(treasury), old(ledger)@, user, now) == Some(e)
                &&& *final(vault) == *old(vault)
                &&& *final(treasury) == *old(treasury)
                &&& final(ledger)@ == old(ledger)@
            },
        },
{
    if !is_authorized(&user, &vault.owner) {
        return Err(ClawnchError::Unauthorized);
    }
    if vault.is_empty() {
        return Err(ClawnchError::NothingStaked);
    }
    let reward: u64 = match reward_due(vault, now) {
        Some(reward) => reward,
        None => {
            return Err(ClawnchError::InsufficientTreasuryForRewards);
        },
    };
    let payout: u64 = match checked_credit(vault.staked_amount, reward) {
        Ok(payout) => payout,
        Err(_) => {
            return Err(ClawnchError::InsufficientTreasuryForRewards);
        },
    };
    // Every step is made on a copy, so that a step that fails leaves nothing
    // behind; only the finished batch is written back.
    let mut treasury_after: TokenTreasury = *treasury;
    treasury_after.pay_reward(payout)?;
    let mut ledger_after: VaultLedger = ledger.clone();
    ledger_after.credit(user, payout)?;
    let mut vault_after: StakingVault = *vault;
    let principal: u64 = vault_after.withdraw(now);

    *vault = vault_after;
    *treasury = treasury_after;
    *ledger = ledger_after;
    Ok(TokensUnstaked { user, principal, reward, vault: vault_id })
}

} // verus!
