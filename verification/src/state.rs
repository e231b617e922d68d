//! The records that the protocol keeps: the fee configuration, the vaults
//! and what describes a token.

use vstd::prelude::*;
use crate::account::AccountId;
use crate::arith::{elapsed_spec, reward_spec};

pub mod fees;

verus! {

/// How a fee is divided among the four destinations, in basis points.
///
/// A configuration is valid when its four shares add up to exactly 10000.
/// Only `initialize_config` and `update_config` make or change one, and both
/// refuse shares that do not.
#[derive(Clone, Copy, Debug, PartialEq, Eq)]
pub struct FeeConfig {
    /// Who may change the configuration.
    pub authority: AccountId,
    pub protocol_fee_bps: u16,
    pub creator_fee_bps: u16,
    pub buyback_fee_bps: u16,
    pub staking_fee_bps: u16,
}

/// Whether four shares add up to exactly 10000 basis points.
pub open spec fn bps_sum_is_total(protocol: u16, creator: u16, buyback: u16, staking: u16) -> bool {
    protocol + creator + buyback + staking == 10_000
}

/// Tests whether four shares add up to exactly 10000 basis points.
pub fn check_bps_sum(protocol: u16, creator: u16, buyback: u16, staking: u16) -> (ok: bool)
    ensures
        ok == bps_sum_is_total(protocol, creator, buyback, staking),
{
    let sum: u32 = protocol as u32 + creator as u32 + buyback as u32 + staking as u32;
    sum == fees::TOTAL_BPS as u32
}

impl FeeConfig {
    /// The configuration's invariant.
    pub open spec fn is_valid(&self) -> bool {
        bps_sum_is_total(
            self.protocol_fee_bps,
            self.creator_fee_bps,
            self.buyback_fee_bps,
            self.staking_fee_bps,
        )
    }

    /// Tests the configuration's invariant.
    pub fn validate(&self) -> (ok: bool)
        ensures
            ok == self.is_valid(),
    {
        check_bps_sum(
            self.protocol_fee_bps,
            self.creator_fee_bps,
            self.buyback_fee_bps,
            self.staking_fee_bps,
        )
    }

    /// The configuration with the default split, owned by `authority`.
    pub fn with_defaults(authority: AccountId) -> (config: FeeConfig)
        ensures
            config.is_valid(),
            config == (FeeConfig {
                authority,
                protocol_fee_bps: 1000,
                creator_fee_bps: 2000,
                buyback_fee_bps: 3500,
                staking_fee_bps: 3500,
            }),
    {
        FeeConfig {
            authority,
            protocol_fee_bps: fees::PROTOCOL_BPS,
            creator_fee_bps: fees::CREATOR_BPS,
            buyback_fee_bps: fees::BUYBACK_BPS,
            staking_fee_bps: fees::STAKING_BPS,
        }
    }
}

/// The vault that collects the protocol's own share of the fees.
#[derive(Clone, Copy, Debug, PartialEq, Eq)]
pub struct FeeVault {
    /// Who may withdraw from the vault.
    pub authority: AccountId,
    pub balance: u64,
}

impl FeeVault {
    /// An empty vault under `authority`.
    pub fn new(authority: AccountId) -> (vault: FeeVault)
        ensures
            vault == (FeeVault { authority, balance: 0 }),
    {
        FeeVault { authority, balance: 0 }
    }
}

/// The treasury of one mint: it receives the buyback share of the fees and
/// pays for buybacks and for staking rewards.
#[derive(Clone, Copy, Debug, PartialEq, Eq)]
pub struct TokenTreasury {
    /// Who may execute buybacks.
    pub authority: AccountId,
    /// The mint whose tokens the treasury holds.
    pub mint: AccountId,
    pub balance: u64,
}

impl TokenTreasury {
    /// An empty treasury for `mint` under `authority`.
    pub fn new(authority: AccountId, mint: AccountId) -> (treasury: TokenTreasury)
        ensures
            treasury == (TokenTreasury { authority, mint, balance: 0 }),
    {
        TokenTreasury { authority, mint, balance: 0 }
    }
}

/// One user's staked balance and the time from which its reward accrues.
///
/// The vault is empty while `staked_amount` is zero, and staked otherwise.
#[derive(Clone, Copy, Debug, PartialEq, Eq)]
pub struct StakingVault {
    /// The user whose stake this is.
    pub owner: AccountId,
    pub staked_amount: u64,
    /// UNIX time, in seconds, of the last stake or unstake.
    pub last_update: i64,
}

impl StakingVault {
    /// Whether nothing is staked.
    pub open spec fn is_empty_spec(&self) -> bool {
        self.staked_amount == 0
    }

    /// The reward that the stake has earned at time `now` since the last
    /// update. An empty vault has earned nothing.
    pub open spec fn pending_reward(&self, now: i64) -> nat {
        reward_spec(self.staked_amount as nat, elapsed_spec(self.last_update as int, now as int))
    }

    /// What an unstake at time `now` pays: the principal and its reward.
    pub open spec fn payout(&self, now: i64) -> nat {
        self.staked_amount as nat + self.pending_reward(now)
    }

    /// The vault after a stake of `amount` at time `now`: the principal has
    /// grown and the clock was set.
    pub open spec fn after_stake(self, amount: u64, now: i64) -> StakingVault {
        StakingVault {
            owner: self.owner,
            staked_amount: (self.staked_amount + amount) as u64,
            last_update: now,
        }
    }

    /// The vault after an unstake at time `now`: empty, with the clock set.
    pub open spec fn after_unstake(self, now: i64) -> StakingVault {
        StakingVault { owner: self.owner, staked_amount: 0, last_update: now }
    }

    /// The empty vault of `owner`, as the first stake finds it.
    pub fn new(owner: AccountId, now: i64) -> (vault: StakingVault)
        ensures
            vault == (StakingVault { owner, staked_amount: 0, last_update: now }),
            vault.is_empty_spec(),
    {
        StakingVault { owner, staked_amount: 0, last_update: now }
    }

    /// Tests whether nothing is staked.
    pub fn is_empty(&self) -> (empty: bool)
        ensures
            empty == self.is_empty_spec(),
    {
        self.staked_amount == 0
    }
}

/// A token's mint.
#[derive(Clone, Copy, Debug, PartialEq, Eq)]
pub struct TokenMint {
    pub mint: AccountId,
    pub freeze_authority: AccountId,
    pub mint_authority: AccountId,
    pub supply: u64,
    pub decimals: u8,
}

/// A token's name and symbol.
#[derive(Clone, Debug, PartialEq, Eq)]
pub struct TokenMetadata {
    pub name: String,
    pub symbol: String,
}

} // verus!
