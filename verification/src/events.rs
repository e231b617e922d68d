//! The records that the operations hand back for the host to publish.
//!
//! An operation returns its event together with the new state; delivering the
//! event to a log or an indexer is the host's business.

use vstd::prelude::*;
use crate::account::AccountId;

verus! {

/// A fee configuration was created or changed.
#[derive(Clone, Copy, Debug, PartialEq, Eq)]
pub struct ConfigInitialized {
    pub authority: AccountId,
    pub protocol_fee_bps: u16,
    pub creator_fee_bps: u16,
    pub buyback_fee_bps: u16,
    pub staking_fee_bps: u16,
}

/// A token was created.
#[derive(Clone, Debug, PartialEq, Eq)]
pub struct TokenCreated {
    pub mint: AccountId,
    pub name: String,
    pub symbol: String,
    pub decimals: u8,
    pub initial_supply: u64,
    pub creator: AccountId,
}

/// A fee was split and credited.
#[derive(Clone, Copy, Debug, PartialEq, Eq)]
pub struct FeesDistributed {
    pub total_fee: u64,
    pub protocol_fee: u64,
    pub creator_fee: u64,
    pub buyback_fee: u64,
    pub staking_fee: u64,
    pub fee_vault: AccountId,
}

/// Tokens left the treasury for a buyback.
#[derive(Clone, Copy, Debug, PartialEq, Eq)]
pub struct BuybackExecuted {
    pub treasury: AccountId,
    pub amount: u64,
    pub authority: AccountId,
}

/// A user staked tokens.
#[derive(Clone, Copy, Debug, PartialEq, Eq)]
pub struct TokensStaked {
    pub user: AccountId,
    pub amount: u64,
    pub vault: AccountId,
}

/// A user withdrew a stake together with its reward.
#[derive(Clone, Copy, Debug, PartialEq, Eq)]
pub struct TokensUnstaked {
    pub user: AccountId,
    pub principal: u64,
    pub reward: u64,
    pub vault: AccountId,
}

} // verus!
