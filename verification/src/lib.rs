//! Ledger core of the Clawnch protocol.
//!
//! A trading fee is split among four destinations by a fixed basis-point
//! configuration, and staked balances earn a reward that grows linearly with
//! time and is paid out of a treasury.
//!
//! The core holds no storage, no clock and no keys of its own. The host hands
//! it the records that an operation touches, the time and the caller, and
//! gets back the changed records together with the event to publish. Every
//! operation takes its records by `&mut`, so no two operations change one
//! record at a time, and every operation either applies all of its changes
//! or none of them.
//!
//! - [`arith`]: the split of an amount by basis points and the reward of a
//!   stake, both exact in 128 bits.
//! - [`state`]: the fee configuration, the vaults and the token's records.
//! - [`ledger`]: credits and debits; every change of a balance goes through
//!   it.
//! - [`config`]: creating and changing the fee configuration.
//! - [`distribution`]: crediting a fee to its four destinations.
//! - [`staking`]: staking and unstaking.
//! - [`buyback`]: buybacks out of the treasury.
//! - [`token`]: the records of a new token.
//! - [`events`], [`error`], [`account`]: what operations report, why they
//!   fail, and how accounts are named.

pub mod account;
pub mod arith;
pub mod buyback;
pub mod config;
pub mod distribution;
pub mod error;
pub mod events;
pub mod ledger;
pub mod staking;
pub mod state;
pub mod token;
