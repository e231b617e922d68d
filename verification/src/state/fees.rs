//! The fee split that applies when an operator names none: 10% to the
//! protocol, 20% to the creator, 35% to buybacks and 35% to staking.

use vstd::prelude::*;

verus! {

/// The protocol's share: 10%.
pub const PROTOCOL_BPS: u16 = 1000;

/// The creator's share: 20%.
pub const CREATOR_BPS: u16 = 2000;

/// The buyback treasury's share: 35%.
pub const BUYBACK_BPS: u16 = 3500;

/// The staking reward pool's share: 35%.
pub const STAKING_BPS: u16 = 3500;

/// The whole: 100%.
pub const TOTAL_BPS: u16 = 10000;

} // verus!
