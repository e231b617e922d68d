//! Creating and changing the fee configuration.

use vstd::prelude::*;
use crate::account::{is_authorized, AccountId};
use crate::error::ClawnchError;
use crate::events::ConfigInitialized;
use crate::state::{bps_sum_is_total, check_bps_sum, FeeConfig};

verus! {

/// The event that reports a configuration.
pub open spec fn config_event(config: FeeConfig) -> ConfigInitialized {
    ConfigInitialized {
        authority: config.authority,
        protocol_fee_bps: config.protocol_fee_bps,
        creator_fee_bps: config.creator_fee_bps,
        buyback_fee_bps: config.buyback_fee_bps,
        staking_fee_bps: config.staking_fee_bps,
    }
}

/// Creates the fee configuration of `authority`.
///
/// Succeeds exactly when the four shares add up to 10000 basis points, and
/// fails with `InvalidFeeConfig` otherwise.
pub fn initialize_config(
    authority: AccountId,
    protocol_fee_bps: u16,
    creator_fee_bps: u16,
    buyback_fee_bps: u16,
    staking_fee_bps: u16,
) -> (outcome: Result<(FeeConfig, ConfigInitialized), ClawnchError>)
    ensures
        outcome is Ok <==> bps_sum_is_total(
            protocol_fee_bps,
            creator_fee_bps,
            buyback_fee_bps,
            staking_fee_bps,
        ),
        match outcome {
            Ok((config, event)) => {
                &&& config == (FeeConfig {
                    authority,
                    protocol_fee_bps,
                    creator_fee_bps,
                    buyback_fee_bps,
                    staking_fee_bps,
                })
                &&& config.is_valid()
                &&& event == config_event(config)
            },
            Err(e) => e == ClawnchError::InvalidFeeConfig,
        },
{
    if !check_bps_sum(protocol_fee_bps, creator_fee_bps, buyback_fee_bps, staking_fee_bps) {
        return Err(ClawnchError::InvalidFeeConfig);
    }
    let config = FeeConfig {
        authority,
        protocol_fee_bps,
        creator_fee_bps,
        buyback_fee_bps,
        staking_fee_bps,
    };
    let event = ConfigInitialized {
        authority,
        protocol_fee_bps,
        creator_fee_bps,
        buyback_fee_bps,
        staking_fee_bps,
    };
    Ok((config, event))
}

/// Why a change of the configuration is rejected, if it is: a caller other
/// than the authority is `Unauthorized`, whatever the shares; shares that do
/// not add up to 10000 are `InvalidFeeConfig`.
pub open spec fn update_error(
    config: FeeConfig,
    caller: AccountId,
    protocol_fee_bps: u16,
    creator_fee_bps: u16,
    buyback_fee_bps: u16,
    staking_fee_bps: u16,
) -> Option<ClawnchError> {
    if caller != config.authority {
        Some(ClawnchError::Unauthorized)
    } else if !bps_sum_is_total(protocol_fee_bps, creator_fee_bps, buyback_fee_bps, staking_fee_bps) {
        Some(ClawnchError::InvalidFeeConfig)
    } else {
        None
    }
}

/// Replaces the four shares of `config` on behalf of `caller`.
///
/// Only the configuration's authority may change it, and the new shares must
/// add up to 10000 basis points. A configuration that was valid stays valid:
/// when the call fails, it is as before.
pub fn update_config(
    config: &mut FeeConfig,
    caller: AccountId,
    protocol_fee_bps: u16,
    creator_fee_bps: u16,
    buyback_fee_bps: u16,
    staking_fee_bps: u16,
) -> (outcome: Result<ConfigInitialized, ClawnchError>)
    ensures
        match outcome {
            Ok(event) => {
                &&& update_error(
                    *old(config),
                    caller,
                    protocol_fee_bps,
                    creator_fee_bps,
                    buyback_fee_bps,
                    staking_fee_bps,
                ) is None
                &&& *final(config) == (FeeConfig {
                    authority: old(config).authority,
                    protocol_fee_bps,
                    creator_fee_bps,
                    buyback_fee_bps,
                    staking_fee_bps,
                })
                &&& final(config).is_valid()
                &&& event == config_event(*final(config))
            },
            Err(e) => {
                &&& update_error(
                    *old(config),
                    caller,
                    protocol_fee_bps,
                    creator_fee_bps,
                    buyback_fee_bps,
                    staking_fee_bps,
                ) == Some(e)
                &&& *final(config) == *old(config)
            },
        },
{
    if !is_authorized(&caller, &config.authority) {
        return Err(ClawnchError::Unauthorized);
    }
    if !check_bps_sum(protocol_fee_bps, creator_fee_bps, buyback_fee_bps, staking_fee_bps) {
        return Err(ClawnchError::InvalidFeeConfig);
    }
    config.protocol_fee_bps = protocol_fee_bps;
    config.creator_fee_bps = creator_fee_bps;
    config.buyback_fee_bps = buyback_fee_bps;
    config.staking_fee_bps = staking_fee_bps;
    Ok(
        ConfigInitialized {
            authority: config.authority,
            protocol_fee_bps,
            creator_fee_bps,
            buyback_fee_bps,
            staking_fee_bps,
        },
    )
}

} // verus!
