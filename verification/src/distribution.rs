//! The fee distribution engine: splits a fee by the configuration and
//! credits the four destinations as one batch.

use vstd::prelude::*;
use crate::account::AccountId;
use crate::arith::{lemma_split_bounded, lemma_split_conservation, split, split_spec};
use crate::error::ClawnchError;
use crate::events::FeesDistributed;
use crate::ledger::{can_credit, credited, VaultLedger};
use crate::state::{FeeConfig, FeeVault, TokenTreasury};

verus! {

impl FeeConfig {
    /// The protocol's share of `fee_amount`.
    pub open spec fn protocol_share(&self, fee_amount: u64) -> nat {
        split_spec(fee_amount as nat, self.protocol_fee_bps as nat)
    }

    /// The creator's share of `fee_amount`.
    pub open spec fn creator_share(&self, fee_amount: u64) -> nat {
        split_spec(fee_amount as nat, self.creator_fee_bps as nat)
    }

    /// The buyback treasury's share of `fee_amount`.
    pub open spec fn buyback_share(&self, fee_amount: u64) -> nat {
        split_spec(fee_amount as nat, self.buyback_fee_bps as nat)
    }

    /// The staking reward pool's share of `fee_amount`.
    pub open spec fn staking_share(&self, fee_amount: u64) -> nat {
        split_spec(fee_amount as nat, self.staking_fee_bps as nat)
    }
}

/// Under a valid configuration no share exceeds the fee, the four shares
/// together never exceed it, and what rounding leaves unassigned is less
/// than four units.
pub proof fn law_split_conservation(fee_amount: u64, config: FeeConfig)
    requires
        config.is_valid(),
    ensures
        config.protocol_share(fee_amount) <= fee_amount,
        config.creator_share(fee_amount) <= fee_amount,
        config.buyback_share(fee_amount) <= fee_amount,
        config.staking_share(fee_amount) <= fee_amount,
        config.protocol_share(fee_amount) + config.creator_share(fee_amount)
            + config.buyback_share(fee_amount) + config.staking_share(fee_amount) <= fee_amount,
        fee_amount - (config.protocol_share(fee_amount) + config.creator_share(fee_amount)
            + config.buyback_share(fee_amount) + config.staking_share(fee_amount)) < 4,
{
    lemma_split_bounded(fee_amount as nat, config.protocol_fee_bps as nat);
    lemma_split_bounded(fee_amount as nat, config.creator_fee_bps as nat);
    lemma_split_bounded(fee_amount as nat, config.buyback_fee_bps as nat);
    lemma_split_bounded(fee_amount as nat, config.staking_fee_bps as nat);
    lemma_split_conservation(
        fee_amount as nat,
        config.protocol_fee_bps as nat,
        config.creator_fee_bps as nat,
        config.buyback_fee_bps as nat,
        config.staking_fee_bps as nat,
    );
}

/// The event of a distribution of `fee_amount` under `config`.
pub open spec fn shares_of(config: FeeConfig, fee_amount: u64, fee_vault_id: AccountId)
    -> FeesDistributed {
    FeesDistributed {
        total_fee: fee_amount,
        protocol_fee: config.protocol_share(fee_amount) as u64,
        creator_fee: config.creator_share(fee_amount) as u64,
        buyback_fee: config.buyback_share(fee_amount) as u64,
        staking_fee: config.staking_share(fee_amount) as u64,
        fee_vault: fee_vault_id,
    }
}

/// Why a distribution is rejected, if it is.
///
/// A fee of zero is `InvalidAmount`; shares that do not add up to 10000 are
/// `InvalidFeeConfig`; a credit that would not fit in 64 bits, on any of the
/// four destinations, is `Overflow`. The creator and the reward pool may be
/// one account: it then has to take both shares.
pub open spec fn distribution_error(
    config: FeeConfig,
    fee_vault: FeeVault,
    treasury: TokenTreasury,
    balances: Map<AccountId, u64>,
    creator: AccountId,
    reward_pool: AccountId,
    fee_amount: u64,
) -> Option<ClawnchError> {
    if fee_amount == 0 {
        Some(ClawnchError::InvalidAmount)
    } else if !config.is_valid() {
        Some(ClawnchError::InvalidFeeConfig)
    } else if fee_vault.balance + config.protocol_share(fee_amount) > u64::MAX
        || treasury.balance + config.buyback_share(fee_amount) > u64::MAX || !can_credit(
        balances,
        creator,
        config.creator_share(fee_amount),
    ) || !can_credit(
        credited(balances, creator, config.creator_share(fee_amount)),
        reward_pool,
        config.staking_share(fee_amount),
    ) {
        Some(ClawnchError::Overflow)
    } else {
        None
    }
}

/// Splits `fee_amount` by `config` and credits the protocol's share to the
/// fee vault, the creator's share to the creator's account, the buyback share
/// to the treasury and the staking share to the reward pool.
///
/// The four credits apply together or not at all: when the call fails, the
/// fee vault, the treasury and every account of the ledger are as before.
/// What rounding leaves of the fee is assigned to nobody.
pub fn distribute_fees(
    config: &FeeConfig,
    fee_vault: &mut FeeVault,
    treasury: &mut TokenTreasury,
    ledger: &mut VaultLedger,
    fee_vault_id: AccountId,
    creator: AccountId,
    reward_pool: AccountId,
    fee_amount: u64,
) -> (outcome: Result<FeesDistributed, ClawnchError>)
    ensures
        match outcome {
            Ok(event) => {
                &&& distribution_error(
                    *config,
                    *old(fee_vault),
                    *old(treasury),
                    old(ledger)@,
                    creator,
                    reward_pool,
                    fee_amount,
                ) is None
                &&& event == shares_of(*config, fee_amount, fee_vault_id)
                &&& *final(fee_vault) == (FeeVault {
                    balance: (old(fee_vault).balance + event.protocol_fee) as u64,
                    ..*old(fee_vault)
                })
                &&& *final(treasury) == (TokenTreasury {
                    balance: (old(treasury).balance + event.buyback_fee) as u64,
                    ..*old(treasury)
                })
                &&& final(ledger)@ == credited(
                    credited(old(ledger)@, creator, event.creator_fee as nat),
                    reward_pool,
                    event.staking_fee as nat,
                )
                &&& event.protocol_fee + event.creator_fee + event.buyback_fee + event.staking_fee
                    <= fee_amount
                &&& fee_amount - (event.protocol_fee + event.creator_fee + event.buyback_fee
                    + event.staking_fee) < 4
            },
            Err(e) => {
                &&& distribution_error(
                    *config,
                    *old(fee_vault),
                    *old(treasury),
                    old(ledger)@,
                    creator,
                    reward_pool,
                    fee_amount,
                ) == Some(e)
                &&& *final(fee_vault) == *old(fee_vault)
                &&& *final(treasury) == *old(treasury)
                &&& final(ledger)@ == old(ledger)@
            },
        },
{
    if fee_amount == 0 {
        return Err(ClawnchError::InvalidAmount);
    }
    if !config.validate() {
        return Err(ClawnchError::InvalidFeeConfig);
    }
    proof {
        law_split_conservation(fee_amount, *config);
    }
    let protocol_fee: u64 = split(fee_amount, config.protocol_fee_bps)?;
    let creator_fee: u64 = split(fee_amount, config.creator_fee_bps)?;
    let buyback_fee: u64 = split(fee_amount, config.buyback_fee_bps)?;
    let staking_fee: u64 = split(fee_amount, config.staking_fee_bps)?;

    // The four credits are made on copies, so that a credit that fails
    // leaves nothing behind; only the finished batch is written back.
    let mut vault_after: FeeVault = *fee_vault;
    vault_after.credit(protocol_fee)?;
    let mut treasury_after: TokenTreasury = *treasury;
    treasury_after.credit(buyback_fee)?;
    let mut ledger_after: VaultLedger = ledger.clone();
    ledger_after.credit(creator, creator_fee)?;
    ledger_after.credit(reward_pool, staking_fee)?;

    *fee_vault = vault_after;
    *treasury = treasury_after;
    *ledger = ledger_after;
    Ok(
        FeesDistributed {
            total_fee: fee_amount,
            protocol_fee,
            creator_fee,
            buyback_fee,
            staking_fee,
            fee_vault: fee_vault_id,
        },
    )
}

} // verus!
