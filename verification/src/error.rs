//! The errors that the protocol's operations report.

use vstd::prelude::*;

verus! {

/// Why an operation was rejected. A rejected operation changes no state.
#[derive(Clone, Copy, Debug, PartialEq, Eq, Structural)]
pub enum ClawnchError {
    /// The four basis-point shares do not add up to 10000.
    InvalidFeeConfig,
    /// A staking vault overflowed. No operation of the ledger reports it: a
    /// principal that would no longer fit in 64 bits is `Overflow`, like
    /// every credit that does not fit.
    StakingOverflow,
    /// The treasury holds less than a buyback asks for.
    InsufficientTreasuryBalance,
    /// The treasury holds less than principal plus reward.
    InsufficientTreasuryForRewards,
    /// An amount of zero was supplied.
    InvalidAmount,
    /// The staking vault is empty.
    NothingStaked,
    /// The caller is not the authority of the resource.
    Unauthorized,
    /// A balance, a staked principal or a share would no longer fit in 64
    /// bits.
    Overflow,
    /// An account holds less than a debit asks for.
    InsufficientBalance,
}

impl ClawnchError {
    /// The text of each error, as a sequence of characters.
    pub open spec fn message_spec(self) -> Seq<char> {
        match self {
            ClawnchError::InvalidFeeConfig => "Invalid fee configuration - must total 100%"@,
            ClawnchError::StakingOverflow => "Staking vault overflow"@,
            ClawnchError::InsufficientTreasuryBalance => "Insufficient treasury balance"@,
            ClawnchError::InsufficientTreasuryForRewards => "Insufficient treasury balance for rewards"@,
            ClawnchError::InvalidAmount => "Invalid amount - must be greater than 0"@,
            ClawnchError::NothingStaked => "Nothing staked in vault"@,
            ClawnchError::Unauthorized => "Unauthorized - not the vault owner"@,
            ClawnchError::Overflow => "Arithmetic overflow"@,
            ClawnchError::InsufficientBalance => "Insufficient balance"@,
        }
    }

    /// The human-readable text of the error.
    pub fn message(&self) -> (text: &'static str)
        ensures
            text@ == self.message_spec(),
    {
        match self {
            ClawnchError::InvalidFeeConfig => "Invalid fee configuration - must total 100%",
            ClawnchError::StakingOverflow => "Staking vault overflow",
            ClawnchError::InsufficientTreasuryBalance => "Insufficient treasury balance",
            ClawnchError::InsufficientTreasuryForRewards => "Insufficient treasury balance for rewards",
            ClawnchError::InvalidAmount => "Invalid amount - must be greater than 0",
            ClawnchError::NothingStaked => "Nothing staked in vault",
            ClawnchError::Unauthorized => "Unauthorized - not the vault owner",
            ClawnchError::Overflow => "Arithmetic overflow",
            ClawnchError::InsufficientBalance => "Insufficient balance",
        }
    }
}

} // verus!
