//! Overflow-checked arithmetic over basis points and elapsed time.

use vstd::prelude::*;
use crate::error::ClawnchError;

verus! {

/// The number of basis points in the whole: 10000 bps are 100%.
pub const BPS_DENOMINATOR: u64 = 10_000;

/// The share of `amount` that `bps` basis points stand for, rounded down.
pub open spec fn split_spec(amount: nat, bps: nat) -> nat {
    amount * bps / 10_000
}

/// Computes `floor(amount * bps / 10000)`.
///
/// The product is formed in 128 bits, so it is exact for every `amount`.
/// The call fails with `Overflow` exactly when the share does not fit in
/// 64 bits, which can only happen for `bps` above 10000.
pub fn split(amount: u64, bps: u16) -> (share: Result<u64, ClawnchError>)
    ensures
        match share {
            Ok(v) => v == split_spec(amount as nat, bps as nat),
            Err(e) => e == ClawnchError::Overflow && split_spec(amount as nat, bps as nat)
                > u64::MAX,
        },
{
    assert(amount * bps <= u64::MAX * u16::MAX) by (nonlinear_arith)
        requires
            amount <= u64::MAX,
            bps <= u16::MAX,
    ;
    let product: u128 = (amount as u128) * (bps as u128);
    let quotient: u128 = product / (BPS_DENOMINATOR as u128);
    if quotient > u64::MAX as u128 {
        Err(ClawnchError::Overflow)
    } else {
        Ok(quotient as u64)
    }
}

/// With at most 10000 basis points a share never exceeds the amount.
pub proof fn lemma_split_bounded(amount: nat, bps: nat)
    requires
        bps <= 10_000,
    ensures
        split_spec(amount, bps) <= amount,
{
    assert(amount * bps <= amount * 10_000) by (nonlinear_arith)
        requires
            bps <= 10_000,
    ;
}

/// Four shares whose basis points add up to 10000 never exceed the amount,
/// and what rounding leaves unassigned is less than four units.
pub proof fn lemma_split_conservation(amount: nat, a: nat, b: nat, c: nat, d: nat)
    requires
        a + b + c + d == 10_000,
    ensures
        split_spec(amount, a) + split_spec(amount, b) + split_spec(amount, c) + split_spec(
            amount,
            d,
        ) <= amount,
        amount - (split_spec(amount, a) + split_spec(amount, b) + split_spec(amount, c)
            + split_spec(amount, d)) < 4,
{
    let pa: nat = amount * a;
    let pb: nat = amount * b;
    let pc: nat = amount * c;
    let pd: nat = amount * d;
    assert(pa + pb + pc + pd == amount * 10_000) by (nonlinear_arith)
        requires
            a + b + c + d == 10_000,
            pa == amount * a,
            pb == amount * b,
            pc == amount * c,
            pd == amount * d,
    ;
}

/// The number of seconds in a year of 365 days.
pub const SECONDS_PER_YEAR: u64 = 31_536_000;

/// The seconds that passed from `last_update` to `now`; a clock that ran
/// backwards counts as no time at all.
pub open spec fn elapsed_spec(last_update: int, now: int) -> nat {
    if now > last_update {
        (now - last_update) as nat
    } else {
        0
    }
}

/// Computes the seconds from `last_update` to `now`, zero if `now` is earlier.
pub fn elapsed_seconds(last_update: i64, now: i64) -> (seconds: u64)
    ensures
        seconds == elapsed_spec(last_update as int, now as int),
{
    if now <= last_update {
        0
    } else {
        let span: i128 = (now as i128) - (last_update as i128);
        span as u64
    }
}

/// The reward that `staked` earns in `seconds`: the whole principal per year,
/// in proportion to the time, without compounding, rounded down.
pub open spec fn reward_spec(staked: nat, seconds: nat) -> nat {
    staked * seconds / 31_536_000
}

/// Computes `floor(staked * seconds / 31536000)`, exactly, in 128 bits.
pub fn accrued_reward(staked: u64, seconds: u64) -> (reward: u128)
    ensures
        reward == reward_spec(staked as nat, seconds as nat),
{
    assert(staked * seconds <= u64::MAX * u64::MAX) by (nonlinear_arith)
        requires
            staked <= u64::MAX,
            seconds <= u64::MAX,
    ;
    let product: u128 = (staked as u128) * (seconds as u128);
    product / (SECONDS_PER_YEAR as u128)
}

/// Nothing staked, or no time passed, earns nothing.
pub proof fn lemma_reward_zero(staked: nat, seconds: nat)
    ensures
        reward_spec(0, seconds) == 0,
        reward_spec(staked, 0) == 0,
{
    assert(0 * seconds == 0) by (nonlinear_arith);
    assert(staked * 0 == 0) by (nonlinear_arith);
}

/// A full year earns exactly the principal.
pub proof fn lemma_reward_full_year(staked: nat)
    ensures
        reward_spec(staked, 31_536_000) == staked,
{
}

} // verus!
