//! Shares of an escrowed amount.
use crate::escrow::storage_types::{EscrowError, RevenueSplit, BASIS_POINTS, MIN_AMOUNT};
use crate::subscription::utils::quotient_toward_zero;
use vstd::prelude::*;

verus! {

/// `bps` basis points of `amount`, rounded toward zero.
pub open spec fn share_of(amount: int, bps: int) -> int {
    quotient_toward_zero(amount * bps, 10000)
}

/// What each party receives of an amount.
#[derive(Clone, Copy, Debug, PartialEq, Eq, Structural)]
pub struct Distribution {
    pub platform_fee: i128,
    pub referral_reward: i128,
    pub organizer_share: i128,
}

/// `bps` basis points of `amount`, rounded toward zero.
pub fn calculate_share(amount: i128, bps: u32) -> (share: i128)
    requires
        i128::MIN <= amount * bps <= i128::MAX,
    ensures
        share == share_of(amount as int, bps as int),
{
    (amount * (bps as i128)) / (BASIS_POINTS as i128)
}

/// Accepts an amount of at least the minimum.
pub fn validate_amount(amount: i128) -> (verdict: Result<(), EscrowError>)
    ensures
        verdict == if amount < MIN_AMOUNT {
            Err::<(), EscrowError>(EscrowError::AmountTooSmall)
        } else {
            Ok(())
        },
{
    if amount < MIN_AMOUNT {
        return Err(EscrowError::AmountTooSmall);
    }
    Ok(())
}

/// Accepts a split whose three shares together do not exceed the whole.
pub fn validate_revenue_split(revenue_split: &RevenueSplit) -> (verdict: Result<(), EscrowError>)
    ensures
        verdict == if revenue_split.organizer_share_bps + revenue_split.platform_fee_bps
            + revenue_split.referral_reward_bps > BASIS_POINTS {
            Err::<(), EscrowError>(EscrowError::InvalidRevenueSplit)
        } else {
            Ok(())
        },
{
    let total_bps: u64 = (revenue_split.organizer_share_bps as u64) + (
    revenue_split.platform_fee_bps as u64) + (revenue_split.referral_reward_bps as u64);
    if total_bps > BASIS_POINTS as u64 {
        return Err(EscrowError::InvalidRevenueSplit);
    }
    Ok(())
}

/// Shares out `amount`: the platform's fee and the referral reward by their
/// basis points, and all the rest to the organizer, so that the three parts
/// make up the amount exactly.
pub fn distribute(amount: i128, revenue_split: &RevenueSplit) -> (parts: Distribution)
    requires
        0 <= amount,
        amount * revenue_split.platform_fee_bps <= i128::MAX,
        amount * revenue_split.referral_reward_bps <= i128::MAX,
        revenue_split.platform_fee_bps + revenue_split.referral_reward_bps <= BASIS_POINTS,
    ensures
        parts.platform_fee == share_of(amount as int, revenue_split.platform_fee_bps as int),
        parts.referral_reward == share_of(amount as int, revenue_split.referral_reward_bps as int),
        parts.platform_fee + parts.referral_reward + parts.organizer_share == amount,
        parts.platform_fee >= 0,
        parts.referral_reward >= 0,
        parts.organizer_share >= 0,
{
    proof {
        lemma_shares_fit(
            amount as int,
            revenue_split.platform_fee_bps as int,
            revenue_split.referral_reward_bps as int,
        );
    }
    let platform_fee = calculate_share(amount, revenue_split.platform_fee_bps);
    let referral_reward = calculate_share(amount, revenue_split.referral_reward_bps);
    let organizer_share = amount - platform_fee - referral_reward;
    Distribution { platform_fee, referral_reward, organizer_share }
}

/// Two shares whose basis points do not exceed the whole do not exceed
/// the amount together.
pub proof fn lemma_shares_fit(amount: int, first_bps: int, second_bps: int)
    requires
        amount >= 0,
        first_bps >= 0,
        second_bps >= 0,
        first_bps + second_bps <= 10000,
    ensures
        0 <= share_of(amount, first_bps),
        0 <= share_of(amount, second_bps),
        share_of(amount, first_bps) + share_of(amount, second_bps) <= amount,
        0 <= amount * first_bps,
        0 <= amount * second_bps,
{
    let a = amount * first_bps;
    let b = amount * second_bps;
    assert(a >= 0 && b >= 0 && a + b <= amount * 10000) by (nonlinear_arith)
        requires
            a == amount * first_bps,
            b == amount * second_bps,
            amount >= 0,
            first_bps >= 0,
            second_bps >= 0,
            first_bps + second_bps <= 10000,
    ;
    assert(a / 10000 + b / 10000 <= amount) by {
        assert(a / 10000 * 10000 <= a);
        assert(b / 10000 * 10000 <= b);
    }
}

} // verus!
