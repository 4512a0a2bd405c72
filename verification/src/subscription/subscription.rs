//! What a subscription is worth at a given time: refunds, plan changes and
//! renewals.
use crate::subscription::storage_types::{SubscriptionPlan, SubscriptionStatus, UserSubscription};
use crate::subscription::utils::{quotient_toward_zero, SECONDS_PER_DAY};
use vstd::prelude::*;

verus! {

/// The seconds of the paid period that are left at `current_time`.
pub open spec fn remaining_seconds(subscription: UserSubscription, current_time: u64) -> int {
    if current_time >= subscription.end_date {
        0
    } else {
        subscription.end_date - current_time
    }
}

/// The part of `price` that falls to the time left of the paid period,
/// rounded toward zero; zero where no time is left or the period is empty.
pub open spec fn prorated(price: int, subscription: UserSubscription, current_time: u64) -> int {
    let total = subscription.end_date - subscription.start_date;
    if current_time >= subscription.end_date || total == 0 {
        0
    } else {
        quotient_toward_zero(price * remaining_seconds(subscription, current_time), total)
    }
}

/// What a change from a plan of price `old_price` to one of `new_price` and
/// `new_days` days costs at `current_time`: the new plan's price for the time
/// left, at its own rate per second, less what is left of the old plan. The
/// full new price where the period is over or empty.
pub open spec fn plan_change_amount(
    old_price: int,
    new_price: int,
    new_days: int,
    subscription: UserSubscription,
    current_time: u64,
) -> int {
    let total = subscription.end_date - subscription.start_date;
    if current_time >= subscription.end_date || total == 0 {
        new_price
    } else {
        quotient_toward_zero(
            new_price * remaining_seconds(subscription, current_time),
            new_days * 86400,
        ) - prorated(old_price, subscription, current_time)
    }
}

/// The refund owed when a subscription ends at `current_time`: the price in
/// proportion to the time left.
pub fn calculate_prorated_refund(
    current_time: u64,
    subscription: &UserSubscription,
    plan: &SubscriptionPlan,
) -> (refund: i128)
    requires
        subscription.start_date <= subscription.end_date,
        i128::MIN <= plan.price * remaining_seconds(*subscription, current_time) <= i128::MAX,
    ensures
        refund == prorated(plan.price as int, *subscription, current_time),
{
    if current_time >= subscription.end_date {
        return 0;
    }
    let total_duration: u64 = subscription.end_date - subscription.start_date;
    let remaining_duration: u64 = subscription.end_date - current_time;
    if total_duration == 0 {
        return 0;
    }
    (plan.price * (remaining_duration as i128)) / (total_duration as i128)
}

/// The amount due for a change of plan at `current_time`: positive where the
/// user pays, negative where the user is refunded.
pub fn calculate_plan_change_amount(
    current_time: u64,
    subscription: &UserSubscription,
    old_plan: &SubscriptionPlan,
    new_plan: &SubscriptionPlan,
) -> (amount: i128)
    requires
        subscription.start_date <= subscription.end_date,
        new_plan.duration_days > 0,
        i128::MIN <= old_plan.price * remaining_seconds(*subscription, current_time) <= i128::MAX,
        i128::MIN <= new_plan.price * remaining_seconds(*subscription, current_time) <= i128::MAX,
        i128::MIN <= plan_change_amount(
            old_plan.price as int,
            new_plan.price as int,
            new_plan.duration_days as int,
            *subscription,
            current_time,
        ) <= i128::MAX,
    ensures
        amount == plan_change_amount(
            old_plan.price as int,
            new_plan.price as int,
            new_plan.duration_days as int,
            *subscription,
            current_time,
        ),
{
    if current_time >= subscription.end_date {
        return new_plan.price;
    }
    let total_duration: u64 = subscription.end_date - subscription.start_date;
    let remaining_duration: u64 = subscription.end_date - current_time;
    if total_duration == 0 {
        return new_plan.price;
    }
    let old_plan_remaining_value: i128 = (old_plan.price * (remaining_duration as i128)) / (
    total_duration as i128);
    let new_period: i128 = (new_plan.duration_days as i128) * 86400;
    let new_plan_prorated_value: i128 = (new_plan.price * (remaining_duration as i128))
        / new_period;
    new_plan_prorated_value - old_plan_remaining_value
}

/// Whether a renewal payment is due at `current_time`: the subscription
/// renews by itself, is active, and ends within a day.
pub fn is_payment_due(current_time: u64, subscription: &UserSubscription) -> (due: bool)
    ensures
        due == (subscription.auto_renew && subscription.status == SubscriptionStatus::Active
            && remaining_seconds(*subscription, current_time) <= 86400),
{
    if subscription.auto_renew && subscription.status == SubscriptionStatus::Active {
        let time_until_expiry: u64 = if current_time >= subscription.end_date {
            0
        } else {
            subscription.end_date - current_time
        };
        return time_until_expiry <= SECONDS_PER_DAY;
    }
    false
}

/// Accepts a subscription that is active or in its grace period; one that
/// is cancelled, expired or paused cannot be modified.
pub fn validate_subscription_modification(subscription: &UserSubscription) -> (verdict: Result<
    (),
    &'static str,
>)
    ensures
        verdict == match subscription.status {
            SubscriptionStatus::Active => Ok::<(), &'static str>(()),
            SubscriptionStatus::GracePeriod => Ok(()),
            SubscriptionStatus::Cancelled => Err("Subscription is cancelled"),
            SubscriptionStatus::Expired => Err("Subscription is expired"),
            SubscriptionStatus::Paused => Err("Subscription is paused"),
        },
{
    match subscription.status {
        SubscriptionStatus::Active => Ok(()),
        SubscriptionStatus::GracePeriod => Ok(()),
        SubscriptionStatus::Cancelled => Err("Subscription is cancelled"),
        SubscriptionStatus::Expired => Err("Subscription is expired"),
        SubscriptionStatus::Paused => Err("Subscription is paused"),
    }
}

/// The whole days left of the paid period at `current_time`, reduced modulo
/// 2^32 where they do not fit in 32 bits.
pub fn calculate_remaining_days(current_time: u64, subscription: &UserSubscription) -> (days: u32)
    ensures
        days == (remaining_seconds(*subscription, current_time) / 86400) % 0x1_0000_0000,
{
    if current_time >= subscription.end_date {
        return 0;
    }
    let remaining: u64 = subscription.end_date - current_time;
    let low: u64 = (remaining / SECONDS_PER_DAY) % 0x1_0000_0000;
    low as u32
}

} // verus!
