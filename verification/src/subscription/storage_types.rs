//! The records of the subscription service.
use crate::address::Address;
use vstd::prelude::*;

verus! {

/// How often a plan is billed.
#[derive(Clone, Copy, Debug, PartialEq, Eq, Structural)]
pub enum SubscriptionTier {
    Monthly,
    Annual,
}

/// Where a subscription stands.
#[derive(Clone, Copy, Debug, PartialEq, Eq, Structural)]
pub enum SubscriptionStatus {
    Active,
    Paused,
    Cancelled,
    Expired,
    GracePeriod,
}

/// A plan that users can subscribe to.
#[derive(Clone, Debug, PartialEq, Eq)]
pub struct SubscriptionPlan {
    pub plan_id: u32,
    pub tier: SubscriptionTier,
    /// The price of one period.
    pub price: i128,
    /// The length of one period, in days.
    pub duration_days: u32,
    pub category_ids: Vec<u32>,
    pub max_family_members: u32,
    pub is_active: bool,
}

/// The subscription of one user.
#[derive(Clone, Debug, PartialEq, Eq)]
pub struct UserSubscription {
    pub subscription_id: u64,
    pub user: Address,
    pub plan_id: u32,
    pub status: SubscriptionStatus,
    /// When the paid period began, in seconds.
    pub start_date: u64,
    /// When the paid period ends, in seconds.
    pub end_date: u64,
    pub last_payment_date: u64,
    pub auto_renew: bool,
    pub is_family_plan: bool,
    pub family_members: Vec<Address>,
}

/// What is remembered of a subscription while it is paused.
#[derive(Clone, Copy, Debug, PartialEq, Eq, Structural)]
pub struct PausedSubscriptionData {
    pub paused_at: u64,
    pub remaining_days: u32,
}

/// A subscription paid for by one user and waiting to be claimed by another.
#[derive(Clone, Copy, Debug, PartialEq, Eq, Structural)]
pub struct GiftSubscription {
    pub gift_id: u64,
    pub from: Address,
    pub to: Address,
    pub plan_id: u32,
    pub claimed: bool,
    pub created_at: u64,
}

/// What is fixed when the service is initialized, and its two counters.
#[derive(Clone, Copy, Debug, PartialEq, Eq, Structural)]
pub struct Settings {
    pub admin: Address,
    /// The token in which subscriptions are paid.
    pub token_address: Address,
    /// How long after its end a subscription can still be renewed, in days.
    pub grace_period_days: u32,
    pub next_plan_id: u32,
    pub next_subscription_id: u64,
}

/// Why an operation was refused. A refused operation changes nothing.
#[derive(Clone, Copy, Debug, PartialEq, Eq, Structural)]
pub enum SubscriptionError {
    /// The service was initialized before.
    AlreadyInitialized,
    /// The service is not initialized.
    NotInitialized,
    PlanNotFound,
    /// The plan takes no new subscribers.
    PlanNotActive,
    /// The user has an active subscription.
    AlreadySubscribed,
    SubscriptionNotFound,
    /// A cancelled subscription cannot be renewed or cancelled again.
    Cancelled,
    /// The subscription is not active.
    NotActive,
    /// The subscription is not paused.
    NotPaused,
    /// Nothing was remembered of the paused subscription.
    PausedDataNotFound,
    /// The plan allows no more family members.
    FamilyFull,
    MemberAlreadyAdded,
    MemberNotFound,
    GiftNotFound,
    /// The gift is for somebody else.
    GiftNotForUser,
    GiftAlreadyClaimed,
    /// A date or an amount does not fit the integer type that holds it.
    Overflow,
}

} // verus!
