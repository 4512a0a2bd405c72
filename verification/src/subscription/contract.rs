//! The subscription service: plans, the subscription of each user, what
//! is remembered of paused subscriptions, and gifts.
use crate::address::Address;
use crate::subscription::lifecycle::{
    check_gift,
    check_not_subscribed,
    check_plan_open,
    first_at,
    period_end,
    plan_change,
    PlanChange,
};
use crate::subscription::storage_types::{
    GiftSubscription,
    PausedSubscriptionData,
    Settings,
    SubscriptionError,
    SubscriptionPlan,
    SubscriptionStatus,
    SubscriptionTier,
    UserSubscription,
};
use crate::subscription::subscription::{plan_change_amount, prorated};
use std::collections::HashMap;
use vstd::prelude::*;

verus! {

broadcast use vstd::std_specs::hash::group_hash_axioms;

/// Everything the service remembers.
#[verifier::ext_equal]
pub struct State {
    /// `None` until the service is initialized.
    pub settings: Option<Settings>,
    /// The plans by their ids.
    pub plans: Map<u32, SubscriptionPlan>,
    /// The subscription of each user, by the user's number.
    pub subscriptions: Map<u64, UserSubscription>,
    /// What is remembered of each paused subscription, by the user's number.
    pub paused: Map<u64, PausedSubscriptionData>,
    /// The gifts by their ids.
    pub gifts: Map<u64, GiftSubscription>,
}

/// A new subscription and the price to charge for it.
#[derive(Clone, Copy, Debug, PartialEq, Eq, Structural)]
pub struct Subscribed {
    pub subscription_id: u64,
    pub charge: i128,
}

/// A new gift and the price to charge the giver.
#[derive(Clone, Copy, Debug, PartialEq, Eq, Structural)]
pub struct Gifted {
    pub gift_id: u64,
    pub charge: i128,
}

impl State {
    /// The state of a service that was never used.
    pub open spec fn empty() -> State {
        State {
            settings: None,
            plans: Map::empty(),
            subscriptions: Map::empty(),
            paused: Map::empty(),
            gifts: Map::empty(),
        }
    }

    /// Whether `user` has a subscription that is active.
    pub open spec fn is_subscribed(self, user: Address) -> bool {
        self.subscriptions.contains_key(user.id) && self.subscriptions[user.id].status
            == SubscriptionStatus::Active
    }

    /// Why `user` cannot start a subscription to a plan at `now`, if it
    /// cannot. A plan that is not active refuses where `must_be_active`.
    pub open spec fn start_refused(self, user: Address, plan_id: u32, must_be_active: bool, now: u64) -> Option<
        SubscriptionError,
    > {
        if !self.plans.contains_key(plan_id) {
            Some(SubscriptionError::PlanNotFound)
        } else if must_be_active && !self.plans[plan_id].is_active {
            Some(SubscriptionError::PlanNotActive)
        } else if self.is_subscribed(user) {
            Some(SubscriptionError::AlreadySubscribed)
        } else if self.settings is None {
            Some(SubscriptionError::NotInitialized)
        } else if period_end(now, self.plans[plan_id].duration_days) > u64::MAX
            || self.settings->Some_0.next_subscription_id == u64::MAX {
            Some(SubscriptionError::Overflow)
        } else {
            None
        }
    }

    /// The subscription of `user` after a renewal at `now`.
    pub open spec fn renewal(self, user: Address, now: u64) -> Result<
        UserSubscription,
        SubscriptionError,
    > {
        if !self.subscriptions.contains_key(user.id) {
            Err(SubscriptionError::SubscriptionNotFound)
        } else if self.subscriptions[user.id].status == SubscriptionStatus::Cancelled {
            Err(SubscriptionError::Cancelled)
        } else if !self.plans.contains_key(self.subscriptions[user.id].plan_id) {
            Err(SubscriptionError::PlanNotFound)
        } else {
            self.subscriptions[user.id].renewed(
                self.plans[self.subscriptions[user.id].plan_id],
                now,
            )
        }
    }

    /// The subscription of `user` after it is cancelled at `now`.
    pub open spec fn cancellation(self, user: Address, now: u64) -> Result<
        UserSubscription,
        SubscriptionError,
    > {
        if !self.subscriptions.contains_key(user.id) {
            Err(SubscriptionError::SubscriptionNotFound)
        } else if self.subscriptions[user.id].status == SubscriptionStatus::Cancelled {
            Err(SubscriptionError::Cancelled)
        } else if !self.plans.contains_key(self.subscriptions[user.id].plan_id) {
            Err(SubscriptionError::PlanNotFound)
        } else {
            self.subscriptions[user.id].cancelled(
                self.plans[self.subscriptions[user.id].plan_id],
                now,
            )
        }
    }

    /// The subscription of `user` after a change to the plan `new_plan_id`
    /// at `now`.
    pub open spec fn change(self, user: Address, new_plan_id: u32, now: u64) -> Result<
        UserSubscription,
        SubscriptionError,
    > {
        if !self.subscriptions.contains_key(user.id) {
            Err(SubscriptionError::SubscriptionNotFound)
        } else if self.subscriptions[user.id].status != SubscriptionStatus::Active {
            Err(SubscriptionError::NotActive)
        } else if !self.plans.contains_key(self.subscriptions[user.id].plan_id)
            || !self.plans.contains_key(new_plan_id) {
            Err(SubscriptionError::PlanNotFound)
        } else {
            self.subscriptions[user.id].changed(
                self.plans[self.subscriptions[user.id].plan_id],
                self.plans[new_plan_id],
                now,
            )
        }
    }

    /// Why `member` cannot join the family of `owner`, if it cannot.
    pub open spec fn member_refused(self, owner: Address, member: Address) -> Option<
        SubscriptionError,
    > {
        if !self.subscriptions.contains_key(owner.id) {
            Some(SubscriptionError::SubscriptionNotFound)
        } else if self.subscriptions[owner.id].status != SubscriptionStatus::Active {
            Some(SubscriptionError::NotActive)
        } else if !self.plans.contains_key(self.subscriptions[owner.id].plan_id) {
            Some(SubscriptionError::PlanNotFound)
        } else {
            self.subscriptions[owner.id].member_refused(
                self.plans[self.subscriptions[owner.id].plan_id],
                member,
            )
        }
    }

    /// Why `user` cannot claim a gift at `now`, if it cannot.
    pub open spec fn claim_refused(self, user: Address, gift_id: u64, now: u64) -> Option<
        SubscriptionError,
    > {
        if !self.gifts.contains_key(gift_id) {
            Some(SubscriptionError::GiftNotFound)
        } else if self.gifts[gift_id].to != user {
            Some(SubscriptionError::GiftNotForUser)
        } else if self.gifts[gift_id].claimed {
            Some(SubscriptionError::GiftAlreadyClaimed)
        } else if self.is_subscribed(user) {
            Some(SubscriptionError::AlreadySubscribed)
        } else {
            self.start_refused(user, self.gifts[gift_id].plan_id, false, now)
        }
    }

    /// The subscription of `user` after a look at the clock at `now`.
    pub open spec fn status_check(self, user: Address, now: u64) -> Result<
        UserSubscription,
        SubscriptionError,
    > {
        if !self.subscriptions.contains_key(user.id) {
            Err(SubscriptionError::SubscriptionNotFound)
        } else if self.subscriptions[user.id].status != SubscriptionStatus::Active || now
            <= self.subscriptions[user.id].end_date {
            Ok(self.subscriptions[user.id])
        } else if self.settings is None {
            Err(SubscriptionError::NotInitialized)
        } else {
            self.subscriptions[user.id].checked(self.settings->Some_0.grace_period_days, now)
        }
    }

    /// Whether `user` may see the category: it has an active subscription
    /// to a plan that covers the category.
    pub open spec fn has_category_access(self, user: Address, category_id: u32) -> bool {
        &&& self.is_subscribed(user)
        &&& self.plans.contains_key(self.subscriptions[user.id].plan_id)
        &&& self.plans[self.subscriptions[user.id].plan_id].category_ids@.contains(category_id)
    }

    /// The state once `user` has the new subscription `subscription`.
    pub open spec fn with_subscription(self, user: Address, subscription: UserSubscription) -> State {
        State { subscriptions: self.subscriptions.insert(user.id, subscription), ..self }
    }

    /// The state with the next subscription id counted one up.
    pub open spec fn with_next_subscription(self) -> State {
        State {
            settings: Some(
                Settings {
                    next_subscription_id: (self.settings->Some_0.next_subscription_id + 1) as u64,
                    ..self.settings->Some_0
                },
            ),
            ..self
        }
    }
}

/// Whether `category_id` is among `category_ids`.
pub fn covers(category_ids: &Vec<u32>, category_id: u32) -> (found: bool)
    ensures
        found == category_ids@.contains(category_id),
{
    let mut i: usize = 0;
    while i < category_ids.len()
        invariant
            i <= category_ids.len(),
            forall|j: int| 0 <= j < i ==> category_ids@[j] != category_id,
        decreases category_ids.len() - i,
    {
        if category_ids[i] == category_id {
            return true;
        }
        i += 1;
    }
    false
}

/// The subscription service.
pub struct SubscriptionContract {
    settings: Option<Settings>,
    plans: HashMap<u32, SubscriptionPlan>,
    subscriptions: HashMap<u64, UserSubscription>,
    paused: HashMap<u64, PausedSubscriptionData>,
    gifts: HashMap<u64, GiftSubscription>,
}

impl View for SubscriptionContract {
    type V = State;

    closed spec fn view(&self) -> State {
        State {
            settings: self.settings,
            plans: self.plans@,
            subscriptions: self.subscriptions@,
            paused: self.paused@,
            gifts: self.gifts@,
        }
    }
}

impl SubscriptionContract {
    /// A service that holds nothing and is not initialized.
    pub fn new() -> (contract: SubscriptionContract)
        ensures
            contract@ == State::empty(),
    {
        SubscriptionContract {
            settings: None,
            plans: HashMap::new(),
            subscriptions: HashMap::new(),
            paused: HashMap::new(),
            gifts: HashMap::new(),
        }
    }

    /// Initializes the service, once; plans and subscriptions are numbered
    /// from 1.
    pub fn initialize(&mut self, admin: Address, token_address: Address, grace_period_days: u32) -> (done:
        Result<(), SubscriptionError>)
        ensures
            match old(self)@.settings {
                Some(_) => done == Err::<(), SubscriptionError>(
                    SubscriptionError::AlreadyInitialized,
                ) && final(self)@ == old(self)@,
                None => done is Ok && final(self)@ == (State {
                    settings: Some(
                        Settings {
                            admin,
                            token_address,
                            grace_period_days,
                            next_plan_id: 1,
                            next_subscription_id: 1,
                        },
                    ),
                    ..old(self)@
                }),
            },
    {
        if self.settings.is_some() {
            return Err(SubscriptionError::AlreadyInitialized);
        }
        self.settings = Some(
            Settings {
                admin,
                token_address,
                grace_period_days,
                next_plan_id: 1,
                next_subscription_id: 1,
            },
        );
        Ok(())
    }

    /// Creates an active plan and returns its id, the next in the count of
    /// plans.
    pub fn create_plan(
        &mut self,
        tier: SubscriptionTier,
        price: i128,
        duration_days: u32,
        category_ids: Vec<u32>,
        max_family_members: u32,
    ) -> (plan_id: Result<u32, SubscriptionError>)
        ensures
            match old(self)@.settings {
                None => plan_id == Err::<u32, SubscriptionError>(SubscriptionError::NotInitialized)
                    && final(self)@ == old(self)@,
                Some(settings) => if settings.next_plan_id == u32::MAX {
                    plan_id == Err::<u32, SubscriptionError>(SubscriptionError::Overflow) && final(self)@ == old(self)@
                } else {
                    plan_id == Ok::<u32, SubscriptionError>(settings.next_plan_id) && final(self)@
                        == (State {
                        settings: Some(
                            Settings {
                                next_plan_id: (settings.next_plan_id + 1) as u32,
                                ..settings
                            },
                        ),
                        plans: old(self)@.plans.insert(
                            settings.next_plan_id,
                            SubscriptionPlan {
                                plan_id: settings.next_plan_id,
                                tier,
                                price,
                                duration_days,
                                category_ids,
                                max_family_members,
                                is_active: true,
                            },
                        ),
                        ..old(self)@
                    })
                },
            },
    {
        let mut settings: Settings = match self.settings {
            Some(settings) => settings,
            None => {
                return Err(SubscriptionError::NotInitialized);
            },
        };
        let plan_id: u32 = settings.next_plan_id;
        if plan_id == u32::MAX {
            return Err(SubscriptionError::Overflow);
        }
        let plan = SubscriptionPlan {
            plan_id,
            tier,
            price,
            duration_days,
            category_ids,
            max_family_members,
            is_active: true,
        };
        self.plans.insert(plan_id, plan);
        settings.next_plan_id = plan_id + 1;
        self.settings = Some(settings);
        Ok(plan_id)
    }

    /// Gives a plan a new price and new categories, and opens or closes it
    /// to new subscribers.
    pub fn update_plan(&mut self, plan_id: u32, price: i128, category_ids: Vec<u32>, is_active: bool) -> (done:
        Result<(), SubscriptionError>)
        ensures
            if old(self)@.settings is None {
                done == Err::<(), SubscriptionError>(SubscriptionError::NotInitialized) && final(self)@ == old(self)@
            } else if !old(self)@.plans.contains_key(plan_id) {
                done == Err::<(), SubscriptionError>(SubscriptionError::PlanNotFound) && final(self)@ == old(self)@
            } else {
                done is Ok && final(self)@ == (State {
                    plans: old(self)@.plans.insert(
                        plan_id,
                        SubscriptionPlan {
                            price,
                            category_ids,
                            is_active,
                            ..old(self)@.plans[plan_id]
                        },
                    ),
                    ..old(self)@
                })
            },
    {
        if self.settings.is_none() {
            return Err(SubscriptionError::NotInitialized);
        }
        let mut plan: SubscriptionPlan = match self.plans.remove(&plan_id) {
            Some(plan) => plan,
            None => {
                proof {
                    assert(self@ =~= old(self)@);
                }
                return Err(SubscriptionError::PlanNotFound);
            },
        };
        plan.price = price;
        plan.category_ids = category_ids;
        plan.is_active = is_active;
        self.plans.insert(plan_id, plan);
        proof {
            assert(self.plans@ =~= old(self)@.plans.insert(plan_id, plan));
        }
        Ok(())
    }

    /// The plan with the given id, if there is one.
    pub fn get_plan(&self, plan_id: u32) -> (plan: Option<&SubscriptionPlan>)
        ensures
            match plan {
                Some(plan) => self@.plans.contains_key(plan_id) && *plan == self@.plans[plan_id],
                None => !self@.plans.contains_key(plan_id),
            },
    {
        self.plans.get(&plan_id)
    }

    /// The subscription of `user`, if it has one.
    pub fn get_subscription(&self, user: Address) -> (subscription: Option<&UserSubscription>)
        ensures
            match subscription {
                Some(subscription) => self@.subscriptions.contains_key(user.id) && *subscription
                    == self@.subscriptions[user.id],
                None => !self@.subscriptions.contains_key(user.id),
            },
    {
        self.subscriptions.get(&user.id)
    }

    /// The status of the subscription of `user`, if it has one.
    pub fn status_of(&self, user: Address) -> (status: Option<SubscriptionStatus>)
        ensures
            status == if self@.subscriptions.contains_key(user.id) {
                Some(self@.subscriptions[user.id].status)
            } else {
                None
            },
    {
        match self.subscriptions.get(&user.id) {
            Some(subscription) => Some(subscription.status),
            None => None,
        }
    }

    /// Subscribes `user` to an active plan at `now`, for one period of the
    /// plan, renewing by itself. Returns the subscription's id, the next in
    /// the count, and the plan's price to charge.
    pub fn subscribe(&mut self, user: Address, plan_id: u32, now: u64) -> (outcome: Result<
        Subscribed,
        SubscriptionError,
    >)
        ensures
            match old(self)@.start_refused(user, plan_id, true, now) {
                Some(error) => outcome == Err::<Subscribed, SubscriptionError>(error) && final(self)@
                    == old(self)@,
                None => {
                    &&& outcome == Ok::<Subscribed, SubscriptionError>(
                        Subscribed {
                            subscription_id: old(self)@.settings->Some_0.next_subscription_id,
                            charge: old(self)@.plans[plan_id].price,
                        },
                    )
                    &&& final(self)@.subscriptions.contains_key(user.id)
                    &&& final(self)@.subscriptions[user.id].is_new(
                        old(self)@.settings->Some_0.next_subscription_id,
                        user,
                        plan_id,
                        now,
                        old(self)@.plans[plan_id].duration_days,
                        true,
                    )
                    &&& final(self)@ == old(self)@.with_next_subscription().with_subscription(
                        user,
                        final(self)@.subscriptions[user.id],
                    )
                },
            },
    {
        let (duration_days, price, open) = match self.plans.get(&plan_id) {
            Some(plan) => (plan.duration_days, plan.price, check_plan_open(plan)),
            None => {
                return Err(SubscriptionError::PlanNotFound);
            },
        };
        match open {
            Ok(()) => {},
            Err(error) => {
                return Err(error);
            },
        }
        match check_not_subscribed(self.status_of(user)) {
            Ok(()) => {},
            Err(error) => {
                return Err(error);
            },
        }
        let mut settings: Settings = match self.settings {
            Some(settings) => settings,
            None => {
                return Err(SubscriptionError::NotInitialized);
            },
        };
        let subscription_id: u64 = settings.next_subscription_id;
        if subscription_id == u64::MAX {
            return Err(SubscriptionError::Overflow);
        }
        let subscription = match UserSubscription::start(
            subscription_id,
            user,
            plan_id,
            now,
            duration_days,
            true,
        ) {
            Some(subscription) => subscription,
            None => {
                return Err(SubscriptionError::Overflow);
            },
        };
        self.subscriptions.insert(user.id, subscription);
        settings.next_subscription_id = subscription_id + 1;
        self.settings = Some(settings);
        proof {
            assert(self@ =~= old(self)@.with_next_subscription().with_subscription(
                user,
                self@.subscriptions[user.id],
            ));
        }
        Ok(Subscribed { subscription_id, charge: price })
    }

    /// Renews the subscription of `user` for one period of its plan from
    /// `now`, and returns the plan's price to charge.
    pub fn renew_subscription(&mut self, user: Address, now: u64) -> (charge: Result<
        i128,
        SubscriptionError,
    >)
        ensures
            match old(self)@.renewal(user, now) {
                Ok(after) => charge == Ok::<i128, SubscriptionError>(
                    old(self)@.plans[old(self)@.subscriptions[user.id].plan_id].price,
                ) && final(self)@ == old(self)@.with_subscription(user, after),
                Err(error) => charge == Err::<i128, SubscriptionError>(error) && final(self)@
                    == old(self)@,
            },
    {
        let mut subscription: UserSubscription = match self.subscriptions.remove(&user.id) {
            Some(subscription) => subscription,
            None => {
                proof {
                    assert(self@ =~= old(self)@);
                }
                return Err(SubscriptionError::SubscriptionNotFound);
            },
        };
        let charge: Result<i128, SubscriptionError> = if subscription.status
            == SubscriptionStatus::Cancelled {
            Err(SubscriptionError::Cancelled)
        } else {
            match self.plans.get(&subscription.plan_id) {
                Some(plan) => subscription.renew(plan, now),
                None => Err(SubscriptionError::PlanNotFound),
            }
        };
        self.subscriptions.insert(user.id, subscription);
        proof {
            assert(self.subscriptions@ =~= old(self)@.subscriptions.insert(user.id, subscription));
            if charge is Err {
                assert(self@ =~= old(self)@);
            }
        }
        charge
    }

    /// Cancels the subscription of `user` at `now` and returns the prorated
    /// refund; it is owed where it is positive.
    pub fn cancel_subscription(&mut self, user: Address, now: u64) -> (refund: Result<
        i128,
        SubscriptionError,
    >)
        ensures
            match old(self)@.cancellation(user, now) {
                Ok(after) => refund == Ok::<i128, SubscriptionError>(
                    prorated(
                        old(self)@.plans[old(self)@.subscriptions[user.id].plan_id].price as int,
                        old(self)@.subscriptions[user.id],
                        now,
                    ) as i128,
                ) && final(self)@ == old(self)@.with_subscription(user, after),
                Err(error) => refund == Err::<i128, SubscriptionError>(error) && final(self)@
                    == old(self)@,
            },
    {
        let mut subscription: UserSubscription = match self.subscriptions.remove(&user.id) {
            Some(subscription) => subscription,
            None => {
                proof {
                    assert(self@ =~= old(self)@);
                }
                return Err(SubscriptionError::SubscriptionNotFound);
            },
        };
        let refund: Result<i128, SubscriptionError> = if subscription.status
            == SubscriptionStatus::Cancelled {
            Err(SubscriptionError::Cancelled)
        } else {
            match self.plans.get(&subscription.plan_id) {
                Some(plan) => subscription.cancel(plan, now),
                None => Err(SubscriptionError::PlanNotFound),
            }
        };
        self.subscriptions.insert(user.id, subscription);
        proof {
            assert(self.subscriptions@ =~= old(self)@.subscriptions.insert(user.id, subscription));
            if refund is Err {
                assert(self@ =~= old(self)@);
            }
        }
        refund
    }

    /// Pauses the active subscription of `user` at `now`, and remembers the
    /// time of the pause and the whole days that were left.
    pub fn pause_subscription(&mut self, user: Address, now: u64) -> (done: Result<
        (),
        SubscriptionError,
    >)
        ensures
            if !old(self)@.subscriptions.contains_key(user.id) {
                done == Err::<(), SubscriptionError>(SubscriptionError::SubscriptionNotFound)
                    && final(self)@ == old(self)@
            } else {
                match old(self)@.subscriptions[user.id].paused(now) {
                    Ok(after) => done is Ok && final(self)@ == (State {
                        subscriptions: old(self)@.subscriptions.insert(user.id, after),
                        paused: old(self)@.paused.insert(
                            user.id,
                            PausedSubscriptionData {
                                paused_at: now,
                                remaining_days: old(self)@.subscriptions[user.id].days_left(now) as u32,
                            },
                        ),
                        ..old(self)@
                    }),
                    Err(error) => done == Err::<(), SubscriptionError>(error) && final(self)@
                        == old(self)@,
                }
            },
    {
        let mut subscription: UserSubscription = match self.subscriptions.remove(&user.id) {
            Some(subscription) => subscription,
            None => {
                proof {
                    assert(self@ =~= old(self)@);
                }
                return Err(SubscriptionError::SubscriptionNotFound);
            },
        };
        let outcome = subscription.pause(now);
        self.subscriptions.insert(user.id, subscription);
        proof {
            assert(self.subscriptions@ =~= old(self)@.subscriptions.insert(user.id, subscription));
        }
        match outcome {
            Ok(data) => {
                self.paused.insert(user.id, data);
                Ok(())
            },
            Err(error) => {
                proof {
                    assert(self@ =~= old(self)@);
                }
                Err(error)
            },
        }
    }

    /// Resumes the paused subscription of `user` at `now` for the days that
    /// were left, and forgets what was remembered of the pause.
    pub fn resume_subscription(&mut self, user: Address, now: u64) -> (done: Result<
        (),
        SubscriptionError,
    >)
        ensures
            if !old(self)@.subscriptions.contains_key(user.id) {
                done == Err::<(), SubscriptionError>(SubscriptionError::SubscriptionNotFound)
                    && final(self)@ == old(self)@
            } else {
                match old(self)@.subscriptions[user.id].resumed(
                    if old(self)@.paused.contains_key(user.id) {
                        Some(old(self)@.paused[user.id])
                    } else {
                        None
                    },
                    now,
                ) {
                    Ok(after) => done is Ok && final(self)@ == (State {
                        subscriptions: old(self)@.subscriptions.insert(user.id, after),
                        paused: old(self)@.paused.remove(user.id),
                        ..old(self)@
                    }),
                    Err(error) => done == Err::<(), SubscriptionError>(error) && final(self)@
                        == old(self)@,
                }
            },
    {
        let mut subscription: UserSubscription = match self.subscriptions.remove(&user.id) {
            Some(subscription) => subscription,
            None => {
                proof {
                    assert(self@ =~= old(self)@);
                }
                return Err(SubscriptionError::SubscriptionNotFound);
            },
        };
        let data: Option<PausedSubscriptionData> = match self.paused.get(&user.id) {
            Some(data) => Some(*data),
            None => None,
        };
        let outcome = subscription.resume(data, now);
        self.subscriptions.insert(user.id, subscription);
        proof {
            assert(self.subscriptions@ =~= old(self)@.subscriptions.insert(user.id, subscription));
        }
        match outcome {
            Ok(()) => {
                self.paused.remove(&user.id);
                Ok(())
            },
            Err(error) => {
                proof {
                    assert(self@ =~= old(self)@);
                }
                Err(error)
            },
        }
    }

    /// Moves the active subscription of `user` to another active plan at
    /// `now`, and returns what the change costs.
    pub fn change_plan(&mut self, user: Address, new_plan_id: u32, now: u64) -> (cost: Result<
        PlanChange,
        SubscriptionError,
    >)
        ensures
            match old(self)@.change(user, new_plan_id, now) {
                Ok(after) => cost == Ok::<PlanChange, SubscriptionError>(
                    plan_change(
                        plan_change_amount(
                            old(self)@.plans[old(self)@.subscriptions[user.id].plan_id].price as int,
                            old(self)@.plans[new_plan_id].price as int,
                            old(self)@.plans[new_plan_id].duration_days as int,
                            old(self)@.subscriptions[user.id],
                            now,
                        ),
                        old(self)@.plans[new_plan_id].price,
                    ),
                ) && final(self)@ == old(self)@.with_subscription(user, after),
                Err(error) => cost == Err::<PlanChange, SubscriptionError>(error) && final(self)@
                    == old(self)@,
            },
    {
        let mut subscription: UserSubscription = match self.subscriptions.remove(&user.id) {
            Some(subscription) => subscription,
            None => {
                proof {
                    assert(self@ =~= old(self)@);
                }
                return Err(SubscriptionError::SubscriptionNotFound);
            },
        };
        let cost: Result<PlanChange, SubscriptionError> = if subscription.status
            != SubscriptionStatus::Active {
            Err(SubscriptionError::NotActive)
        } else {
            match self.plans.get(&subscription.plan_id) {
                None => Err(SubscriptionError::PlanNotFound),
                Some(old_plan) => match self.plans.get(&new_plan_id) {
                    None => Err(SubscriptionError::PlanNotFound),
                    Some(new_plan) => subscription.change_plan(old_plan, new_plan, now),
                },
            }
        };
        self.subscriptions.insert(user.id, subscription);
        proof {
            assert(self.subscriptions@ =~= old(self)@.subscriptions.insert(user.id, subscription));
            if cost is Err {
                assert(self@ =~= old(self)@);
            }
        }
        cost
    }

    /// Adds `member` to the family of the active subscription of `owner`.
    pub fn add_family_member(&mut self, owner: Address, member: Address) -> (done: Result<
        (),
        SubscriptionError,
    >)
        ensures
            match old(self)@.member_refused(owner, member) {
                None => {
                    &&& done is Ok
                    &&& final(self)@.subscriptions.contains_key(owner.id)
                    &&& final(self)@.subscriptions[owner.id].family_members@ == old(self)@.subscriptions[owner.id].family_members@.push(member)
                    &&& final(self)@.subscriptions[owner.id] == (UserSubscription {
                        family_members: final(self)@.subscriptions[owner.id].family_members,
                        is_family_plan: true,
                        ..old(self)@.subscriptions[owner.id]
                    })
                    &&& final(self)@ == old(self)@.with_subscription(
                        owner,
                        final(self)@.subscriptions[owner.id],
                    )
                },
                Some(error) => done == Err::<(), SubscriptionError>(error) && final(self)@ == old(self)@,
            },
    {
        let mut subscription: UserSubscription = match self.subscriptions.remove(&owner.id) {
            Some(subscription) => subscription,
            None => {
                proof {
                    assert(self@ =~= old(self)@);
                }
                return Err(SubscriptionError::SubscriptionNotFound);
            },
        };
        let done: Result<(), SubscriptionError> = if subscription.status
            != SubscriptionStatus::Active {
            Err(SubscriptionError::NotActive)
        } else {
            match self.plans.get(&subscription.plan_id) {
                Some(plan) => subscription.add_family_member(plan, member),
                None => Err(SubscriptionError::PlanNotFound),
            }
        };
        self.subscriptions.insert(owner.id, subscription);
        proof {
            assert(self.subscriptions@ =~= old(self)@.subscriptions.insert(owner.id, subscription));
            if done is Err {
                assert(self@ =~= old(self)@);
            } else {
                assert(self@ =~= old(self)@.with_subscription(owner, self@.subscriptions[owner.id]));
            }
        }
        done
    }

    /// Takes `member` out of the family of the subscription of `owner`.
    pub fn remove_family_member(&mut self, owner: Address, member: Address) -> (done: Result<
        (),
        SubscriptionError,
    >)
        ensures
            match done {
                Ok(()) => {
                    &&& old(self)@.subscriptions.contains_key(owner.id)
                    &&& final(self)@.subscriptions.contains_key(owner.id)
                    &&& exists|index: int|
                        {
                            &&& #[trigger] first_at(
                                old(self)@.subscriptions[owner.id].family_members@,
                                member,
                                index,
                            )
                            &&& final(self)@.subscriptions[owner.id].family_members@ == old(self)@.subscriptions[owner.id].family_members@.remove(index)
                        }
                    &&& final(self)@.subscriptions[owner.id] == (UserSubscription {
                        family_members: final(self)@.subscriptions[owner.id].family_members,
                        is_family_plan: old(self)@.subscriptions[owner.id].is_family_plan && old(self)@.subscriptions[owner.id].family_members@.len() > 1,
                        ..old(self)@.subscriptions[owner.id]
                    })
                    &&& final(self)@ == old(self)@.with_subscription(
                        owner,
                        final(self)@.subscriptions[owner.id],
                    )
                },
                Err(error) => final(self)@ == old(self)@ && if old(self)@.subscriptions.contains_key(
                    owner.id,
                ) {
                    error == SubscriptionError::MemberNotFound && !old(self)@.subscriptions[owner.id].family_members@.contains(member)
                } else {
                    error == SubscriptionError::SubscriptionNotFound
                },
            },
    {
        let mut subscription: UserSubscription = match self.subscriptions.remove(&owner.id) {
            Some(subscription) => subscription,
            None => {
                proof {
                    assert(self@ =~= old(self)@);
                }
                return Err(SubscriptionError::SubscriptionNotFound);
            },
        };
        let done = subscription.remove_family_member(member);
        self.subscriptions.insert(owner.id, subscription);
        proof {
            assert(self.subscriptions@ =~= old(self)@.subscriptions.insert(owner.id, subscription));
            if done is Err {
                assert(self@ =~= old(self)@);
            } else {
                assert(self@ =~= old(self)@.with_subscription(owner, self@.subscriptions[owner.id]));
            }
        }
        done
    }

    /// Records a gift of one period of an active plan from `from` to `to`,
    /// under the time `now` as its id, in place of any gift made at the same
    /// time. Returns the id and the plan's price to charge the giver.
    pub fn gift_subscription(&mut self, from: Address, to: Address, plan_id: u32, now: u64) -> (outcome:
        Result<Gifted, SubscriptionError>)
        ensures
            if !old(self)@.plans.contains_key(plan_id) {
                outcome == Err::<Gifted, SubscriptionError>(SubscriptionError::PlanNotFound)
                    && final(self)@ == old(self)@
            } else if !old(self)@.plans[plan_id].is_active {
                outcome == Err::<Gifted, SubscriptionError>(SubscriptionError::PlanNotActive)
                    && final(self)@ == old(self)@
            } else {
                outcome == Ok::<Gifted, SubscriptionError>(
                    Gifted { gift_id: now, charge: old(self)@.plans[plan_id].price },
                ) && final(self)@ == (State {
                    gifts: old(self)@.gifts.insert(
                        now,
                        GiftSubscription {
                            gift_id: now,
                            from,
                            to,
                            plan_id,
                            claimed: false,
                            created_at: now,
                        },
                    ),
                    ..old(self)@
                })
            },
    {
        let (price, open) = match self.plans.get(&plan_id) {
            Some(plan) => (plan.price, check_plan_open(plan)),
            None => {
                return Err(SubscriptionError::PlanNotFound);
            },
        };
        match open {
            Ok(()) => {},
            Err(error) => {
                return Err(error);
            },
        }
        self.gifts.insert(
            now,
            GiftSubscription { gift_id: now, from, to, plan_id, claimed: false, created_at: now },
        );
        Ok(Gifted { gift_id: now, charge: price })
    }

    /// The gift with the given id, if there is one.
    pub fn get_gift(&self, gift_id: u64) -> (gift: Option<GiftSubscription>)
        ensures
            gift == if self@.gifts.contains_key(gift_id) {
                Some(self@.gifts[gift_id])
            } else {
                None
            },
    {
        match self.gifts.get(&gift_id) {
            Some(gift) => Some(*gift),
            None => None,
        }
    }

    /// Claims a gift for `user` at `now`: the user gets a subscription to
    /// the gift's plan for one period, which does not renew by itself, and the
    /// gift is marked as claimed. Returns the subscription's id.
    pub fn claim_gift(&mut self, user: Address, gift_id: u64, now: u64) -> (subscription_id: Result<
        u64,
        SubscriptionError,
    >)
        ensures
            match old(self)@.claim_refused(user, gift_id, now) {
                Some(error) => subscription_id == Err::<u64, SubscriptionError>(error) && final(self)@ == old(self)@,
                None => {
                    &&& subscription_id == Ok::<u64, SubscriptionError>(
                        old(self)@.settings->Some_0.next_subscription_id,
                    )
                    &&& final(self)@.subscriptions.contains_key(user.id)
                    &&& final(self)@.subscriptions[user.id].is_new(
                        old(self)@.settings->Some_0.next_subscription_id,
                        user,
                        old(self)@.gifts[gift_id].plan_id,
                        now,
                        old(self)@.plans[old(self)@.gifts[gift_id].plan_id].duration_days,
                        false,
                    )
                    &&& final(self)@ == (State {
                        gifts: old(self)@.gifts.insert(
                            gift_id,
                            GiftSubscription { claimed: true, ..old(self)@.gifts[gift_id] },
                        ),
                        ..old(self)@.with_next_subscription().with_subscription(
                            user,
                            final(self)@.subscriptions[user.id],
                        )
                    })
                },
            },
    {
        let mut gift: GiftSubscription = match self.gifts.get(&gift_id) {
            Some(gift) => *gift,
            None => {
                return Err(SubscriptionError::GiftNotFound);
            },
        };
        match check_gift(&gift, user) {
            Ok(()) => {},
            Err(error) => {
                return Err(error);
            },
        }
        match check_not_subscribed(self.status_of(user)) {
            Ok(()) => {},
            Err(error) => {
                return Err(error);
            },
        }
        let duration_days: u32 = match self.plans.get(&gift.plan_id) {
            Some(plan) => plan.duration_days,
            None => {
                return Err(SubscriptionError::PlanNotFound);
            },
        };
        let mut settings: Settings = match self.settings {
            Some(settings) => settings,
            None => {
                return Err(SubscriptionError::NotInitialized);
            },
        };
        let subscription_id: u64 = settings.next_subscription_id;
        if subscription_id == u64::MAX {
            return Err(SubscriptionError::Overflow);
        }
        let subscription = match UserSubscription::start(
            subscription_id,
            user,
            gift.plan_id,
            now,
            duration_days,
            false,
        ) {
            Some(subscription) => subscription,
            None => {
                return Err(SubscriptionError::Overflow);
            },
        };
        gift.claimed = true;
        self.subscriptions.insert(user.id, subscription);
        self.gifts.insert(gift_id, gift);
        settings.next_subscription_id = subscription_id + 1;
        self.settings = Some(settings);
        proof {
            assert(self@ =~= (State {
                gifts: old(self)@.gifts.insert(
                    gift_id,
                    GiftSubscription { claimed: true, ..old(self)@.gifts[gift_id] },
                ),
                ..old(self)@.with_next_subscription().with_subscription(
                    user,
                    self@.subscriptions[user.id],
                )
            }));
        }
        Ok(subscription_id)
    }

    /// Turns renewal by itself on or off for the subscription of `user`.
    pub fn set_auto_renew(&mut self, user: Address, auto_renew: bool) -> (done: Result<
        (),
        SubscriptionError,
    >)
        ensures
            if old(self)@.subscriptions.contains_key(user.id) {
                done is Ok && final(self)@ == old(self)@.with_subscription(
                    user,
                    UserSubscription { auto_renew, ..old(self)@.subscriptions[user.id] },
                )
            } else {
                done == Err::<(), SubscriptionError>(SubscriptionError::SubscriptionNotFound)
                    && final(self)@ == old(self)@
            },
    {
        let mut subscription: UserSubscription = match self.subscriptions.remove(&user.id) {
            Some(subscription) => subscription,
            None => {
                proof {
                    assert(self@ =~= old(self)@);
                }
                return Err(SubscriptionError::SubscriptionNotFound);
            },
        };
        subscription.set_auto_renew(auto_renew);
        self.subscriptions.insert(user.id, subscription);
        proof {
            assert(self.subscriptions@ =~= old(self)@.subscriptions.insert(user.id, subscription));
        }
        Ok(())
    }

    /// Looks at the clock for the subscription of `user`: once an active
    /// subscription is past its end it is in its grace period, and after
    /// that expired. Returns the status it then has.
    pub fn check_subscription_status(&mut self, user: Address, now: u64) -> (status: Result<
        SubscriptionStatus,
        SubscriptionError,
    >)
        ensures
            match old(self)@.status_check(user, now) {
                Ok(after) => status == Ok::<SubscriptionStatus, SubscriptionError>(after.status)
                    && final(self)@ == old(self)@.with_subscription(user, after),
                Err(error) => status == Err::<SubscriptionStatus, SubscriptionError>(error)
                    && final(self)@ == old(self)@,
            },
    {
        let mut subscription: UserSubscription = match self.subscriptions.remove(&user.id) {
            Some(subscription) => subscription,
            None => {
                proof {
                    assert(self@ =~= old(self)@);
                }
                return Err(SubscriptionError::SubscriptionNotFound);
            },
        };
        let status: Result<SubscriptionStatus, SubscriptionError> = if subscription.status
            != SubscriptionStatus::Active || now <= subscription.end_date {
            Ok(subscription.status)
        } else {
            match self.settings {
                Some(settings) => subscription.check_status(settings.grace_period_days, now),
                None => Err(SubscriptionError::NotInitialized),
            }
        };
        self.subscriptions.insert(user.id, subscription);
        proof {
            assert(self.subscriptions@ =~= old(self)@.subscriptions.insert(user.id, subscription));
            if status is Err {
                assert(self@ =~= old(self)@);
            } else {
                assert(self@ =~= old(self)@.with_subscription(user, subscription));
            }
        }
        status
    }

    /// Whether `user` may see a category.
    pub fn has_category_access(&self, user: Address, category_id: u32) -> (access: bool)
        ensures
            access == self@.has_category_access(user, category_id),
    {
        let subscription = match self.subscriptions.get(&user.id) {
            Some(subscription) => subscription,
            None => {
                return false;
            },
        };
        if subscription.status != SubscriptionStatus::Active {
            return false;
        }
        let plan = match self.plans.get(&subscription.plan_id) {
            Some(plan) => plan,
            None => {
                return false;
            },
        };
        covers(&plan.category_ids, category_id)
    }

    /// Whether a family member may see a category. Members have no access of
    /// their own.
    pub fn check_family_access(&self, member: Address, category_id: u32) -> (access: bool)
        ensures
            !access,
    {
        false
    }
}

} // verus!
