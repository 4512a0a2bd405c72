//! The life of one subscription: started, renewed, paused and resumed,
//! moved to another plan, cancelled.
use crate::address::Address;
use crate::subscription::storage_types::{
    GiftSubscription,
    PausedSubscriptionData,
    SubscriptionError,
    SubscriptionPlan,
    SubscriptionStatus,
    UserSubscription,
};
use crate::subscription::subscription::{plan_change_amount, prorated, remaining_seconds};
use crate::subscription::utils::SECONDS_PER_DAY;
use vstd::prelude::*;

verus! {

/// The end of a period of `days` days that starts at `now`.
pub open spec fn period_end(now: u64, days: u32) -> int {
    now + days * 86400
}

/// Whether the prorated part of `price` can be computed in 128 bits: where
/// time is left, the period must not end before it starts, and, unless it is
/// empty, the price times the seconds left must fit.
pub open spec fn proration_fits(price: int, subscription: UserSubscription, now: u64) -> bool {
    now >= subscription.end_date || (subscription.start_date <= subscription.end_date && (
    subscription.start_date == subscription.end_date || i128::MIN <= price * remaining_seconds(
        subscription,
        now,
    ) <= i128::MAX))
}

/// The end of a period of `days` days that starts at `now`, if it fits.
pub fn end_of_period(now: u64, days: u32) -> (end: Option<u64>)
    ensures
        end == if period_end(now, days) <= u64::MAX {
            Some(period_end(now, days) as u64)
        } else {
            None
        },
{
    let length: u64 = (days as u64) * SECONDS_PER_DAY;
    now.checked_add(length)
}

/// The part of `price` that falls to the time left of the paid period, if
/// it can be computed.
pub fn prorated_amount(price: i128, subscription: &UserSubscription, now: u64) -> (amount: Option<
    i128,
>)
    ensures
        amount == if proration_fits(price as int, *subscription, now) {
            Some(prorated(price as int, *subscription, now) as i128)
        } else {
            None
        },
{
    if now >= subscription.end_date {
        return Some(0);
    }
    if subscription.start_date > subscription.end_date {
        return None;
    }
    let total_duration: u64 = subscription.end_date - subscription.start_date;
    let remaining_duration: u64 = subscription.end_date - now;
    if total_duration == 0 {
        return Some(0);
    }
    let product: i128 = match price.checked_mul(remaining_duration as i128) {
        Some(product) => product,
        None => {
            return None;
        },
    };
    proof {
        lemma_quotient_fits(product as int, total_duration as int);
    }
    Some(product / (total_duration as i128))
}

/// Accepts a plan that takes new subscribers.
pub fn check_plan_open(plan: &SubscriptionPlan) -> (verdict: Result<(), SubscriptionError>)
    ensures
        verdict == if plan.is_active {
            Ok::<(), SubscriptionError>(())
        } else {
            Err(SubscriptionError::PlanNotActive)
        },
{
    if plan.is_active {
        Ok(())
    } else {
        Err(SubscriptionError::PlanNotActive)
    }
}

/// Accepts a user who has no subscription, or one that is not active.
pub fn check_not_subscribed(existing: Option<SubscriptionStatus>) -> (verdict: Result<
    (),
    SubscriptionError,
>)
    ensures
        verdict == if existing == Some(SubscriptionStatus::Active) {
            Err::<(), SubscriptionError>(SubscriptionError::AlreadySubscribed)
        } else {
            Ok(())
        },
{
    match existing {
        Some(SubscriptionStatus::Active) => Err(SubscriptionError::AlreadySubscribed),
        _ => Ok(()),
    }
}

/// Accepts the recipient of a gift that was not claimed yet.
pub fn check_gift(gift: &GiftSubscription, user: Address) -> (verdict: Result<
    (),
    SubscriptionError,
>)
    ensures
        verdict == if gift.to != user {
            Err::<(), SubscriptionError>(SubscriptionError::GiftNotForUser)
        } else if gift.claimed {
            Err(SubscriptionError::GiftAlreadyClaimed)
        } else {
            Ok(())
        },
{
    if gift.to.id != user.id {
        Err(SubscriptionError::GiftNotForUser)
    } else if gift.claimed {
        Err(SubscriptionError::GiftAlreadyClaimed)
    } else {
        Ok(())
    }
}

/// Dividing by a positive number, rounding toward zero, brings a number no
/// further from zero.
pub proof fn lemma_quotient_fits(a: int, b: int)
    requires
        b > 0,
    ensures
        a >= 0 ==> 0 <= a / b <= a,
        a < 0 ==> a <= -((-a) / b) <= 0,
{
    if a >= 0 {
        assert(0 <= a / b <= a) by (nonlinear_arith)
            requires
                a >= 0,
                b > 0,
        ;
    } else {
        let c = -a;
        assert(0 <= c / b <= c) by (nonlinear_arith)
            requires
                c >= 0,
                b > 0,
        ;
    }
}

impl UserSubscription {
    /// Whether the subscription is the one that `start` creates.
    pub open spec fn is_new(
        self,
        subscription_id: u64,
        user: Address,
        plan_id: u32,
        now: u64,
        days: u32,
        auto_renew: bool,
    ) -> bool {
        &&& self.subscription_id == subscription_id
        &&& self.user == user
        &&& self.plan_id == plan_id
        &&& self.status == SubscriptionStatus::Active
        &&& self.start_date == now
        &&& self.end_date == period_end(now, days)
        &&& self.last_payment_date == now
        &&& self.auto_renew == auto_renew
        &&& !self.is_family_plan
        &&& self.family_members@.len() == 0
    }

    /// The subscription after a renewal paid at `now`.
    pub open spec fn renewed(self, plan: SubscriptionPlan, now: u64) -> Result<
        UserSubscription,
        SubscriptionError,
    > {
        if self.status == SubscriptionStatus::Cancelled {
            Err(SubscriptionError::Cancelled)
        } else if period_end(now, plan.duration_days) > u64::MAX {
            Err(SubscriptionError::Overflow)
        } else {
            Ok(
                UserSubscription {
                    end_date: period_end(now, plan.duration_days) as u64,
                    last_payment_date: now,
                    status: SubscriptionStatus::Active,
                    ..self
                },
            )
        }
    }

    /// The subscription after it is cancelled at `now`.
    pub open spec fn cancelled(self, plan: SubscriptionPlan, now: u64) -> Result<
        UserSubscription,
        SubscriptionError,
    > {
        if self.status == SubscriptionStatus::Cancelled {
            Err(SubscriptionError::Cancelled)
        } else if !proration_fits(plan.price as int, self, now) {
            Err(SubscriptionError::Overflow)
        } else {
            Ok(UserSubscription { status: SubscriptionStatus::Cancelled, auto_renew: false, ..self })
        }
    }

    /// The whole days left at `now`, reduced modulo 2^32.
    pub open spec fn days_left(self, now: u64) -> int {
        (remaining_seconds(self, now) / 86400) % 0x1_0000_0000
    }

    /// The subscription after it is paused at `now`.
    pub open spec fn paused(self, now: u64) -> Result<UserSubscription, SubscriptionError> {
        if self.status != SubscriptionStatus::Active {
            Err(SubscriptionError::NotActive)
        } else if now > self.end_date {
            Err(SubscriptionError::Overflow)
        } else {
            Ok(UserSubscription { status: SubscriptionStatus::Paused, auto_renew: false, ..self })
        }
    }

    /// The subscription after it is resumed at `now` with the days that
    /// were left when it was paused.
    pub open spec fn resumed(self, paused: Option<PausedSubscriptionData>, now: u64) -> Result<
        UserSubscription,
        SubscriptionError,
    > {
        if self.status != SubscriptionStatus::Paused {
            Err(SubscriptionError::NotPaused)
        } else if paused is None {
            Err(SubscriptionError::PausedDataNotFound)
        } else if period_end(now, paused->Some_0.remaining_days) > u64::MAX {
            Err(SubscriptionError::Overflow)
        } else {
            Ok(
                UserSubscription {
                    status: SubscriptionStatus::Active,
                    end_date: period_end(now, paused->Some_0.remaining_days) as u64,
                    auto_renew: true,
                    ..self
                },
            )
        }
    }

    /// Whether the amount due for a change of plan can be computed in 128
    /// bits, and its opposite too.
    pub open spec fn change_fits(
        self,
        old_plan: SubscriptionPlan,
        new_plan: SubscriptionPlan,
        now: u64,
    ) -> bool {
        let amount = plan_change_amount(
            old_plan.price as int,
            new_plan.price as int,
            new_plan.duration_days as int,
            self,
            now,
        );
        &&& now >= self.end_date || (self.start_date <= self.end_date && (self.start_date
            == self.end_date || (new_plan.duration_days > 0 && i128::MIN <= old_plan.price
            * remaining_seconds(self, now) <= i128::MAX && i128::MIN <= new_plan.price
            * remaining_seconds(self, now) <= i128::MAX)))
        &&& i128::MIN < amount <= i128::MAX
    }

    /// The subscription after a change to `new_plan` at `now`.
    pub open spec fn changed(
        self,
        old_plan: SubscriptionPlan,
        new_plan: SubscriptionPlan,
        now: u64,
    ) -> Result<UserSubscription, SubscriptionError> {
        if self.status != SubscriptionStatus::Active {
            Err(SubscriptionError::NotActive)
        } else if !new_plan.is_active {
            Err(SubscriptionError::PlanNotActive)
        } else if !self.change_fits(old_plan, new_plan, now) {
            Err(SubscriptionError::Overflow)
        } else {
            Ok(UserSubscription { plan_id: new_plan.plan_id, ..self })
        }
    }

    /// The status after a look at the clock at `now`: an active
    /// subscription past its end is in its grace period for
    /// `grace_period_days` days and expired after them.
    pub open spec fn checked(self, grace_period_days: u32, now: u64) -> Result<
        UserSubscription,
        SubscriptionError,
    > {
        if self.status != SubscriptionStatus::Active || now <= self.end_date {
            Ok(self)
        } else if self.end_date + grace_period_days * 86400 > u64::MAX {
            Err(SubscriptionError::Overflow)
        } else if now <= self.end_date + grace_period_days * 86400 {
            Ok(UserSubscription { status: SubscriptionStatus::GracePeriod, ..self })
        } else {
            Ok(UserSubscription { status: SubscriptionStatus::Expired, auto_renew: false, ..self })
        }
    }

    /// A subscription to `plan_id` for `days` days from `now`.
    pub fn start(
        subscription_id: u64,
        user: Address,
        plan_id: u32,
        now: u64,
        days: u32,
        auto_renew: bool,
    ) -> (subscription: Option<UserSubscription>)
        ensures
            match subscription {
                Some(subscription) => subscription.is_new(
                    subscription_id,
                    user,
                    plan_id,
                    now,
                    days,
                    auto_renew,
                ),
                None => period_end(now, days) > u64::MAX,
            },
    {
        let end_date: u64 = match end_of_period(now, days) {
            Some(end_date) => end_date,
            None => {
                return None;
            },
        };
        Some(
            UserSubscription {
                subscription_id,
                user,
                plan_id,
                status: SubscriptionStatus::Active,
                start_date: now,
                end_date,
                last_payment_date: now,
                auto_renew,
                is_family_plan: false,
                family_members: Vec::new(),
            },
        )
    }

    /// Renews the subscription for one period of `plan` from `now`, and
    /// returns the price to charge.
    pub fn renew(&mut self, plan: &SubscriptionPlan, now: u64) -> (charge: Result<
        i128,
        SubscriptionError,
    >)
        ensures
            match old(self).renewed(*plan, now) {
                Ok(after) => charge == Ok::<i128, SubscriptionError>(plan.price) && *final(self)
                    == after,
                Err(error) => charge == Err::<i128, SubscriptionError>(error) && *final(self)
                    == *old(self),
            },
    {
        if self.status == SubscriptionStatus::Cancelled {
            return Err(SubscriptionError::Cancelled);
        }
        let end_date: u64 = match end_of_period(now, plan.duration_days) {
            Some(end_date) => end_date,
            None => {
                return Err(SubscriptionError::Overflow);
            },
        };
        self.end_date = end_date;
        self.last_payment_date = now;
        self.status = SubscriptionStatus::Active;
        Ok(plan.price)
    }

    /// Cancels the subscription at `now` and returns the prorated refund;
    /// it is owed where it is positive.
    pub fn cancel(&mut self, plan: &SubscriptionPlan, now: u64) -> (refund: Result<
        i128,
        SubscriptionError,
    >)
        ensures
            match old(self).cancelled(*plan, now) {
                Ok(after) => refund == Ok::<i128, SubscriptionError>(
                    prorated(plan.price as int, *old(self), now) as i128,
                ) && *final(self) == after,
                Err(error) => refund == Err::<i128, SubscriptionError>(error) && *final(self)
                    == *old(self),
            },
    {
        if self.status == SubscriptionStatus::Cancelled {
            return Err(SubscriptionError::Cancelled);
        }
        let refund: i128 = match prorated_amount(plan.price, self, now) {
            Some(refund) => refund,
            None => {
                return Err(SubscriptionError::Overflow);
            },
        };
        self.status = SubscriptionStatus::Cancelled;
        self.auto_renew = false;
        Ok(refund)
    }

    /// Pauses an active subscription at `now` and returns what to remember
    /// of it: the time of the pause and the whole days that were left.
    pub fn pause(&mut self, now: u64) -> (data: Result<PausedSubscriptionData, SubscriptionError>)
        ensures
            match old(self).paused(now) {
                Ok(after) => data == Ok::<PausedSubscriptionData, SubscriptionError>(
                    PausedSubscriptionData {
                        paused_at: now,
                        remaining_days: old(self).days_left(now) as u32,
                    },
                ) && *final(self) == after,
                Err(error) => data == Err::<PausedSubscriptionData, SubscriptionError>(error)
                    && *final(self) == *old(self),
            },
    {
        if self.status != SubscriptionStatus::Active {
            return Err(SubscriptionError::NotActive);
        }
        if now > self.end_date {
            return Err(SubscriptionError::Overflow);
        }
        let left: u64 = ((self.end_date - now) / SECONDS_PER_DAY) % 0x1_0000_0000;
        self.status = SubscriptionStatus::Paused;
        self.auto_renew = false;
        Ok(PausedSubscriptionData { paused_at: now, remaining_days: left as u32 })
    }

    /// Resumes a paused subscription at `now`: it runs for the days that
    /// were left when it was paused, and renews by itself again.
    pub fn resume(&mut self, paused: Option<PausedSubscriptionData>, now: u64) -> (done: Result<
        (),
        SubscriptionError,
    >)
        ensures
            match old(self).resumed(paused, now) {
                Ok(after) => done is Ok && *final(self) == after,
                Err(error) => done == Err::<(), SubscriptionError>(error) && *final(self) == *old(self),
            },
    {
        if self.status != SubscriptionStatus::Paused {
            return Err(SubscriptionError::NotPaused);
        }
        let data: PausedSubscriptionData = match paused {
            Some(data) => data,
            None => {
                return Err(SubscriptionError::PausedDataNotFound);
            },
        };
        let end_date: u64 = match end_of_period(now, data.remaining_days) {
            Some(end_date) => end_date,
            None => {
                return Err(SubscriptionError::Overflow);
            },
        };
        self.status = SubscriptionStatus::Active;
        self.end_date = end_date;
        self.auto_renew = true;
        Ok(())
    }

    /// Turns renewal by itself on or off.
    pub fn set_auto_renew(&mut self, auto_renew: bool)
        ensures
            *final(self) == (UserSubscription { auto_renew, ..*old(self) }),
    {
        self.auto_renew = auto_renew;
    }

    /// Looks at the clock: an active subscription past its end moves to its
    /// grace period or, after that, expires. Returns the status it then has.
    pub fn check_status(&mut self, grace_period_days: u32, now: u64) -> (status: Result<
        SubscriptionStatus,
        SubscriptionError,
    >)
        ensures
            match old(self).checked(grace_period_days, now) {
                Ok(after) => status == Ok::<SubscriptionStatus, SubscriptionError>(after.status)
                    && *final(self) == after,
                Err(error) => status == Err::<SubscriptionStatus, SubscriptionError>(error)
                    && *final(self) == *old(self),
            },
    {
        if self.status == SubscriptionStatus::Active && now > self.end_date {
            let grace_period_end: u64 = match end_of_period(self.end_date, grace_period_days) {
                Some(end) => end,
                None => {
                    return Err(SubscriptionError::Overflow);
                },
            };
            if now <= grace_period_end {
                self.status = SubscriptionStatus::GracePeriod;
            } else {
                self.status = SubscriptionStatus::Expired;
                self.auto_renew = false;
            }
        }
        Ok(self.status)
    }
}

/// What a change of plan costs: the prorated amount, and what is charged or
/// refunded for it.
#[derive(Clone, Copy, Debug, PartialEq, Eq, Structural)]
pub struct PlanChange {
    /// The new plan's price for the time left less what is left of the old
    /// plan.
    pub prorated_amount: i128,
    /// The full price of the new plan where the prorated amount is
    /// positive, else nothing.
    pub charge: i128,
    /// The opposite of the prorated amount where it is negative, else
    /// nothing.
    pub refund: i128,
}

/// The charge and the refund that go with a prorated amount.
pub open spec fn plan_change(prorated_amount: int, new_price: i128) -> PlanChange {
    PlanChange {
        prorated_amount: prorated_amount as i128,
        charge: if prorated_amount > 0 {
            new_price
        } else {
            0
        },
        refund: if prorated_amount < 0 {
            (-prorated_amount) as i128
        } else {
            0
        },
    }
}

/// `member` is in `members` at `index` and nowhere before.
pub open spec fn first_at(members: Seq<Address>, member: Address, index: int) -> bool {
    &&& 0 <= index < members.len()
    &&& members[index] == member
    &&& forall|j: int| 0 <= j < index ==> members[j] != member
}

/// Where `member` first occurs among `members`, if it does.
pub fn position(members: &Vec<Address>, member: Address) -> (found: Option<usize>)
    ensures
        match found {
            Some(index) => first_at(members@, member, index as int),
            None => !members@.contains(member),
        },
{
    let mut i: usize = 0;
    while i < members.len()
        invariant
            i <= members.len(),
            forall|j: int| 0 <= j < i ==> members@[j] != member,
        decreases members.len() - i,
    {
        if members[i].id == member.id {
            return Some(i);
        }
        i += 1;
    }
    None
}

impl UserSubscription {
    /// Moves an active subscription to `new_plan` at `now`, and returns what
    /// the change costs.
    pub fn change_plan(
        &mut self,
        old_plan: &SubscriptionPlan,
        new_plan: &SubscriptionPlan,
        now: u64,
    ) -> (cost: Result<PlanChange, SubscriptionError>)
        ensures
            match old(self).changed(*old_plan, *new_plan, now) {
                Ok(after) => cost == Ok::<PlanChange, SubscriptionError>(
                    plan_change(
                        plan_change_amount(
                            old_plan.price as int,
                            new_plan.price as int,
                            new_plan.duration_days as int,
                            *old(self),
                            now,
                        ),
                        new_plan.price,
                    ),
                ) && *final(self) == after,
                Err(error) => cost == Err::<PlanChange, SubscriptionError>(error) && *final(self)
                    == *old(self),
            },
    {
        if self.status != SubscriptionStatus::Active {
            return Err(SubscriptionError::NotActive);
        }
        if !new_plan.is_active {
            return Err(SubscriptionError::PlanNotActive);
        }
        let prorated_amount: i128 = if now >= self.end_date {
            new_plan.price
        } else if self.start_date > self.end_date {
            return Err(SubscriptionError::Overflow);
        } else if self.start_date == self.end_date {
            new_plan.price
        } else {
            let total_duration: u64 = self.end_date - self.start_date;
            let remaining_duration: u64 = self.end_date - now;
            if new_plan.duration_days == 0 {
                return Err(SubscriptionError::Overflow);
            }
            let old_product: i128 = match old_plan.price.checked_mul(remaining_duration as i128) {
                Some(product) => product,
                None => {
                    return Err(SubscriptionError::Overflow);
                },
            };
            let new_product: i128 = match new_plan.price.checked_mul(remaining_duration as i128) {
                Some(product) => product,
                None => {
                    return Err(SubscriptionError::Overflow);
                },
            };
            let new_period: i128 = (new_plan.duration_days as i128) * 86400;
            proof {
                lemma_quotient_fits(old_product as int, total_duration as int);
                lemma_quotient_fits(new_product as int, new_period as int);
            }
            let old_value: i128 = old_product / (total_duration as i128);
            let new_value: i128 = new_product / new_period;
            match new_value.checked_sub(old_value) {
                Some(difference) => difference,
                None => {
                    return Err(SubscriptionError::Overflow);
                },
            }
        };
        if prorated_amount == i128::MIN {
            return Err(SubscriptionError::Overflow);
        }
        let charge: i128 = if prorated_amount > 0 {
            new_plan.price
        } else {
            0
        };
        let refund: i128 = if prorated_amount < 0 {
            -prorated_amount
        } else {
            0
        };
        self.plan_id = new_plan.plan_id;
        Ok(PlanChange { prorated_amount, charge, refund })
    }

    /// Why a member cannot be added, if it cannot.
    pub open spec fn member_refused(self, plan: SubscriptionPlan, member: Address) -> Option<
        SubscriptionError,
    > {
        if self.status != SubscriptionStatus::Active {
            Some(SubscriptionError::NotActive)
        } else if self.family_members@.len() >= plan.max_family_members {
            Some(SubscriptionError::FamilyFull)
        } else if self.family_members@.contains(member) {
            Some(SubscriptionError::MemberAlreadyAdded)
        } else {
            None
        }
    }

    /// Adds `member` to the family of an active subscription whose plan has
    /// room for one more; with a member the subscription is a family plan.
    pub fn add_family_member(&mut self, plan: &SubscriptionPlan, member: Address) -> (done: Result<
        (),
        SubscriptionError,
    >)
        ensures
            match old(self).member_refused(*plan, member) {
                None => {
                    &&& done is Ok
                    &&& final(self).family_members@ == old(self).family_members@.push(member)
                    &&& *final(self) == (UserSubscription {
                        family_members: final(self).family_members,
                        is_family_plan: true,
                        ..*old(self)
                    })
                },
                Some(error) => done == Err::<(), SubscriptionError>(error) && *final(self) == *old(self),
            },
    {
        if self.status != SubscriptionStatus::Active {
            return Err(SubscriptionError::NotActive);
        }
        if self.family_members.len() >= plan.max_family_members as usize {
            return Err(SubscriptionError::FamilyFull);
        }
        if position(&self.family_members, member).is_some() {
            return Err(SubscriptionError::MemberAlreadyAdded);
        }
        self.family_members.push(member);
        self.is_family_plan = true;
        Ok(())
    }

    /// Takes `member` out of the family, where it first occurs; without
    /// members the subscription is no family plan.
    pub fn remove_family_member(&mut self, member: Address) -> (done: Result<(), SubscriptionError>)
        ensures
            match done {
                Ok(()) => exists|index: int|
                    {
                        &&& #[trigger] first_at(old(self).family_members@, member, index)
                        &&& final(self).family_members@ == old(self).family_members@.remove(index)
                        &&& *final(self) == (UserSubscription {
                            family_members: final(self).family_members,
                            is_family_plan: old(self).is_family_plan && old(self).family_members@.len() > 1,
                            ..*old(self)
                        })
                    },
                Err(error) => error == SubscriptionError::MemberNotFound && !old(self).family_members@.contains(member) && *final(self) == *old(self),
            },
    {
        let index: usize = match position(&self.family_members, member) {
            Some(index) => index,
            None => {
                return Err(SubscriptionError::MemberNotFound);
            },
        };
        self.family_members.remove(index);
        if self.family_members.len() == 0 {
            self.is_family_plan = false;
        }
        proof {
            assert(first_at(old(self).family_members@, member, index as int));
        }
        Ok(())
    }
}

} // verus!
