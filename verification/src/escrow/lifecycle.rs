//! The steps that an escrow, a milestone, a dispute and a referral code can
//! take, each on its own record.
use crate::address::Address;
use crate::escrow::shares::{share_of, Distribution};
use crate::escrow::storage_types::{
    Dispute,
    DisputeStatus,
    Escrow,
    EscrowError,
    EscrowStatus,
    Milestone,
    MilestoneStatus,
    Referral,
    RevenueSplit,
    Settings,
    TokenType,
    BASIS_POINTS,
};
use crate::subscription::lifecycle::lemma_quotient_fits;
use vstd::prelude::*;

verus! {

/// Whether the three parts of `amount` under `split` fit in 128 bits.
pub open spec fn shares_fit(amount: int, split: RevenueSplit) -> bool {
    &&& i128::MIN <= amount * split.platform_fee_bps <= i128::MAX
    &&& i128::MIN <= amount * split.referral_reward_bps <= i128::MAX
    &&& i128::MIN <= amount - share_of(amount, split.platform_fee_bps as int) <= i128::MAX
    &&& i128::MIN <= amount - share_of(amount, split.platform_fee_bps as int) - share_of(
        amount,
        split.referral_reward_bps as int,
    ) <= i128::MAX
}

/// The three parts of `amount` under `split`: the platform's fee and the
/// referral reward by their basis points, the rest to the organizer.
pub open spec fn shares(amount: int, split: RevenueSplit) -> Distribution {
    let platform_fee = share_of(amount, split.platform_fee_bps as int);
    let referral_reward = share_of(amount, split.referral_reward_bps as int);
    Distribution {
        platform_fee: platform_fee as i128,
        referral_reward: referral_reward as i128,
        organizer_share: (amount - platform_fee - referral_reward) as i128,
    }
}

/// The three parts make up the amount: nothing is lost and nothing is
/// made in sharing it out.
pub proof fn law_shares_add_up(amount: int, split: RevenueSplit)
    requires
        shares_fit(amount, split),
    ensures
        shares(amount, split).platform_fee + shares(amount, split).referral_reward + shares(
            amount,
            split,
        ).organizer_share == amount,
{
    lemma_quotient_fits(amount * split.platform_fee_bps, 10000);
    lemma_quotient_fits(amount * split.referral_reward_bps, 10000);
}

/// `bps` basis points of `amount`, if the product fits in 128 bits.
pub fn checked_share(amount: i128, bps: u32) -> (share: Option<i128>)
    ensures
        share == if i128::MIN <= amount * bps <= i128::MAX {
            Some(share_of(amount as int, bps as int) as i128)
        } else {
            None
        },
{
    match amount.checked_mul(bps as i128) {
        Some(product) => {
            proof {
                lemma_quotient_fits(product as int, 10000);
            }
            Some(product / (BASIS_POINTS as i128))
        },
        None => None,
    }
}

/// Splits `amount` in three, or reports that a part does not fit.
pub fn split_amount(amount: i128, revenue_split: &RevenueSplit) -> (parts: Result<
    Distribution,
    EscrowError,
>)
    ensures
        parts == if shares_fit(amount as int, *revenue_split) {
            Ok::<Distribution, EscrowError>(shares(amount as int, *revenue_split))
        } else {
            Err(EscrowError::ArithmeticError)
        },
{
    let platform_fee: i128 = match checked_share(amount, revenue_split.platform_fee_bps) {
        Some(share) => share,
        None => {
            return Err(EscrowError::ArithmeticError);
        },
    };
    let referral_reward: i128 = match checked_share(amount, revenue_split.referral_reward_bps) {
        Some(share) => share,
        None => {
            return Err(EscrowError::ArithmeticError);
        },
    };
    let after_fee: i128 = match amount.checked_sub(platform_fee) {
        Some(rest) => rest,
        None => {
            return Err(EscrowError::ArithmeticError);
        },
    };
    let organizer_share: i128 = match after_fee.checked_sub(referral_reward) {
        Some(rest) => rest,
        None => {
            return Err(EscrowError::ArithmeticError);
        },
    };
    Ok(Distribution { platform_fee, referral_reward, organizer_share })
}

/// Why a service with these settings takes no orders, if it takes none: it
/// is not initialized, or it is paused.
pub open spec fn closed(settings: Option<Settings>) -> Option<EscrowError> {
    match settings {
        None => Some(EscrowError::NotInitialized),
        Some(settings) => if settings.paused {
            Some(EscrowError::ContractPaused)
        } else {
            None
        },
    }
}

/// The settings of a service that takes orders.
pub fn check_open(settings: Option<Settings>) -> (open: Result<Settings, EscrowError>)
    ensures
        match closed(settings) {
            Some(error) => open == Err::<Settings, EscrowError>(error),
            None => open == Ok::<Settings, EscrowError>(settings->Some_0),
        },
{
    match settings {
        None => Err(EscrowError::NotInitialized),
        Some(settings) => if settings.paused {
            Err(EscrowError::ContractPaused)
        } else {
            Ok(settings)
        },
    }
}

/// Accepts a share of at most the whole.
pub fn check_bps(bps: u32) -> (verdict: Result<(), EscrowError>)
    ensures
        verdict == if bps > BASIS_POINTS {
            Err::<(), EscrowError>(EscrowError::InvalidRevenueSplit)
        } else {
            Ok(())
        },
{
    if bps > BASIS_POINTS {
        Err(EscrowError::InvalidRevenueSplit)
    } else {
        Ok(())
    }
}

impl Escrow {
    /// A new escrow, created at `now` and not funded yet.
    pub fn open(
        id: u64,
        token_type: TokenType,
        amount: i128,
        payer: Address,
        payee: Address,
        release_time: u64,
        revenue_split: RevenueSplit,
        description: String,
        metadata: String,
        is_multi_day_event: bool,
        total_milestones: u32,
        now: u64,
    ) -> (escrow: Escrow)
        ensures
            escrow == (Escrow {
                id,
                token_type,
                amount,
                payer,
                payee,
                status: EscrowStatus::Created,
                created_at: now,
                release_time,
                revenue_split,
                description,
                metadata,
                total_milestones,
                completed_milestones: 0,
                is_multi_day_event,
            }),
    {
        Escrow {
            id,
            token_type,
            amount,
            payer,
            payee,
            status: EscrowStatus::Created,
            created_at: now,
            release_time,
            revenue_split,
            description,
            metadata,
            total_milestones,
            completed_milestones: 0,
            is_multi_day_event,
        }
    }

    /// Accepts an escrow in the status `expected`.
    pub fn check_status(&self, expected: EscrowStatus) -> (verdict: Result<(), EscrowError>)
        ensures
            verdict == if self.status == expected {
                Ok::<(), EscrowError>(())
            } else {
                Err(EscrowError::InvalidStatus)
            },
    {
        if self.status == expected {
            Ok(())
        } else {
            Err(EscrowError::InvalidStatus)
        }
    }

    /// Moves an escrow from the status `from` to the status `to`.
    pub fn step(&mut self, from: EscrowStatus, to: EscrowStatus) -> (done: Result<(), EscrowError>)
        ensures
            if old(self).status == from {
                done is Ok && *final(self) == (Escrow { status: to, ..*old(self) })
            } else {
                done == Err::<(), EscrowError>(EscrowError::InvalidStatus) && *final(self) == *old(self)
            },
    {
        if self.status == from {
            self.status = to;
            Ok(())
        } else {
            Err(EscrowError::InvalidStatus)
        }
    }

    /// Accepts a release at or after the release time.
    pub fn check_release_time(&self, now: u64) -> (verdict: Result<(), EscrowError>)
        ensures
            verdict == if now < self.release_time {
                Err::<(), EscrowError>(EscrowError::TimeNotReached)
            } else {
                Ok(())
            },
    {
        if now < self.release_time {
            Err(EscrowError::TimeNotReached)
        } else {
            Ok(())
        }
    }

    /// Accepts the payer and the payee of the escrow.
    pub fn check_party(&self, caller: Address) -> (verdict: Result<(), EscrowError>)
        ensures
            verdict == if caller != self.payer && caller != self.payee {
                Err::<(), EscrowError>(EscrowError::NotAuthorized)
            } else {
                Ok(())
            },
    {
        if caller.id != self.payer.id && caller.id != self.payee.id {
            Err(EscrowError::NotAuthorized)
        } else {
            Ok(())
        }
    }

    /// Puts a funded or disputed escrow in dispute.
    pub fn open_dispute(&mut self) -> (done: Result<(), EscrowError>)
        ensures
            if old(self).status == EscrowStatus::Funded || old(self).status
                == EscrowStatus::InDispute {
                done is Ok && *final(self) == (Escrow {
                    status: EscrowStatus::InDispute,
                    ..*old(self)
                })
            } else {
                done == Err::<(), EscrowError>(EscrowError::InvalidStatus) && *final(self) == *old(self)
            },
    {
        if self.status == EscrowStatus::Funded || self.status == EscrowStatus::InDispute {
            self.status = EscrowStatus::InDispute;
            Ok(())
        } else {
            Err(EscrowError::InvalidStatus)
        }
    }

    /// Counts one more completed milestone.
    pub fn count_milestone(&mut self) -> (done: Result<(), EscrowError>)
        ensures
            if old(self).completed_milestones == u32::MAX {
                done == Err::<(), EscrowError>(EscrowError::ArithmeticError) && *final(self)
                    == *old(self)
            } else {
                done is Ok && *final(self) == (Escrow {
                    completed_milestones: (old(self).completed_milestones + 1) as u32,
                    ..*old(self)
                })
            },
    {
        if self.completed_milestones == u32::MAX {
            Err(EscrowError::ArithmeticError)
        } else {
            self.completed_milestones = self.completed_milestones + 1;
            Ok(())
        }
    }
}

impl Milestone {
    /// Accepts a milestone in the status `expected`.
    pub fn check_status(&self, expected: MilestoneStatus) -> (verdict: Result<(), EscrowError>)
        ensures
            verdict == if self.status == expected {
                Ok::<(), EscrowError>(())
            } else {
                Err(EscrowError::InvalidStatus)
            },
    {
        if self.status == expected {
            Ok(())
        } else {
            Err(EscrowError::InvalidStatus)
        }
    }

    /// Marks a pending milestone as completed at `now`.
    pub fn complete(&mut self, now: u64) -> (done: Result<(), EscrowError>)
        ensures
            if old(self).status == MilestoneStatus::Pending {
                done is Ok && *final(self) == (Milestone {
                    status: MilestoneStatus::Completed,
                    completed_at: Some(now),
                    ..*old(self)
                })
            } else {
                done == Err::<(), EscrowError>(EscrowError::InvalidStatus) && *final(self) == *old(self)
            },
    {
        if self.status == MilestoneStatus::Pending {
            self.status = MilestoneStatus::Completed;
            self.completed_at = Some(now);
            Ok(())
        } else {
            Err(EscrowError::InvalidStatus)
        }
    }

    /// Marks a completed milestone as released at `now`.
    pub fn release(&mut self, now: u64) -> (done: Result<(), EscrowError>)
        ensures
            if old(self).status == MilestoneStatus::Completed {
                done is Ok && *final(self) == (Milestone {
                    status: MilestoneStatus::Released,
                    released_at: Some(now),
                    ..*old(self)
                })
            } else {
                done == Err::<(), EscrowError>(EscrowError::InvalidStatus) && *final(self) == *old(self)
            },
    {
        if self.status == MilestoneStatus::Completed {
            self.status = MilestoneStatus::Released;
            self.released_at = Some(now);
            Ok(())
        } else {
            Err(EscrowError::InvalidStatus)
        }
    }
}

impl Dispute {
    /// A new dispute over an escrow, raised at `now` and open.
    pub fn open(id: u64, escrow_id: u64, raiser: Address, reason: String, evidence: String, now: u64) -> (dispute:
        Dispute)
        ensures
            dispute == (Dispute {
                id,
                escrow_id,
                raiser,
                resolver: None,
                status: DisputeStatus::Open,
                reason,
                evidence,
                raised_at: now,
                resolved_at: None,
                resolution_notes: None,
            }),
    {
        Dispute {
            id,
            escrow_id,
            raiser,
            resolver: None,
            status: DisputeStatus::Open,
            reason,
            evidence,
            raised_at: now,
            resolved_at: None,
            resolution_notes: None,
        }
    }

    /// The dispute once it is resolved.
    pub open spec fn resolved(
        self,
        resolver: Address,
        resolution_notes: String,
        refund_to_payer: bool,
        now: u64,
    ) -> Dispute {
        Dispute {
            status: if refund_to_payer {
                DisputeStatus::Resolved
            } else {
                DisputeStatus::Rejected
            },
            resolver: Some(resolver),
            resolved_at: Some(now),
            resolution_notes: Some(resolution_notes),
            ..self
        }
    }

    /// Accepts a dispute that is open.
    pub fn check_open(&self) -> (verdict: Result<(), EscrowError>)
        ensures
            verdict == if self.status == DisputeStatus::Open {
                Ok::<(), EscrowError>(())
            } else {
                Err(EscrowError::InvalidStatus)
            },
    {
        if self.status == DisputeStatus::Open {
            Ok(())
        } else {
            Err(EscrowError::InvalidStatus)
        }
    }

    /// Closes the dispute at `now`: resolved where the payer is refunded,
    /// rejected where not, with the resolver and the notes.
    pub fn resolve(&mut self, resolver: Address, resolution_notes: String, refund_to_payer: bool, now: u64)
        ensures
            *final(self) == old(self).resolved(resolver, resolution_notes, refund_to_payer, now),
    {
        self.status = if refund_to_payer {
            DisputeStatus::Resolved
        } else {
            DisputeStatus::Rejected
        };
        self.resolver = Some(resolver);
        self.resolved_at = Some(now);
        self.resolution_notes = Some(resolution_notes);
    }
}

impl Referral {
    /// A new referral code of `creator`, made at `now`: active, with no
    /// earnings.
    pub fn create(code: String, creator: Address, now: u64) -> (referral: Referral)
        ensures
            referral == (Referral {
                code,
                creator,
                total_earnings: 0,
                total_referrals: 0,
                created_at: now,
                is_active: true,
            }),
    {
        Referral {
            code,
            creator,
            total_earnings: 0,
            total_referrals: 0,
            created_at: now,
            is_active: true,
        }
    }

    /// Whether the code can be credited with `reward`.
    pub open spec fn credit_fits(self, reward: int) -> bool {
        i128::MIN <= self.total_earnings + reward <= i128::MAX && self.total_referrals < u32::MAX
    }

    /// The code after it is credited with `reward`.
    pub open spec fn credited(self, reward: int) -> Referral {
        Referral {
            total_earnings: (self.total_earnings + reward) as i128,
            total_referrals: (self.total_referrals + 1) as u32,
            ..self
        }
    }

    /// Credits the code with `reward` and counts one referral more.
    pub fn credit(&mut self, reward: i128) -> (done: Result<(), EscrowError>)
        ensures
            if old(self).credit_fits(reward as int) {
                done is Ok && *final(self) == old(self).credited(reward as int)
            } else {
                done == Err::<(), EscrowError>(EscrowError::ArithmeticError) && *final(self)
                    == *old(self)
            },
    {
        let total_earnings: i128 = match self.total_earnings.checked_add(reward) {
            Some(sum) => sum,
            None => {
                return Err(EscrowError::ArithmeticError);
            },
        };
        if self.total_referrals == u32::MAX {
            return Err(EscrowError::ArithmeticError);
        }
        self.total_earnings = total_earnings;
        self.total_referrals = self.total_referrals + 1;
        Ok(())
    }
}

} // verus!
