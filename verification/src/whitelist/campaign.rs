//! A campaign hands out a fixed total to the addresses on its list, each
//! once, until its deadline; what is left can be refunded afterwards.
use crate::address::Address;
use crate::whitelist::merkle::{climb, verify};
use vstd::prelude::*;

verus! {

/// Why a campaign operation was refused. A refused operation changes
/// nothing.
#[derive(Clone, Copy, Debug, PartialEq, Eq, Structural)]
pub enum CampaignError {
    /// The campaign is not active.
    Inactive,
    /// The deadline has passed.
    Expired,
    /// The claimant has claimed before.
    AlreadyClaimed,
    /// The proof does not lead from the claim to the campaign's root.
    InvalidProof,
    /// The campaign does not hold enough for the claim.
    InsufficientFunds,
    /// The deadline has not passed yet.
    NotFinished,
    /// The campaign was refunded before.
    AlreadyRefunded,
    /// An amount does not fit in 128 bits.
    Overflow,
}

/// A campaign and how much of it has been claimed.
#[derive(Clone, Copy, Debug, PartialEq, Eq)]
pub struct Campaign {
    pub admin: Address,
    pub token: Address,
    /// The root of the Merkle tree over the whitelisted claims.
    pub root: [u8; 32],
    pub total_amount: i128,
    pub claimed_amount: i128,
    /// The last time at which a claim is accepted.
    pub deadline: u64,
    pub is_active: bool,
    pub refunded: bool,
}

impl Campaign {
    /// The campaign after a claim, or the reason why the claim is refused.
    pub open spec fn claimed(
        self,
        now: u64,
        already_claimed: bool,
        leaf: [u8; 32],
        amount: i128,
        proof: Seq<[u8; 32]>,
    ) -> Result<Campaign, CampaignError> {
        if !self.is_active {
            Err(CampaignError::Inactive)
        } else if now > self.deadline {
            Err(CampaignError::Expired)
        } else if already_claimed {
            Err(CampaignError::AlreadyClaimed)
        } else if climb(leaf@, proof) != self.root@ {
            Err(CampaignError::InvalidProof)
        } else if self.claimed_amount + amount > i128::MAX || self.claimed_amount + amount
            < i128::MIN {
            Err(CampaignError::Overflow)
        } else if self.claimed_amount + amount > self.total_amount {
            Err(CampaignError::InsufficientFunds)
        } else {
            Ok(Campaign { claimed_amount: (self.claimed_amount + amount) as i128, ..self })
        }
    }

    /// What is left of the campaign's total.
    pub open spec fn remaining(self) -> int {
        self.total_amount - self.claimed_amount
    }

    /// The campaign after a refund, or the reason why the refund is refused.
    pub open spec fn refunded_at(self, now: u64) -> Result<Campaign, CampaignError> {
        if now <= self.deadline {
            Err(CampaignError::NotFinished)
        } else if self.refunded {
            Err(CampaignError::AlreadyRefunded)
        } else if self.remaining() > i128::MAX || self.remaining() < i128::MIN {
            Err(CampaignError::Overflow)
        } else {
            Ok(Campaign { refunded: true, is_active: false, ..self })
        }
    }

    /// A new campaign: active, with nothing claimed.
    pub fn create(admin: Address, token: Address, root: [u8; 32], deadline: u64, total_amount: i128) -> (campaign: Campaign)
        ensures
            campaign == (Campaign {
                admin,
                token,
                root,
                total_amount,
                claimed_amount: 0,
                deadline,
                is_active: true,
                refunded: false,
            }),
    {
        Campaign {
            admin,
            token,
            root,
            total_amount,
            claimed_amount: 0,
            deadline,
            is_active: true,
            refunded: false,
        }
    }

    /// Replaces the root of the whitelist.
    pub fn update_root(&mut self, new_root: [u8; 32])
        ensures
            *final(self) == (Campaign { root: new_root, ..*old(self) }),
    {
        self.root = new_root;
    }

    /// Counts a claim of `amount` at time `now`, for a claimant whose entry
    /// in the whitelist hashes to `leaf`. The claim is accepted while the
    /// campaign is active and its deadline has not passed, if the claimant
    /// has not claimed before, the proof leads from `leaf` to the root, and
    /// the campaign's total covers the claim.
    pub fn claim(
        &mut self,
        now: u64,
        already_claimed: bool,
        leaf: [u8; 32],
        amount: i128,
        proof: Vec<[u8; 32]>,
    ) -> (done: Result<(), CampaignError>)
        ensures
            match old(self).claimed(now, already_claimed, leaf, amount, proof@) {
                Ok(after) => done is Ok && *final(self) == after,
                Err(error) => done == Err::<(), CampaignError>(error) && *final(self) == *old(self),
            },
    {
        if !self.is_active {
            return Err(CampaignError::Inactive);
        }
        if now > self.deadline {
            return Err(CampaignError::Expired);
        }
        if already_claimed {
            return Err(CampaignError::AlreadyClaimed);
        }
        if !verify(self.root, leaf, proof) {
            return Err(CampaignError::InvalidProof);
        }
        let claimed_amount: i128 = match self.claimed_amount.checked_add(amount) {
            Some(sum) => sum,
            None => {
                return Err(CampaignError::Overflow);
            },
        };
        if claimed_amount > self.total_amount {
            return Err(CampaignError::InsufficientFunds);
        }
        self.claimed_amount = claimed_amount;
        Ok(())
    }

    /// Closes the campaign after its deadline and returns the amount to
    /// hand back to the admin: what is left of the total, or nothing where
    /// more was claimed than the total.
    pub fn refund(&mut self, now: u64) -> (amount: Result<i128, CampaignError>)
        ensures
            match old(self).refunded_at(now) {
                Ok(after) => *final(self) == after && amount == Ok::<i128, CampaignError>(
                    if old(self).remaining() > 0 {
                        old(self).remaining() as i128
                    } else {
                        0
                    },
                ),
                Err(error) => amount == Err::<i128, CampaignError>(error) && *final(self) == *old(self),
            },
    {
        if now <= self.deadline {
            return Err(CampaignError::NotFinished);
        }
        if self.refunded {
            return Err(CampaignError::AlreadyRefunded);
        }
        let remaining: i128 = match self.total_amount.checked_sub(self.claimed_amount) {
            Some(remaining) => remaining,
            None => {
                return Err(CampaignError::Overflow);
            },
        };
        self.refunded = true;
        self.is_active = false;
        if remaining > 0 {
            Ok(remaining)
        } else {
            Ok(0)
        }
    }
}

/// Whether `delegatee` may claim for a delegator whose stored delegate is
/// `stored`.
pub fn is_delegate(stored: Option<Address>, delegatee: Address) -> (valid: bool)
    ensures
        valid == (stored == Some(delegatee)),
{
    match stored {
        Some(stored) => stored.id == delegatee.id,
        None => false,
    }
}

} // verus!
