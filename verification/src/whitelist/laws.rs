//! What holds of the whitelist service whatever it is asked to do.
use crate::address::Address;
use crate::whitelist::contract::{Claimant, State};
use vstd::prelude::*;

verus! {

/// Nobody claims twice from one campaign: after a claim that was accepted
/// the claimant is remembered, and every further claim of the same claimant
/// on the same campaign is refused, whatever leaf, amount, proof and time it
/// names.
pub proof fn law_claim_once(
    state: State,
    id: u32,
    claimant: Address,
    leaf: [u8; 32],
    amount: i128,
    proof: Seq<[u8; 32]>,
    now: u64,
    next_leaf: [u8; 32],
    next_amount: i128,
    next_proof: Seq<[u8; 32]>,
    later: u64,
)
    requires
        state.claim(id, claimant, leaf, amount, proof, now) is Ok,
    ensures
        ({
            let after = state.claim(id, claimant, leaf, amount, proof, now)->Ok_0;
            &&& after.has_claimed(Claimant { campaign_id: id, address: claimant })
            &&& after.claim(id, claimant, next_leaf, next_amount, next_proof, later) is Err
        }),
{
    let who = Claimant { campaign_id: id, address: claimant };
    let after = state.claim(id, claimant, leaf, amount, proof, now)->Ok_0;
    assert(after.claimed.last() == who);
}

/// An accepted claim never takes the claimed amount of a campaign above
/// its total, and changes no other campaign.
pub proof fn law_claims_stay_within_the_total(
    state: State,
    id: u32,
    claimant: Address,
    leaf: [u8; 32],
    amount: i128,
    proof: Seq<[u8; 32]>,
    now: u64,
)
    requires
        state.claim(id, claimant, leaf, amount, proof, now) is Ok,
    ensures
        ({
            let after = state.claim(id, claimant, leaf, amount, proof, now)->Ok_0;
            &&& after.campaign(id).claimed_amount <= after.campaign(id).total_amount
            &&& after.campaign(id).claimed_amount == state.campaign(id).claimed_amount + amount
            &&& forall|other: u32|
                other != id && #[trigger] state.has_campaign(other) ==> after.has_campaign(other)
                    && after.campaign(other) == state.campaign(other)
        }),
{
}

/// A refund closes a campaign for good: after it no claim on the campaign
/// is accepted and no second refund is made.
pub proof fn law_refund_is_final(
    state: State,
    id: u32,
    now: u64,
    claimant: Address,
    leaf: [u8; 32],
    amount: i128,
    proof: Seq<[u8; 32]>,
    later: u64,
)
    requires
        state.refund(id, now) is Ok,
    ensures
        ({
            let after = state.refund(id, now)->Ok_0;
            &&& after.claim(id, claimant, leaf, amount, proof, later) is Err
            &&& after.refund(id, later) is Err
        }),
{
}

} // verus!
