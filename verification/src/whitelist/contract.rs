//! The whitelist service: campaigns, who has claimed from them, and who may
//! claim for whom.
use crate::address::Address;
use crate::whitelist::campaign::{is_delegate, Campaign, CampaignError};
use std::collections::HashMap;
use vstd::prelude::*;

verus! {

broadcast use vstd::std_specs::hash::group_hash_axioms;

/// Why an operation of the service was refused. A refused operation changes
/// nothing.
#[derive(Clone, Copy, Debug, PartialEq, Eq, Structural)]
pub enum WhitelistError {
    /// The service was initialized before.
    AlreadyInitialized,
    /// There is no campaign with this id.
    CampaignNotFound,
    /// The lists of ids and roots differ in length.
    MismatchedLengths,
    /// The claimant has named no delegate for this campaign.
    NoDelegation,
    /// The claimant's delegate is somebody else.
    UnauthorizedDelegate,
    /// The count of campaigns cannot grow any further.
    TooManyCampaigns,
    /// The campaign refused.
    Campaign(CampaignError),
}

/// A claimant on a campaign.
#[derive(Clone, Copy, Debug, PartialEq, Eq, Structural)]
pub struct Claimant {
    pub campaign_id: u32,
    pub address: Address,
}

/// A claimant's choice of a delegate for a campaign.
#[derive(Clone, Copy, Debug, PartialEq, Eq, Structural)]
pub struct Delegation {
    pub delegator: Claimant,
    pub delegatee: Address,
}

/// A payment that the caller is to make from the service's holdings.
#[derive(Clone, Copy, Debug, PartialEq, Eq, Structural)]
pub struct Payment {
    pub token: Address,
    pub recipient: Address,
    pub amount: i128,
}

/// The delegate that `delegator` chose last, if it chose any.
pub open spec fn delegate_of(delegations: Seq<Delegation>, delegator: Claimant) -> Option<Address>
    decreases delegations.len(),
{
    if delegations.len() == 0 {
        None
    } else if delegations.last().delegator == delegator {
        Some(delegations.last().delegatee)
    } else {
        delegate_of(delegations.drop_last(), delegator)
    }
}

/// Everything the service remembers.
#[verifier::ext_equal]
pub struct State {
    /// `None` until the service is initialized.
    pub admin: Option<Address>,
    /// The campaigns by their ids.
    pub campaigns: Map<u32, Campaign>,
    /// How many campaigns were created since the service was initialized.
    pub campaign_count: u32,
    /// Who has claimed, in the order of the claims.
    pub claimed: Seq<Claimant>,
    /// The choices of delegates, in the order they were made.
    pub delegations: Seq<Delegation>,
}

impl State {
    /// The state of a service that was never used.
    pub open spec fn empty() -> State {
        State {
            admin: None,
            campaigns: Map::empty(),
            campaign_count: 0,
            claimed: Seq::empty(),
            delegations: Seq::empty(),
        }
    }

    /// Whether a campaign is kept under this id.
    pub open spec fn has_campaign(self, id: u32) -> bool {
        self.campaigns.contains_key(id)
    }

    /// The campaign kept under this id.
    pub open spec fn campaign(self, id: u32) -> Campaign
        recommends
            self.has_campaign(id),
    {
        self.campaigns[id]
    }

    /// Whether the claimant has claimed from its campaign.
    pub open spec fn has_claimed(self, claimant: Claimant) -> bool {
        self.claimed.contains(claimant)
    }

    /// The state after the service is initialized, which happens once.
    pub open spec fn init(self, admin: Address) -> Result<State, WhitelistError> {
        if self.admin is Some {
            Err(WhitelistError::AlreadyInitialized)
        } else {
            Ok(State { admin: Some(admin), campaign_count: 0, ..self })
        }
    }

    /// The state after a campaign is created under the next id.
    pub open spec fn create_campaign(
        self,
        admin: Address,
        token: Address,
        root: [u8; 32],
        deadline: u64,
        total_amount: i128,
    ) -> Result<State, WhitelistError> {
        if self.campaign_count == u32::MAX {
            Err(WhitelistError::TooManyCampaigns)
        } else {
            Ok(
                State {
                    campaign_count: (self.campaign_count + 1) as u32,
                    campaigns: self.campaigns.insert(
                        (self.campaign_count + 1) as u32,
                        Campaign {
                            admin,
                            token,
                            root,
                            total_amount,
                            claimed_amount: 0,
                            deadline,
                            is_active: true,
                            refunded: false,
                        },
                    ),
                    ..self
                },
            )
        }
    }

    /// The state after the root of one campaign is replaced.
    pub open spec fn update_root(self, id: u32, new_root: [u8; 32]) -> Result<
        State,
        WhitelistError,
    > {
        if !self.has_campaign(id) {
            Err(WhitelistError::CampaignNotFound)
        } else {
            Ok(
                State {
                    campaigns: self.campaigns.insert(
                        id,
                        Campaign { root: new_root, ..self.campaign(id) },
                    ),
                    ..self
                },
            )
        }
    }

    /// The state after the roots of the listed campaigns are replaced one
    /// after the other.
    pub open spec fn update_roots(self, ids: Seq<u32>, roots: Seq<[u8; 32]>) -> Result<
        State,
        WhitelistError,
    >
        decreases ids.len(),
    {
        if ids.len() != roots.len() {
            Err(WhitelistError::MismatchedLengths)
        } else if ids.len() == 0 {
            Ok(self)
        } else {
            match self.update_roots(ids.drop_last(), roots.drop_last()) {
                Ok(before) => before.update_root(ids.last(), roots.last()),
                Err(error) => Err(error),
            }
        }
    }

    /// The state once `delegator` has chosen `delegatee` for a campaign.
    pub open spec fn delegate_claim(self, id: u32, delegator: Address, delegatee: Address) -> State {
        State {
            delegations: self.delegations.push(
                Delegation { delegator: Claimant { campaign_id: id, address: delegator }, delegatee },
            ),
            ..self
        }
    }

    /// The state after a claim, or the reason why the claim is refused.
    pub open spec fn claim(
        self,
        id: u32,
        claimant: Address,
        leaf: [u8; 32],
        amount: i128,
        proof: Seq<[u8; 32]>,
        now: u64,
    ) -> Result<State, WhitelistError> {
        if !self.has_campaign(id) {
            Err(WhitelistError::CampaignNotFound)
        } else {
            let who = Claimant { campaign_id: id, address: claimant };
            match self.campaign(id).claimed(now, self.has_claimed(who), leaf, amount, proof) {
                Ok(campaign) => Ok(
                    State {
                        campaigns: self.campaigns.insert(id, campaign),
                        claimed: self.claimed.push(who),
                        ..self
                    },
                ),
                Err(error) => Err(WhitelistError::Campaign(error)),
            }
        }
    }

    /// Why `delegatee` may not claim for `delegator`, if it may not.
    pub open spec fn delegate_refused(self, id: u32, delegator: Address, delegatee: Address) -> Option<
        WhitelistError,
    > {
        match delegate_of(self.delegations, Claimant { campaign_id: id, address: delegator }) {
            None => Some(WhitelistError::NoDelegation),
            Some(stored) => if stored == delegatee {
                None
            } else {
                Some(WhitelistError::UnauthorizedDelegate)
            },
        }
    }

    /// The state after a campaign is closed and refunded at `now`.
    pub open spec fn refund(self, id: u32, now: u64) -> Result<State, WhitelistError> {
        if !self.has_campaign(id) {
            Err(WhitelistError::CampaignNotFound)
        } else {
            match self.campaign(id).refunded_at(now) {
                Ok(campaign) => Ok(
                    State { campaigns: self.campaigns.insert(id, campaign), ..self },
                ),
                Err(error) => Err(WhitelistError::Campaign(error)),
            }
        }
    }
}

/// The whitelist service.
pub struct WhitelistContract {
    admin: Option<Address>,
    campaigns: HashMap<u32, Campaign>,
    campaign_count: u32,
    claimed: Vec<Claimant>,
    delegations: Vec<Delegation>,
}

impl View for WhitelistContract {
    type V = State;

    closed spec fn view(&self) -> State {
        State {
            admin: self.admin,
            campaigns: self.campaigns@,
            campaign_count: self.campaign_count,
            claimed: self.claimed@,
            delegations: self.delegations@,
        }
    }
}

impl WhitelistContract {
    /// A service that holds nothing and is not initialized.
    pub fn new() -> (contract: WhitelistContract)
        ensures
            contract@ == State::empty(),
    {
        WhitelistContract {
            admin: None,
            campaigns: HashMap::new(),
            campaign_count: 0,
            claimed: Vec::new(),
            delegations: Vec::new(),
        }
    }

    /// Initializes the service, once, and starts the count of campaigns at
    /// zero.
    pub fn init(&mut self, admin: Address) -> (done: Result<(), WhitelistError>)
        ensures
            match old(self)@.init(admin) {
                Ok(after) => done is Ok && final(self)@ == after,
                Err(error) => done == Err::<(), WhitelistError>(error) && final(self)@ == old(self)@,
            },
    {
        if self.admin.is_some() {
            return Err(WhitelistError::AlreadyInitialized);
        }
        self.admin = Some(admin);
        self.campaign_count = 0;
        Ok(())
    }

    /// Creates a campaign over `total_amount` of `token` and returns its
    /// id: one more than the count of campaigns before. The caller is to take
    /// the total from the admin.
    pub fn create_campaign(
        &mut self,
        admin: Address,
        token: Address,
        root: [u8; 32],
        deadline: u64,
        total_amount: i128,
    ) -> (id: Result<u32, WhitelistError>)
        ensures
            match old(self)@.create_campaign(admin, token, root, deadline, total_amount) {
                Ok(after) => id == Ok::<u32, WhitelistError>(
                    (old(self)@.campaign_count + 1) as u32,
                ) && final(self)@ == after,
                Err(error) => id == Err::<u32, WhitelistError>(error) && final(self)@ == old(self)@,
            },
    {
        if self.campaign_count == u32::MAX {
            return Err(WhitelistError::TooManyCampaigns);
        }
        let id: u32 = self.campaign_count + 1;
        self.campaigns.insert(id, Campaign::create(admin, token, root, deadline, total_amount));
        self.campaign_count = id;
        Ok(id)
    }

    /// Replaces the root of a campaign's whitelist.
    pub fn update_root(&mut self, campaign_id: u32, new_root: [u8; 32]) -> (done: Result<
        (),
        WhitelistError,
    >)
        ensures
            match old(self)@.update_root(campaign_id, new_root) {
                Ok(after) => done is Ok && final(self)@ == after,
                Err(error) => done == Err::<(), WhitelistError>(error) && final(self)@ == old(self)@,
            },
    {
        let mut campaign: Campaign = match self.campaigns.get(&campaign_id) {
            Some(campaign) => *campaign,
            None => {
                return Err(WhitelistError::CampaignNotFound);
            },
        };
        campaign.update_root(new_root);
        self.campaigns.insert(campaign_id, campaign);
        Ok(())
    }

    /// Replaces the roots of several campaigns, the `i`-th root going to the
    /// `i`-th id. Where an id names no campaign nothing is changed.
    pub fn batch_update_roots(&mut self, campaign_ids: Vec<u32>, new_roots: Vec<[u8; 32]>) -> (done:
        Result<(), WhitelistError>)
        ensures
            match old(self)@.update_roots(campaign_ids@, new_roots@) {
                Ok(after) => done is Ok && final(self)@ == after,
                Err(error) => done == Err::<(), WhitelistError>(error) && final(self)@ == old(self)@,
            },
    {
        if campaign_ids.len() != new_roots.len() {
            return Err(WhitelistError::MismatchedLengths);
        }
        let mut k: usize = 0;
        while k < campaign_ids.len()
            invariant
                k <= campaign_ids.len(),
                campaign_ids.len() == new_roots.len(),
                forall|j: int| 0 <= j < k ==> self@.has_campaign(#[trigger] campaign_ids@[j]),
            decreases campaign_ids.len() - k,
        {
            if self.campaigns.get(&campaign_ids[k]).is_none() {
                proof {
                    let ids = campaign_ids@.take(k + 1);
                    let roots = new_roots@.take(k + 1);
                    assert(ids.drop_last() =~= campaign_ids@.take(k as int));
                    assert(roots.drop_last() =~= new_roots@.take(k as int));
                    lemma_update_roots_succeeds(self@, ids.drop_last(), roots.drop_last());
                    lemma_update_roots_fails(self@, campaign_ids@, new_roots@, k + 1);
                }
                return Err(WhitelistError::CampaignNotFound);
            }
            k += 1;
        }
        let mut i: usize = 0;
        while i < campaign_ids.len()
            invariant
                i <= campaign_ids.len(),
                campaign_ids.len() == new_roots.len(),
                forall|j: int|
                    0 <= j < campaign_ids.len() ==> self@.has_campaign(#[trigger] campaign_ids@[j]),
                old(self)@.update_roots(campaign_ids@.take(i as int), new_roots@.take(i as int))
                    == Ok::<State, WhitelistError>(self@),
            decreases campaign_ids.len() - i,
        {
            proof {
                assert(campaign_ids@.take(i + 1).drop_last() =~= campaign_ids@.take(i as int));
                assert(new_roots@.take(i + 1).drop_last() =~= new_roots@.take(i as int));
            }
            match self.update_root(campaign_ids[i], new_roots[i]) {
                Ok(()) => {},
                Err(error) => {
                    return Err(error);
                },
            }
            i += 1;
        }
        proof {
            assert(campaign_ids@.take(i as int) =~= campaign_ids@);
            assert(new_roots@.take(i as int) =~= new_roots@);
        }
        Ok(())
    }

    /// Lets `delegatee` claim for `delegator` on a campaign, in place of
    /// any delegate chosen before.
    pub fn delegate_claim(&mut self, campaign_id: u32, delegator: Address, delegatee: Address)
        ensures
            final(self)@ == old(self)@.delegate_claim(campaign_id, delegator, delegatee),
    {
        self.delegations.push(
            Delegation { delegator: Claimant { campaign_id, address: delegator }, delegatee },
        );
    }

    /// The delegate that `delegator` chose for a campaign, if any.
    pub fn get_delegate(&self, campaign_id: u32, delegator: Address) -> (delegatee: Option<Address>)
        ensures
            delegatee == delegate_of(
                self@.delegations,
                Claimant { campaign_id, address: delegator },
            ),
    {
        let mut i: usize = self.delegations.len();
        proof {
            assert(self.delegations@.take(i as int) =~= self.delegations@);
        }
        while i > 0
            invariant
                i <= self.delegations.len(),
                delegate_of(self.delegations@, Claimant { campaign_id, address: delegator })
                    == delegate_of(
                    self.delegations@.take(i as int),
                    Claimant { campaign_id, address: delegator },
                ),
            decreases i,
        {
            proof {
                assert(self.delegations@.take(i as int).drop_last() =~= self.delegations@.take(
                    i - 1,
                ));
            }
            i -= 1;
            let entry = self.delegations[i];
            if entry.delegator.campaign_id == campaign_id && entry.delegator.address.id
                == delegator.id {
                return Some(entry.delegatee);
            }
        }
        proof {
            assert(self.delegations@.take(0) =~= Seq::empty());
        }
        None
    }

    /// Whether `claimant` has claimed from a campaign.
    pub fn has_claimed(&self, campaign_id: u32, claimant: Address) -> (claimed: bool)
        ensures
            claimed == self@.has_claimed(Claimant { campaign_id, address: claimant }),
    {
        let who = Claimant { campaign_id, address: claimant };
        let mut i: usize = 0;
        while i < self.claimed.len()
            invariant
                i <= self.claimed.len(),
                who == (Claimant { campaign_id, address: claimant }),
                forall|j: int| 0 <= j < i ==> self.claimed@[j] != who,
            decreases self.claimed.len() - i,
        {
            let entry = self.claimed[i];
            if entry.campaign_id == campaign_id && entry.address.id == claimant.id {
                return true;
            }
            i += 1;
        }
        false
    }

    /// Claims `amount` from a campaign at time `now`, for a claimant whose
    /// entry in the whitelist hashes to `leaf`, and returns the payment to
    /// make: to `recipient`, or to the claimant where none is named.
    pub fn claim(
        &mut self,
        campaign_id: u32,
        claimant: Address,
        leaf: [u8; 32],
        amount: i128,
        proof: Vec<[u8; 32]>,
        recipient: Option<Address>,
        now: u64,
    ) -> (payment: Result<Payment, WhitelistError>)
        ensures
            match old(self)@.claim(campaign_id, claimant, leaf, amount, proof@, now) {
                Ok(after) => final(self)@ == after && payment == Ok::<Payment, WhitelistError>(
                    Payment {
                        token: old(self)@.campaign(campaign_id).token,
                        recipient: match recipient {
                            Some(recipient) => recipient,
                            None => claimant,
                        },
                        amount,
                    },
                ),
                Err(error) => payment == Err::<Payment, WhitelistError>(error) && final(self)@
                    == old(self)@,
            },
    {
        let mut campaign: Campaign = match self.campaigns.get(&campaign_id) {
            Some(campaign) => *campaign,
            None => {
                return Err(WhitelistError::CampaignNotFound);
            },
        };
        let already_claimed = self.has_claimed(campaign_id, claimant);
        match campaign.claim(now, already_claimed, leaf, amount, proof) {
            Err(error) => {
                return Err(WhitelistError::Campaign(error));
            },
            Ok(()) => {},
        }
        self.campaigns.insert(campaign_id, campaign);
        self.claimed.push(Claimant { campaign_id, address: claimant });
        Ok(
            Payment {
                token: campaign.token,
                recipient: match recipient {
                    Some(recipient) => recipient,
                    None => claimant,
                },
                amount,
            },
        )
    }

    /// Claims for `delegator` on the word of `delegatee`, who must be the
    /// delegate that the delegator chose for this campaign.
    pub fn claim_as_delegate(
        &mut self,
        campaign_id: u32,
        delegator: Address,
        delegatee: Address,
        leaf: [u8; 32],
        amount: i128,
        proof: Vec<[u8; 32]>,
        recipient: Option<Address>,
        now: u64,
    ) -> (payment: Result<Payment, WhitelistError>)
        ensures
            match old(self)@.delegate_refused(campaign_id, delegator, delegatee) {
                Some(error) => payment == Err::<Payment, WhitelistError>(error) && final(self)@
                    == old(self)@,
                None => match old(self)@.claim(campaign_id, delegator, leaf, amount, proof@, now) {
                    Ok(after) => final(self)@ == after && payment == Ok::<Payment, WhitelistError>(
                        Payment {
                            token: old(self)@.campaign(campaign_id).token,
                            recipient: match recipient {
                                Some(recipient) => recipient,
                                None => delegator,
                            },
                            amount,
                        },
                    ),
                    Err(error) => payment == Err::<Payment, WhitelistError>(error) && final(self)@
                        == old(self)@,
                },
            },
    {
        let stored = self.get_delegate(campaign_id, delegator);
        if stored.is_none() {
            return Err(WhitelistError::NoDelegation);
        }
        if !is_delegate(stored, delegatee) {
            return Err(WhitelistError::UnauthorizedDelegate);
        }
        self.claim(campaign_id, delegator, leaf, amount, proof, recipient, now)
    }

    /// Closes a campaign after its deadline and returns the payment that
    /// hands what is left back to its admin.
    pub fn refund(&mut self, campaign_id: u32, now: u64) -> (payment: Result<
        Payment,
        WhitelistError,
    >)
        ensures
            match old(self)@.refund(campaign_id, now) {
                Ok(after) => final(self)@ == after && payment == Ok::<Payment, WhitelistError>(
                    Payment {
                        token: old(self)@.campaign(campaign_id).token,
                        recipient: old(self)@.campaign(campaign_id).admin,
                        amount: if old(self)@.campaign(campaign_id).remaining() > 0 {
                            old(self)@.campaign(campaign_id).remaining() as i128
                        } else {
                            0
                        },
                    },
                ),
                Err(error) => payment == Err::<Payment, WhitelistError>(error) && final(self)@
                    == old(self)@,
            },
    {
        let mut campaign: Campaign = match self.campaigns.get(&campaign_id) {
            Some(campaign) => *campaign,
            None => {
                return Err(WhitelistError::CampaignNotFound);
            },
        };
        let amount: i128 = match campaign.refund(now) {
            Err(error) => {
                return Err(WhitelistError::Campaign(error));
            },
            Ok(amount) => amount,
        };
        self.campaigns.insert(campaign_id, campaign);
        Ok(Payment { token: campaign.token, recipient: campaign.admin, amount })
    }

    /// The campaign with the given id.
    pub fn get_campaign(&self, campaign_id: u32) -> (campaign: Result<Campaign, WhitelistError>)
        ensures
            campaign == if self@.has_campaign(campaign_id) {
                Ok::<Campaign, WhitelistError>(self@.campaign(campaign_id))
            } else {
                Err(WhitelistError::CampaignNotFound)
            },
    {
        match self.campaigns.get(&campaign_id) {
            Some(campaign) => Ok(*campaign),
            None => Err(WhitelistError::CampaignNotFound),
        }
    }
}

/// Updates that name existing campaigns only are accepted, and leave the
/// same campaigns in existence.
proof fn lemma_update_roots_succeeds(state: State, ids: Seq<u32>, roots: Seq<[u8; 32]>)
    requires
        ids.len() == roots.len(),
        forall|j: int| 0 <= j < ids.len() ==> state.has_campaign(#[trigger] ids[j]),
    ensures
        state.update_roots(ids, roots) is Ok,
        state.update_roots(ids, roots)->Ok_0.campaigns.dom() == state.campaigns.dom(),
    decreases ids.len(),
{
    if ids.len() > 0 {
        assert forall|j: int| 0 <= j < ids.drop_last().len() implies state.has_campaign(
            #[trigger] ids.drop_last()[j],
        ) by {
            assert(ids.drop_last()[j] == ids[j]);
        }
        lemma_update_roots_succeeds(state, ids.drop_last(), roots.drop_last());
        let before = state.update_roots(ids.drop_last(), roots.drop_last())->Ok_0;
        assert(state.has_campaign(ids[ids.len() - 1]));
        assert(before.has_campaign(ids.last()));
        let after = before.update_root(ids.last(), roots.last())->Ok_0;
        assert(after.campaigns.dom() =~= before.campaigns.dom());
    }
}

/// Once a prefix of the updates names a campaign that does not exist, the
/// whole list of updates is refused for that reason.
proof fn lemma_update_roots_fails(state: State, ids: Seq<u32>, roots: Seq<[u8; 32]>, upto: int)
    requires
        ids.len() == roots.len(),
        0 < upto <= ids.len(),
        state.update_roots(ids.take(upto), roots.take(upto)) == Err::<State, WhitelistError>(
            WhitelistError::CampaignNotFound,
        ),
    ensures
        state.update_roots(ids, roots) == Err::<State, WhitelistError>(
            WhitelistError::CampaignNotFound,
        ),
    decreases ids.len() - upto,
{
    if upto < ids.len() {
        assert(ids.take(upto + 1).drop_last() =~= ids.take(upto));
        assert(roots.take(upto + 1).drop_last() =~= roots.take(upto));
        lemma_update_roots_fails(state, ids, roots, upto + 1);
    } else {
        assert(ids.take(upto) =~= ids);
        assert(roots.take(upto) =~= roots);
    }
}

} // verus!
