//! The governance engine: the state behind a keyed store of its own, and the
//! operations on it.
use crate::address::Address;
use crate::governance::ballots::{
    amount_cast,
    balances_non_negative,
    copy_ballots,
    find_record,
    power_added,
    Ballot,
    Claim,
};
use crate::governance::lifecycle::{authorize_admin, authorize_emergency, delegatees_valid};
use crate::governance::model::{claims_valid, Config, State};
use crate::governance::power::{floor_sqrt, isqrt};
use crate::governance::storage::{
    CategorySettings,
    GovernanceAction,
    GovernanceError,
    Proposal,
    ProposalCategory,
    VoteRecord,
};
use std::collections::HashMap;
use vstd::prelude::*;

verus! {

broadcast use vstd::std_specs::hash::group_hash_axioms;

/// The governance engine.
pub struct GovernanceContract {
    config: Option<Config>,
    settings: HashMap<u32, CategorySettings>,
    proposals: Vec<Proposal>,
    ballots: Vec<Vec<Ballot>>,
    delegations: HashMap<u64, Address>,
}

impl View for GovernanceContract {
    type V = State;

    closed spec fn view(&self) -> State {
        State {
            config: self.config,
            settings: self.settings@,
            proposals: self.proposals@,
            ballots: Seq::new(self.ballots@.len(), |i: int| self.ballots@[i]@),
            delegations: self.delegations@,
        }
    }
}

impl GovernanceContract {
    /// The engine's state satisfies the invariant of the model.
    pub open spec fn wf(&self) -> bool {
        self@.inv()
    }

    /// An engine that holds nothing and is not initialized.
    pub fn new() -> (contract: GovernanceContract)
        ensures
            contract.wf(),
            contract@ == State::empty(),
    {
        let contract = GovernanceContract {
            config: None,
            settings: HashMap::new(),
            proposals: Vec::new(),
            ballots: Vec::new(),
            delegations: HashMap::new(),
        };
        proof {
            assert(contract@.ballots =~= Seq::empty());
            assert(contract@ =~= State::empty());
        }
        contract
    }

    /// Initializes the engine, once: records the configuration and gives the
    /// four categories their default rules.
    pub fn init(
        &mut self,
        admin: Address,
        token: Address,
        timelock_duration: u64,
        emergency_address: Address,
    ) -> (done: Result<(), GovernanceError>)
        requires
            old(self).wf(),
        ensures
            final(self).wf(),
            match old(self)@.init(admin, token, timelock_duration, emergency_address) {
                Ok(after) => done is Ok && final(self)@ == after,
                Err(error) => done == Err::<(), GovernanceError>(error) && final(self)@ == old(self)@,
            },
    {
        if self.config.is_some() {
            return Err(GovernanceError::AlreadyInitialized);
        }
        self.config = Some(Config { admin, token, timelock_duration, emergency_address });
        self.settings.insert(0, ProposalCategory::ProtocolUpgrade.default_settings());
        self.settings.insert(1, ProposalCategory::FeeAdjustment.default_settings());
        self.settings.insert(2, ProposalCategory::ParameterUpdate.default_settings());
        self.settings.insert(3, ProposalCategory::Emergency.default_settings());
        proof {
            let after = old(self)@.init(admin, token, timelock_duration, emergency_address)->Ok_0;
            assert(self@.ballots =~= after.ballots);
            assert(self@ =~= after);
        }
        Ok(())
    }

    /// Sets the rules of a category, for the admin and nobody else. They
    /// apply to every proposal of the category that is created or queued from
    /// now on. Any other caller, and every caller before the engine is
    /// initialized, is refused as `Unauthorized`.
    pub fn set_category_settings(
        &mut self,
        caller: Address,
        category_id: u32,
        quorum: i128,
        threshold: u32,
        period: u32,
    ) -> (done: Result<(), GovernanceError>)
        requires
            old(self).wf(),
        ensures
            final(self).wf(),
            match old(self)@.set_category_settings(
                caller,
                category_id,
                CategorySettings { quorum, threshold, voting_period: period },
            ) {
                Ok(after) => done is Ok && final(self)@ == after,
                Err(error) => done == Err::<(), GovernanceError>(error) && final(self)@ == old(self)@,
            },
    {
        let admin: Address = match self.config {
            Some(config) => config.admin,
            None => {
                return Err(GovernanceError::Unauthorized);
            },
        };
        match authorize_admin(admin, caller) {
            Ok(()) => {},
            Err(error) => {
                return Err(error);
            },
        }
        self.settings.insert(category_id, CategorySettings { quorum, threshold, voting_period: period });
        proof {
            let after = old(self)@.set_category_settings(
                caller,
                category_id,
                CategorySettings { quorum, threshold, voting_period: period },
            )->Ok_0;
            assert(self@.ballots =~= after.ballots);
            assert(self@ =~= after);
            old(self)@.lemma_inv_frame(after);
        }
        Ok(())
    }

    /// Creates a proposal for a proposer that holds `balance`, at ledger
    /// `sequence`, and returns its id: one more than the number of proposals
    /// created before.
    pub fn create_proposal(
        &mut self,
        proposer: Address,
        action: GovernanceAction,
        category: ProposalCategory,
        description: String,
        balance: i128,
        sequence: u32,
    ) -> (id: Result<u32, GovernanceError>)
        requires
            old(self).wf(),
        ensures
            final(self).wf(),
            match old(self)@.create_proposal(
                proposer,
                action,
                category,
                description,
                balance,
                sequence,
            ) {
                Ok(after) => id == Ok::<u32, GovernanceError>(
                    (old(self)@.proposal_count() + 1) as u32,
                ) && final(self)@ == after,
                Err(error) => id == Err::<u32, GovernanceError>(error) && final(self)@ == old(self)@,
            },
    {
        if self.config.is_none() {
            return Err(GovernanceError::NotFound);
        }
        let settings: Option<CategorySettings> = match self.settings.get(&category.id()) {
            Some(settings) => Some(*settings),
            None => None,
        };
        let count: u32 = self.proposals.len() as u32;
        let proposal = match Proposal::propose(
            count,
            proposer,
            action,
            category,
            description,
            balance,
            settings,
            sequence,
        ) {
            Ok(proposal) => proposal,
            Err(error) => {
                return Err(error);
            },
        };
        let id: u32 = proposal.id;
        self.proposals.push(proposal);
        self.ballots.push(Vec::new());
        proof {
            let after = old(self)@.create_proposal(
                proposer,
                action,
                category,
                description,
                balance,
                sequence,
            )->Ok_0;
            assert(self@.ballots =~= after.ballots);
            assert(self@ =~= after);
            assert forall|index: int| 0 <= index < after.proposals.len() implies #[trigger] after.entry_inv(
                index,
            ) by {
                if index < old(self)@.proposals.len() {
                    assert(old(self)@.entry_inv(index));
                }
            }
        }
        Ok(id)
    }

    /// Makes `delegatee` the one delegatee of `delegator`, in place of any
    /// earlier one.
    pub fn delegate(&mut self, delegator: Address, delegatee: Address)
        requires
            old(self).wf(),
        ensures
            final(self).wf(),
            final(self)@ == old(self)@.delegate(delegator, delegatee),
    {
        self.delegations.insert(delegator.id, delegatee);
        proof {
            let after = old(self)@.delegate(delegator, delegatee);
            assert(self@.ballots =~= after.ballots);
            assert(self@ =~= after);
            old(self)@.lemma_inv_frame(after);
        }
    }

    /// Removes the delegation of `delegator`, if it has one.
    pub fn revoke_delegation(&mut self, delegator: Address)
        requires
            old(self).wf(),
        ensures
            final(self).wf(),
            final(self)@ == old(self)@.revoke_delegation(delegator),
    {
        self.delegations.remove(&delegator.id);
        proof {
            let after = old(self)@.revoke_delegation(delegator);
            assert(self@.ballots =~= after.ballots);
            assert(self@ =~= after);
            old(self)@.lemma_inv_frame(after);
        }
    }

    /// The current delegatee of each claimed delegator, in the order of the
    /// claims.
    fn delegatees_of(&self, claims: &Vec<Claim>) -> (delegatees: Vec<Option<Address>>)
        ensures
            delegatees@.len() == claims@.len(),
            forall|i: int|
                0 <= i < claims@.len() ==> #[trigger] delegatees@[i] == self@.delegatee(
                    claims@[i].delegator,
                ),
    {
        let mut delegatees: Vec<Option<Address>> = Vec::new();
        let mut i: usize = 0;
        while i < claims.len()
            invariant
                i <= claims.len(),
                delegatees@.len() == i,
                forall|j: int|
                    0 <= j < i ==> #[trigger] delegatees@[j] == self@.delegatee(
                        claims@[j].delegator,
                    ),
            decreases claims.len() - i,
        {
            delegatees.push(self.get_delegation(claims[i].delegator));
            i += 1;
        }
        delegatees
    }

    /// Casts the vote of `voter`, who holds `voter_balance`, on a proposal at
    /// ledger `sequence`, together with the votes of the delegators it claims.
    ///
    /// An address that was counted on this proposal before adds nothing. Each
    /// address counted now gets a record under `voter`, and the sum of their
    /// powers is added to the side voted for. A refused vote changes nothing.
    pub fn vote(
        &mut self,
        voter: Address,
        proposal_id: u32,
        support: bool,
        use_quadratic: bool,
        voter_balance: i128,
        claims: Vec<Claim>,
        sequence: u32,
    ) -> (done: Result<(), GovernanceError>)
        requires
            old(self).wf(),
            voter_balance >= 0,
            balances_non_negative(claims@),
        ensures
            final(self).wf(),
            match old(self)@.vote(
                voter,
                proposal_id,
                support,
                use_quadratic,
                voter_balance,
                claims@,
                sequence,
            ) {
                Ok(after) => done is Ok && final(self)@ == after,
                Err(error) => done == Err::<(), GovernanceError>(error) && final(self)@ == old(self)@,
            },
    {
        if proposal_id == 0 || proposal_id as usize > self.proposals.len() {
            return Err(GovernanceError::NotFound);
        }
        let index: usize = (proposal_id - 1) as usize;
        let delegatees = self.delegatees_of(&claims);
        proof {
            assert(self@.entry_inv(index as int));
            assert(delegatees_valid(voter, delegatees@) <==> claims_valid(
                self@.delegations,
                voter,
                claims@,
            )) by {
                if delegatees_valid(voter, delegatees@) {
                    assert forall|i: int| 0 <= i < claims@.len() implies self@.delegations.contains_key(
                        (#[trigger] claims@[i]).delegator.id,
                    ) && self@.delegations[claims@[i].delegator.id] == voter by {
                        assert(delegatees@[i] == Some(voter));
                    }
                }
                if claims_valid(self@.delegations, voter, claims@) {
                    assert forall|i: int| 0 <= i < delegatees@.len() implies #[trigger] delegatees@[i]
                        == Some(voter) by {
                        assert(self@.delegations.contains_key(claims@[i].delegator.id));
                    }
                }
            }
        }
        let mut proposal: Proposal = self.proposals[index].duplicate();
        let mut staged: Vec<Ballot> = copy_ballots(&self.ballots[index]);
        match proposal.vote(
            &mut staged,
            voter,
            support,
            use_quadratic,
            voter_balance,
            &claims,
            &delegatees,
            sequence,
        ) {
            Err(error) => {
                return Err(error);
            },
            Ok(()) => {},
        }
        self.proposals.set(index, proposal);
        self.ballots.set(index, staged);
        proof {
            let after = old(self)@.vote(
                voter,
                proposal_id,
                support,
                use_quadratic,
                voter_balance,
                claims@,
                sequence,
            )->Ok_0;
            assert(self@.ballots =~= after.ballots);
            assert(self@ =~= after);
            let before = old(self)@.ballots[index as int];
            let was = old(self)@.proposals[index as int];
            assert(power_added(before, voter, support, use_quadratic, voter_balance, claims@)
                == amount_cast(staged@, support) - amount_cast(before, support));
            assert(old(self)@.entry_inv(index as int));
            assert(was.total_votes_for == amount_cast(before, true));
            assert(was.total_votes_against == amount_cast(before, false));
            assert(after.entry_inv(index as int));
            old(self)@.lemma_inv_update(after, index as int);
        }
        Ok(())
    }

    /// Closes the vote on an active proposal at ledger `sequence` and time
    /// `timestamp`, under the rules that its category has now: the proposal
    /// becomes queued, with `eta` one timelock from `timestamp`, or defeated.
    /// A proposal that is queued, defeated or executed is refused as
    /// `NotActive` and stays as it is.
    pub fn queue(&mut self, proposal_id: u32, sequence: u32, timestamp: u64) -> (done: Result<
        (),
        GovernanceError,
    >)
        requires
            old(self).wf(),
        ensures
            final(self).wf(),
            match old(self)@.queue(proposal_id, sequence, timestamp) {
                Ok(after) => done is Ok && final(self)@ == after,
                Err(error) => done == Err::<(), GovernanceError>(error) && final(self)@ == old(self)@,
            },
    {
        if proposal_id == 0 || proposal_id as usize > self.proposals.len() {
            return Err(GovernanceError::NotFound);
        }
        let index: usize = (proposal_id - 1) as usize;
        let settings: Option<CategorySettings> = match self.settings.get(
            &self.proposals[index].category.id(),
        ) {
            Some(settings) => Some(*settings),
            None => None,
        };
        let timelock: Option<u64> = match self.config {
            Some(config) => Some(config.timelock_duration),
            None => None,
        };
        proof {
            assert(self@.entry_inv(index as int));
        }
        let mut proposal: Proposal = self.proposals[index].duplicate();
        match proposal.close(settings, timelock, sequence, timestamp) {
            Err(error) => {
                return Err(error);
            },
            Ok(()) => {},
        }
        self.proposals.set(index, proposal);
        proof {
            let after = old(self)@.queue(proposal_id, sequence, timestamp)->Ok_0;
            assert(self@.ballots =~= after.ballots);
            assert(self@ =~= after);
            assert(after.ballots[index as int] == old(self)@.ballots[index as int]);
            assert(after.ballots =~= old(self)@.ballots.update(
                index as int,
                after.ballots[index as int],
            ));
            old(self)@.lemma_inv_update(after, index as int);
        }
        Ok(())
    }

    /// Executes a queued proposal at time `timestamp`, once its timelock has
    /// run out, and hands back its action.
    pub fn execute(&mut self, proposal_id: u32, timestamp: u64) -> (action: Result<
        GovernanceAction,
        GovernanceError,
    >)
        requires
            old(self).wf(),
        ensures
            final(self).wf(),
            match old(self)@.execute(proposal_id, timestamp) {
                Ok(after) => action == Ok::<GovernanceAction, GovernanceError>(
                    old(self)@.proposal(proposal_id).action,
                ) && final(self)@ == after,
                Err(error) => action == Err::<GovernanceAction, GovernanceError>(error) && final(self)@ == old(self)@,
            },
    {
        if proposal_id == 0 || proposal_id as usize > self.proposals.len() {
            return Err(GovernanceError::NotFound);
        }
        let index: usize = (proposal_id - 1) as usize;
        proof {
            assert(self@.entry_inv(index as int));
        }
        let mut proposal: Proposal = self.proposals[index].duplicate();
        let action: GovernanceAction = match proposal.execute(timestamp) {
            Err(error) => {
                return Err(error);
            },
            Ok(action) => action,
        };
        self.proposals.set(index, proposal);
        proof {
            let after = old(self)@.execute(proposal_id, timestamp)->Ok_0;
            assert(self@.ballots =~= after.ballots);
            assert(self@ =~= after);
            assert(after.ballots =~= old(self)@.ballots.update(
                index as int,
                after.ballots[index as int],
            ));
            old(self)@.lemma_inv_update(after, index as int);
        }
        Ok(action)
    }

    /// Lets the emergency address, and nobody else, put out an action at
    /// once. No proposal is made or read.
    pub fn emergency_action(&self, caller: Address, action: GovernanceAction) -> (emitted: Result<
        GovernanceAction,
        GovernanceError,
    >)
        ensures
            emitted == if self@.is_emergency_address(caller) {
                Ok::<GovernanceAction, GovernanceError>(action)
            } else {
                Err(GovernanceError::Unauthorized)
            },
    {
        match self.config {
            Some(config) => match authorize_emergency(config.emergency_address, caller) {
                Ok(()) => Ok(action),
                Err(error) => Err(error),
            },
            None => Err(GovernanceError::Unauthorized),
        }
    }

    /// The floor of the square root of `n`, zero for `n <= 0`.
    pub fn sqrt(n: i128) -> (root: i128)
        ensures
            root == floor_sqrt(n as int),
            n <= 0 ==> root == 0,
            n >= 0 ==> 0 <= root && root * root <= n < (root + 1) * (root + 1),
    {
        isqrt(n)
    }

    /// The proposal with the given id.
    pub fn get_proposal(&self, proposal_id: u32) -> (proposal: Result<&Proposal, GovernanceError>)
        requires
            self.wf(),
        ensures
            match proposal {
                Ok(found) => self@.has_proposal(proposal_id) && *found == self@.proposal(
                    proposal_id,
                ),
                Err(error) => !self@.has_proposal(proposal_id) && error
                    == GovernanceError::NotFound,
            },
    {
        if proposal_id == 0 || proposal_id as usize > self.proposals.len() {
            return Err(GovernanceError::NotFound);
        }
        Ok(&self.proposals[(proposal_id - 1) as usize])
    }

    /// The record counted for `voter` on a proposal, if there is one.
    pub fn get_vote(&self, proposal_id: u32, voter: Address) -> (record: Option<VoteRecord>)
        requires
            self.wf(),
        ensures
            record == self@.vote_record(proposal_id, voter),
    {
        if proposal_id == 0 || proposal_id as usize > self.proposals.len() {
            return None;
        }
        find_record(&self.ballots[(proposal_id - 1) as usize], voter)
    }

    /// The current delegatee of `delegator`, if it has one.
    pub fn get_delegation(&self, delegator: Address) -> (delegatee: Option<Address>)
        ensures
            delegatee == self@.delegatee(delegator),
    {
        match self.delegations.get(&delegator.id) {
            Some(delegatee) => Some(*delegatee),
            None => None,
        }
    }
}

} // verus!
