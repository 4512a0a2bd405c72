//! The state of the governance engine as a mathematical value, and each
//! operation as a function from one state to the next.
use crate::address::Address;
use crate::governance::ballots::{
    amount_cast,
    ballots_after,
    distinct,
    non_negative,
    power_added,
    record_of,
    Ballot,
    Claim,
};
use crate::governance::lifecycle::MIN_PROPOSE_POWER;
use crate::governance::storage::{
    CategorySettings,
    GovernanceAction,
    GovernanceError,
    Proposal,
    ProposalCategory,
    ProposalStatus,
    VoteRecord,
};
use vstd::prelude::*;

verus! {

/// What is fixed when the engine is initialized.
#[derive(Clone, Copy, Debug, PartialEq, Eq, Structural)]
pub struct Config {
    pub admin: Address,
    /// The token whose balances give voting power.
    pub token: Address,
    /// The delay between queueing and execution.
    pub timelock_duration: u64,
    /// The one address that may take emergency actions.
    pub emergency_address: Address,
}

/// Everything the engine remembers.
#[verifier::ext_equal]
pub struct State {
    /// `None` until the engine is initialized.
    pub config: Option<Config>,
    /// The rules of each category, by category key.
    pub settings: Map<u32, CategorySettings>,
    /// The proposals in creation order: the proposal with id `n` is at `n - 1`.
    pub proposals: Seq<Proposal>,
    /// For each proposal, its ballots in the order they were counted.
    pub ballots: Seq<Seq<Ballot>>,
    /// The delegatee of each delegator, by the delegator's number.
    pub delegations: Map<u64, Address>,
}

/// The rules that `init` gives the four categories.
pub open spec fn default_settings(settings: Map<u32, CategorySettings>) -> Map<
    u32,
    CategorySettings,
> {
    settings.insert(0, ProposalCategory::ProtocolUpgrade.initial_settings()).insert(
        1,
        ProposalCategory::FeeAdjustment.initial_settings(),
    ).insert(2, ProposalCategory::ParameterUpdate.initial_settings()).insert(
        3,
        ProposalCategory::Emergency.initial_settings(),
    )
}

/// Every claimed delegator currently delegates to `voter`.
pub open spec fn claims_valid(
    delegations: Map<u64, Address>,
    voter: Address,
    claims: Seq<Claim>,
) -> bool {
    forall|i: int|
        0 <= i < claims.len() ==> delegations.contains_key((#[trigger] claims[i]).delegator.id)
            && delegations[claims[i].delegator.id] == voter
}

impl State {
    /// The state of an engine that was never used.
    pub open spec fn empty() -> State {
        State {
            config: None,
            settings: Map::empty(),
            proposals: Seq::empty(),
            ballots: Seq::empty(),
            delegations: Map::empty(),
        }
    }

    /// What holds of the proposal at `index` and its ballots: the id follows
    /// the position, the status is one of the four that are ever assigned,
    /// `eta` is zero while the proposal is active and when it is defeated, and
    /// positive once it is queued or executed under a timelock that is not
    /// zero, no address is counted twice, and each tally is the sum of the
    /// amounts counted on its side.
    pub open spec fn entry_inv(self, index: int) -> bool {
        let proposal = self.proposals[index];
        let ballots = self.ballots[index];
        &&& proposal.id == index + 1
        &&& proposal.wf()
        &&& proposal.status.is_reachable()
        &&& proposal.status == ProposalStatus::Active || proposal.status
            == ProposalStatus::Defeated ==> proposal.eta == 0
        &&& self.has_timelock() && (proposal.status == ProposalStatus::Queued || proposal.status
            == ProposalStatus::Executed) ==> proposal.eta > 0
        &&& distinct(ballots)
        &&& non_negative(ballots)
        &&& proposal.total_votes_for == amount_cast(ballots, true)
        &&& proposal.total_votes_against == amount_cast(ballots, false)
    }

    /// What holds of every state that the operations reach.
    pub open spec fn inv(self) -> bool {
        &&& self.proposals.len() == self.ballots.len()
        &&& self.proposals.len() <= u32::MAX
        &&& self.config is None ==> self.proposals.len() == 0
        &&& forall|index: int| 0 <= index < self.proposals.len() ==> #[trigger] self.entry_inv(index)
    }

    /// The invariant speaks of the proposals and their ballots alone: a state
    /// that keeps both, and stays initialized, keeps the invariant.
    pub proof fn lemma_inv_frame(self, after: State)
        requires
            self.inv(),
            after.proposals == self.proposals,
            after.ballots == self.ballots,
            after.config == self.config,
        ensures
            after.inv(),
    {
        assert forall|index: int| 0 <= index < after.proposals.len() implies #[trigger] after.entry_inv(
            index,
        ) by {
            assert(self.entry_inv(index));
        }
    }

    /// Replacing one proposal and its ballots by a pair that satisfies the
    /// entry invariant keeps the invariant.
    pub proof fn lemma_inv_update(self, after: State, index: int)
        requires
            self.inv(),
            0 <= index < self.proposals.len(),
            after.proposals == self.proposals.update(index, after.proposals[index]),
            after.ballots == self.ballots.update(index, after.ballots[index]),
            after.config == self.config,
            after.entry_inv(index),
        ensures
            after.inv(),
    {
        assert forall|other: int| 0 <= other < after.proposals.len() implies #[trigger] after.entry_inv(
            other,
        ) by {
            if other != index {
                assert(self.entry_inv(other));
            }
        }
    }

    /// Whether the engine was initialized with a timelock that is not zero.
    pub open spec fn has_timelock(self) -> bool {
        match self.config {
            Some(config) => config.timelock_duration > 0,
            None => false,
        }
    }

    /// How many proposals were created.
    pub open spec fn proposal_count(self) -> nat {
        self.proposals.len()
    }

    /// Whether a proposal with this id was created.
    pub open spec fn has_proposal(self, id: u32) -> bool {
        1 <= id <= self.proposals.len()
    }

    /// The proposal with this id.
    pub open spec fn proposal(self, id: u32) -> Proposal
        recommends
            self.has_proposal(id),
    {
        self.proposals[id - 1]
    }

    /// The record counted for `address` on proposal `id`, if any.
    pub open spec fn vote_record(self, id: u32, address: Address) -> Option<VoteRecord> {
        if self.has_proposal(id) {
            record_of(self.ballots[id - 1], address)
        } else {
            None
        }
    }

    /// The current delegatee of `delegator`, if it has one.
    pub open spec fn delegatee(self, delegator: Address) -> Option<Address> {
        if self.delegations.contains_key(delegator.id) {
            Some(self.delegations[delegator.id])
        } else {
            None
        }
    }

    /// The state after the engine is initialized, which happens once.
    pub open spec fn init(
        self,
        admin: Address,
        token: Address,
        timelock_duration: u64,
        emergency_address: Address,
    ) -> Result<State, GovernanceError> {
        if self.config is Some {
            Err(GovernanceError::AlreadyInitialized)
        } else {
            Ok(
                State {
                    config: Some(Config { admin, token, timelock_duration, emergency_address }),
                    settings: default_settings(self.settings),
                    ..self
                },
            )
        }
    }

    /// The state after the admin gives one category new rules; any other
    /// caller is refused.
    pub open spec fn set_category_settings(
        self,
        caller: Address,
        category_id: u32,
        settings: CategorySettings,
    ) -> Result<State, GovernanceError> {
        if self.is_admin(caller) {
            Ok(State { settings: self.settings.insert(category_id, settings), ..self })
        } else {
            Err(GovernanceError::Unauthorized)
        }
    }

    /// Whether `caller` is the controlling authority: the admin that the
    /// engine was initialized with.
    pub open spec fn is_admin(self, caller: Address) -> bool {
        match self.config {
            Some(config) => config.admin == caller,
            None => false,
        }
    }

    /// The state after a proposal is created; its id is the count of
    /// proposals after the creation.
    pub open spec fn create_proposal(
        self,
        proposer: Address,
        action: GovernanceAction,
        category: ProposalCategory,
        description: String,
        balance: i128,
        sequence: u32,
    ) -> Result<State, GovernanceError> {
        if self.config is None {
            Err(GovernanceError::NotFound)
        } else if balance < MIN_PROPOSE_POWER {
            Err(GovernanceError::InsufficientPower)
        } else if !self.settings.contains_key(category.key()) {
            Err(GovernanceError::NotFound)
        } else if self.proposals.len() + 1 > u32::MAX {
            Err(GovernanceError::Overflow)
        } else {
            match Proposal::opened(
                (self.proposals.len() + 1) as u32,
                proposer,
                action,
                category,
                description,
                self.settings[category.key()].voting_period,
                sequence,
            ) {
                Ok(proposal) => Ok(
                    State {
                        proposals: self.proposals.push(proposal),
                        ballots: self.ballots.push(Seq::empty()),
                        ..self
                    },
                ),
                Err(error) => Err(error),
            }
        }
    }

    /// The state after a vote. The power credited is the sum of the amounts
    /// of the ballots that the vote adds.
    pub open spec fn vote(
        self,
        voter: Address,
        id: u32,
        support: bool,
        use_quadratic: bool,
        voter_balance: i128,
        claims: Seq<Claim>,
        sequence: u32,
    ) -> Result<State, GovernanceError> {
        if !self.has_proposal(id) {
            Err(GovernanceError::NotFound)
        } else if sequence > self.proposal(id).end_ledger {
            Err(GovernanceError::VotingClosed)
        } else if !claims_valid(self.delegations, voter, claims) {
            Err(GovernanceError::InvalidDelegate)
        } else {
            let after = ballots_after(
                self.ballots[id - 1],
                voter,
                support,
                use_quadratic,
                voter_balance,
                claims,
            );
            let power = power_added(
                self.ballots[id - 1],
                voter,
                support,
                use_quadratic,
                voter_balance,
                claims,
            );
            match self.proposal(id).credited(support, power) {
                Ok(proposal) => Ok(
                    State {
                        proposals: self.proposals.update(id - 1, proposal),
                        ballots: self.ballots.update(id - 1, after),
                        ..self
                    },
                ),
                Err(error) => Err(error),
            }
        }
    }

    /// The state once `delegator` delegates to `delegatee`, and to nobody else.
    pub open spec fn delegate(self, delegator: Address, delegatee: Address) -> State {
        State { delegations: self.delegations.insert(delegator.id, delegatee), ..self }
    }

    /// The state once `delegator` delegates to nobody.
    pub open spec fn revoke_delegation(self, delegator: Address) -> State {
        State { delegations: self.delegations.remove(delegator.id), ..self }
    }

    /// The state after the vote on the active proposal `id` is closed, under
    /// the rules that its category has at that moment.
    pub open spec fn queue(self, id: u32, sequence: u32, timestamp: u64) -> Result<
        State,
        GovernanceError,
    > {
        if !self.has_proposal(id) {
            Err(GovernanceError::NotFound)
        } else if sequence <= self.proposal(id).end_ledger {
            Err(GovernanceError::VotingActive)
        } else if self.proposal(id).status != ProposalStatus::Active {
            Err(GovernanceError::NotActive)
        } else if !self.settings.contains_key(self.proposal(id).category.key()) {
            Err(GovernanceError::NotFound)
        } else {
            match self.config {
                None => Err(GovernanceError::NotFound),
                Some(config) => match self.proposal(id).queued(
                    self.settings[self.proposal(id).category.key()],
                    config.timelock_duration,
                    sequence,
                    timestamp,
                ) {
                    Ok(proposal) => Ok(
                        State { proposals: self.proposals.update(id - 1, proposal), ..self },
                    ),
                    Err(error) => Err(error),
                },
            }
        }
    }

    /// The state after a queued proposal is executed at `timestamp`.
    pub open spec fn execute(self, id: u32, timestamp: u64) -> Result<State, GovernanceError> {
        if !self.has_proposal(id) {
            Err(GovernanceError::NotFound)
        } else {
            match self.proposal(id).executed(timestamp) {
                Ok(proposal) => Ok(
                    State { proposals: self.proposals.update(id - 1, proposal), ..self },
                ),
                Err(error) => Err(error),
            }
        }
    }

    /// Whether `caller` may take an emergency action.
    pub open spec fn is_emergency_address(self, caller: Address) -> bool {
        match self.config {
            Some(config) => config.emergency_address == caller,
            None => false,
        }
    }
}

} // verus!
