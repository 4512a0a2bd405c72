//! The records that the governance engine keeps.
use crate::address::Address;
use vstd::prelude::*;

verus! {

/// Why an operation was refused. A refused operation changes nothing.
#[derive(Clone, Copy, Debug, PartialEq, Eq, Structural)]
pub enum GovernanceError {
    /// The engine was initialized before.
    AlreadyInitialized,
    /// A proposal, category setting, delegation or configuration is missing.
    NotFound,
    /// The caller is not the address that may do this.
    Unauthorized,
    /// The voting window has not closed yet.
    VotingActive,
    /// The voting window has closed.
    VotingClosed,
    /// The vote on the proposal was closed before: the proposal is queued,
    /// defeated or executed, and stays as it is.
    NotActive,
    /// A claimed delegator has not delegated to the caller.
    InvalidDelegate,
    /// The proposal is not waiting in the timelock queue.
    NotQueued,
    /// The timelock has not run out yet.
    TimelockNotExpired,
    /// The proposer holds less than the minimum balance.
    InsufficientPower,
    /// A sum or product does not fit the integer type that holds it.
    Overflow,
}

/// The rules of one proposal category.
#[derive(Clone, Copy, Debug, PartialEq, Eq, Structural)]
pub struct CategorySettings {
    /// Minimum combined votes for a proposal to be eligible.
    pub quorum: i128,
    /// Percentage of the votes cast that must be in favour.
    pub threshold: u32,
    /// Length of the voting window, in ledgers.
    pub voting_period: u32,
}

/// What a proposal does once executed. The engine carries it and never
/// looks inside.
#[derive(Clone, Debug, PartialEq, Eq)]
pub enum GovernanceAction {
    /// Upgrade to the code with this hash.
    Upgrade(String),
    /// Set the fee, in basis points.
    FeeChange(u32),
    /// Set the named parameter to a value.
    ParameterChange(String, u32),
    EmergencyAction,
}

impl GovernanceAction {
    /// A copy of the action.
    pub fn duplicate(&self) -> (copy: GovernanceAction)
        ensures
            copy == *self,
    {
        match self {
            GovernanceAction::Upgrade(hash) => GovernanceAction::Upgrade(hash.clone()),
            GovernanceAction::FeeChange(fee) => GovernanceAction::FeeChange(*fee),
            GovernanceAction::ParameterChange(name, value) => GovernanceAction::ParameterChange(
                name.clone(),
                *value,
            ),
            GovernanceAction::EmergencyAction => GovernanceAction::EmergencyAction,
        }
    }
}

/// The closed set of proposal categories.
#[derive(Clone, Copy, Debug, PartialEq, Eq, Structural)]
pub enum ProposalCategory {
    ProtocolUpgrade,
    FeeAdjustment,
    ParameterUpdate,
    Emergency,
}

impl ProposalCategory {
    /// The key under which the category's settings are kept.
    pub open spec fn key(self) -> u32 {
        match self {
            ProposalCategory::ProtocolUpgrade => 0,
            ProposalCategory::FeeAdjustment => 1,
            ProposalCategory::ParameterUpdate => 2,
            ProposalCategory::Emergency => 3,
        }
    }

    /// The rules that the category has when the engine is initialized.
    pub open spec fn initial_settings(self) -> CategorySettings {
        match self {
            ProposalCategory::ProtocolUpgrade => CategorySettings {
                quorum: 1000,
                threshold: 50,
                voting_period: 100,
            },
            ProposalCategory::FeeAdjustment => CategorySettings {
                quorum: 500,
                threshold: 50,
                voting_period: 50,
            },
            ProposalCategory::ParameterUpdate => CategorySettings {
                quorum: 100,
                threshold: 50,
                voting_period: 30,
            },
            ProposalCategory::Emergency => CategorySettings {
                quorum: 2000,
                threshold: 66,
                voting_period: 20,
            },
        }
    }

    /// The rules that the category has when the engine is initialized.
    pub fn default_settings(&self) -> (settings: CategorySettings)
        ensures
            settings == self.initial_settings(),
    {
        match self {
            ProposalCategory::ProtocolUpgrade => CategorySettings {
                quorum: 1000,
                threshold: 50,
                voting_period: 100,
            },
            ProposalCategory::FeeAdjustment => CategorySettings {
                quorum: 500,
                threshold: 50,
                voting_period: 50,
            },
            ProposalCategory::ParameterUpdate => CategorySettings {
                quorum: 100,
                threshold: 50,
                voting_period: 30,
            },
            ProposalCategory::Emergency => CategorySettings {
                quorum: 2000,
                threshold: 66,
                voting_period: 20,
            },
        }
    }

    /// The key under which the category's settings are kept.
    pub fn id(&self) -> (id: u32)
        ensures
            id == self.key(),
    {
        match self {
            ProposalCategory::ProtocolUpgrade => 0,
            ProposalCategory::FeeAdjustment => 1,
            ProposalCategory::ParameterUpdate => 2,
            ProposalCategory::Emergency => 3,
        }
    }
}

/// Where a proposal stands in its lifecycle. Only `Active`, `Defeated`,
/// `Queued` and `Executed` are ever assigned; the others are reserved.
#[derive(Clone, Copy, Debug, PartialEq, Eq, Structural)]
pub enum ProposalStatus {
    Pending,
    Active,
    Defeated,
    Succeeded,
    Queued,
    Executed,
    Canceled,
    Expired,
}

impl ProposalStatus {
    /// Whether the status is one that a proposal can take.
    pub open spec fn is_reachable(self) -> bool {
        self == ProposalStatus::Active || self == ProposalStatus::Defeated || self
            == ProposalStatus::Queued || self == ProposalStatus::Executed
    }
}

/// A proposal with its voting window, tally and status.
#[derive(Clone, Debug, PartialEq, Eq)]
pub struct Proposal {
    pub id: u32,
    pub proposer: Address,
    pub action: GovernanceAction,
    pub category: ProposalCategory,
    pub description: String,
    /// Ledger at which voting opened.
    pub start_ledger: u32,
    /// Last ledger at which a vote is accepted.
    pub end_ledger: u32,
    pub total_votes_for: i128,
    pub total_votes_against: i128,
    pub status: ProposalStatus,
    /// Time from which the proposal may be executed; zero until queued.
    pub eta: u64,
}

/// The ballot counted for one address on one proposal.
#[derive(Clone, Copy, Debug, PartialEq, Eq, Structural)]
pub struct VoteRecord {
    /// Who cast the ballot: the address itself, or the delegatee that claimed it.
    pub voter: Address,
    pub support: bool,
    /// The voting power credited.
    pub amount: i128,
    pub is_quadratic: bool,
}

} // verus!
