//! The life of one proposal: opened, voted on, queued or defeated, executed.
//!
//! Every transition is a function of the proposal, the rules in force and the
//! clock values handed in. Nothing happens by itself when a deadline passes.
use crate::address::Address;
use crate::governance::ballots::{
    balances_non_negative,
    ballots_after,
    cast_votes,
    copy_ballots,
    delegates_to,
    distinct,
    non_negative,
    amount_cast,
    power_added,
    Ballot,
    Claim,
};
use crate::governance::storage::{
    CategorySettings,
    GovernanceAction,
    GovernanceError,
    Proposal,
    ProposalCategory,
    ProposalStatus,
};
use vstd::prelude::*;

verus! {

/// The balance below which an address may not propose.
pub const MIN_PROPOSE_POWER: i128 = 100;

/// The share of the votes cast that are in favour, as a whole percentage
/// rounded down; zero where no vote was cast.
pub open spec fn for_percentage(votes_for: int, votes_against: int) -> int {
    let total = votes_for + votes_against;
    if total > 0 {
        (votes_for * 100) / total
    } else {
        0
    }
}

/// Whether a tally is approved: at least one vote was cast, the votes reach
/// the quorum, and the share in favour reaches the threshold.
pub open spec fn approved(votes_for: int, votes_against: int, quorum: int, threshold: int) -> bool {
    let total = votes_for + votes_against;
    total > 0 && total >= quorum && for_percentage(votes_for, votes_against) >= threshold
}

/// Whether the percentage in favour can be computed in 128 bits where it is
/// needed: the votes cast must fit, and, once they reach the quorum, a
/// hundred times the votes in favour.
pub open spec fn tally_fits(votes_for: int, votes_against: int, quorum: int) -> bool {
    let total = votes_for + votes_against;
    total <= i128::MAX && (total > 0 && total >= quorum ==> votes_for * 100 <= i128::MAX)
}

/// Decides a tally against a category's rules.
///
/// Returns whether the tally is approved, or `Overflow` where the sum of the
/// votes or the percentage cannot be computed.
pub fn evaluate(votes_for: i128, votes_against: i128, settings: &CategorySettings) -> (outcome:
    Result<bool, GovernanceError>)
    requires
        votes_for >= 0,
        votes_against >= 0,
    ensures
        outcome == if tally_fits(votes_for as int, votes_against as int, settings.quorum as int) {
            Ok::<bool, GovernanceError>(
                approved(
                    votes_for as int,
                    votes_against as int,
                    settings.quorum as int,
                    settings.threshold as int,
                ),
            )
        } else {
            Err(GovernanceError::Overflow)
        },
{
    let total: i128 = match votes_for.checked_add(votes_against) {
        Some(total) => total,
        None => {
            return Err(GovernanceError::Overflow);
        },
    };
    if total < settings.quorum || total == 0 {
        return Ok(false);
    }
    let scaled: i128 = match votes_for.checked_mul(100) {
        Some(scaled) => scaled,
        None => {
            return Err(GovernanceError::Overflow);
        },
    };
    let percentage: i128 = scaled / total;
    let threshold: i128 = settings.threshold as i128;
    Ok(percentage >= threshold)
}

/// Admits the emergency address, and refuses every other caller as
/// `Unauthorized`.
pub fn authorize_emergency(emergency_address: Address, caller: Address) -> (verdict: Result<
    (),
    GovernanceError,
>)
    ensures
        verdict == if caller == emergency_address {
            Ok::<(), GovernanceError>(())
        } else {
            Err(GovernanceError::Unauthorized)
        },
{
    if caller.id == emergency_address.id {
        Ok(())
    } else {
        Err(GovernanceError::Unauthorized)
    }
}

/// Admits the admin, and refuses every other caller as `Unauthorized`.
pub fn authorize_admin(admin: Address, caller: Address) -> (verdict: Result<
    (),
    GovernanceError,
>)
    ensures
        verdict == if caller == admin {
            Ok::<(), GovernanceError>(())
        } else {
            Err(GovernanceError::Unauthorized)
        },
{
    if caller.id == admin.id {
        Ok(())
    } else {
        Err(GovernanceError::Unauthorized)
    }
}

/// Every delegatee is `voter`: each claimed delegator delegates to the
/// voter now.
pub open spec fn delegatees_valid(voter: Address, delegatees: Seq<Option<Address>>) -> bool {
    forall|i: int| 0 <= i < delegatees.len() ==> #[trigger] delegatees[i] == Some(voter)
}

/// Whether every delegatee is `voter`.
pub fn check_delegatees(voter: Address, delegatees: &Vec<Option<Address>>) -> (verdict: Result<
    (),
    GovernanceError,
>)
    ensures
        verdict == if delegatees_valid(voter, delegatees@) {
            Ok::<(), GovernanceError>(())
        } else {
            Err(GovernanceError::InvalidDelegate)
        },
{
    let mut i: usize = 0;
    while i < delegatees.len()
        invariant
            i <= delegatees.len(),
            forall|j: int| 0 <= j < i ==> #[trigger] delegatees@[j] == Some(voter),
        decreases delegatees.len() - i,
    {
        if !delegates_to(delegatees[i], voter) {
            proof {
                assert(delegatees@[i as int] != Some(voter));
            }
            return Err(GovernanceError::InvalidDelegate);
        }
        i += 1;
    }
    Ok(())
}

impl Proposal {
    /// The tallies are not negative.
    pub open spec fn wf(self) -> bool {
        self.total_votes_for >= 0 && self.total_votes_against >= 0
    }

    /// The proposal that `open` creates, if it creates one.
    pub open spec fn opened(
        id: u32,
        proposer: Address,
        action: GovernanceAction,
        category: ProposalCategory,
        description: String,
        voting_period: u32,
        sequence: u32,
    ) -> Result<Proposal, GovernanceError> {
        if sequence + voting_period > u32::MAX {
            Err(GovernanceError::Overflow)
        } else {
            Ok(
                Proposal {
                    id,
                    proposer,
                    action,
                    category,
                    description,
                    start_ledger: sequence,
                    end_ledger: (sequence + voting_period) as u32,
                    total_votes_for: 0,
                    total_votes_against: 0,
                    status: ProposalStatus::Active,
                    eta: 0,
                },
            )
        }
    }

    /// The proposal after `credit`, if the tally fits.
    pub open spec fn credited(self, support: bool, power: int) -> Result<
        Proposal,
        GovernanceError,
    > {
        if support {
            if self.total_votes_for + power > i128::MAX {
                Err(GovernanceError::Overflow)
            } else {
                Ok(Proposal { total_votes_for: (self.total_votes_for + power) as i128, ..self })
            }
        } else {
            if self.total_votes_against + power > i128::MAX {
                Err(GovernanceError::Overflow)
            } else {
                Ok(
                    Proposal {
                        total_votes_against: (self.total_votes_against + power) as i128,
                        ..self
                    },
                )
            }
        }
    }

    /// The proposal after `queue`, or the reason why it stays as it is.
    /// Only an active proposal is ever closed: one that is queued, defeated
    /// or executed is refused.
    pub open spec fn queued(
        self,
        settings: CategorySettings,
        timelock: u64,
        sequence: u32,
        timestamp: u64,
    ) -> Result<Proposal, GovernanceError> {
        if sequence <= self.end_ledger {
            Err(GovernanceError::VotingActive)
        } else if self.status != ProposalStatus::Active {
            Err(GovernanceError::NotActive)
        } else if !tally_fits(
            self.total_votes_for as int,
            self.total_votes_against as int,
            settings.quorum as int,
        ) {
            Err(GovernanceError::Overflow)
        } else if !approved(
            self.total_votes_for as int,
            self.total_votes_against as int,
            settings.quorum as int,
            settings.threshold as int,
        ) {
            Ok(Proposal { status: ProposalStatus::Defeated, ..self })
        } else if timestamp + timelock > u64::MAX {
            Err(GovernanceError::Overflow)
        } else {
            Ok(
                Proposal {
                    status: ProposalStatus::Queued,
                    eta: (timestamp + timelock) as u64,
                    ..self
                },
            )
        }
    }

    /// The proposal after `execute`, or the reason why it stays as it is.
    pub open spec fn executed(self, timestamp: u64) -> Result<Proposal, GovernanceError> {
        if self.status != ProposalStatus::Queued {
            Err(GovernanceError::NotQueued)
        } else if timestamp < self.eta {
            Err(GovernanceError::TimelockNotExpired)
        } else {
            Ok(Proposal { status: ProposalStatus::Executed, ..self })
        }
    }

    /// The proposal that `propose` creates as the one after `count`
    /// earlier ones, or the reason why none is created.
    pub open spec fn proposed(
        count: u32,
        proposer: Address,
        action: GovernanceAction,
        category: ProposalCategory,
        description: String,
        balance: i128,
        settings: Option<CategorySettings>,
        sequence: u32,
    ) -> Result<Proposal, GovernanceError> {
        if balance < MIN_PROPOSE_POWER {
            Err(GovernanceError::InsufficientPower)
        } else if settings is None {
            Err(GovernanceError::NotFound)
        } else if count == u32::MAX {
            Err(GovernanceError::Overflow)
        } else {
            Proposal::opened(
                (count + 1) as u32,
                proposer,
                action,
                category,
                description,
                settings->Some_0.voting_period,
                sequence,
            )
        }
    }

    /// The proposal and its ballots after a vote, or the reason why both
    /// stay as they are.
    pub open spec fn voted(
        self,
        ballots: Seq<Ballot>,
        voter: Address,
        support: bool,
        use_quadratic: bool,
        voter_balance: i128,
        claims: Seq<Claim>,
        delegatees: Seq<Option<Address>>,
        sequence: u32,
    ) -> Result<(Proposal, Seq<Ballot>), GovernanceError> {
        if sequence > self.end_ledger {
            Err(GovernanceError::VotingClosed)
        } else if !delegatees_valid(voter, delegatees) {
            Err(GovernanceError::InvalidDelegate)
        } else {
            match self.credited(
                support,
                power_added(ballots, voter, support, use_quadratic, voter_balance, claims),
            ) {
                Ok(proposal) => Ok(
                    (
                        proposal,
                        ballots_after(ballots, voter, support, use_quadratic, voter_balance, claims),
                    ),
                ),
                Err(error) => Err(error),
            }
        }
    }

    /// The proposal after `close`, or the reason why it stays as it is.
    pub open spec fn closed(
        self,
        settings: Option<CategorySettings>,
        timelock: Option<u64>,
        sequence: u32,
        timestamp: u64,
    ) -> Result<Proposal, GovernanceError> {
        if sequence <= self.end_ledger {
            Err(GovernanceError::VotingActive)
        } else if self.status != ProposalStatus::Active {
            Err(GovernanceError::NotActive)
        } else if settings is None || timelock is None {
            Err(GovernanceError::NotFound)
        } else {
            self.queued(settings->Some_0, timelock->Some_0, sequence, timestamp)
        }
    }

    /// A copy of the proposal.
    pub fn duplicate(&self) -> (copy: Proposal)
        ensures
            copy == *self,
    {
        Proposal {
            id: self.id,
            proposer: self.proposer,
            action: self.action.duplicate(),
            category: self.category,
            description: self.description.clone(),
            start_ledger: self.start_ledger,
            end_ledger: self.end_ledger,
            total_votes_for: self.total_votes_for,
            total_votes_against: self.total_votes_against,
            status: self.status,
            eta: self.eta,
        }
    }

    /// Opens a proposal at ledger `sequence`: active, with an empty tally and
    /// a voting window of `voting_period` ledgers.
    pub fn open(
        id: u32,
        proposer: Address,
        action: GovernanceAction,
        category: ProposalCategory,
        description: String,
        voting_period: u32,
        sequence: u32,
    ) -> (proposal: Result<Proposal, GovernanceError>)
        ensures
            proposal == Proposal::opened(
                id,
                proposer,
                action,
                category,
                description,
                voting_period,
                sequence,
            ),
    {
        match sequence.checked_add(voting_period) {
            None => Err(GovernanceError::Overflow),
            Some(end_ledger) => Ok(
                Proposal {
                    id,
                    proposer,
                    action,
                    category,
                    description,
                    start_ledger: sequence,
                    end_ledger,
                    total_votes_for: 0,
                    total_votes_against: 0,
                    status: ProposalStatus::Active,
                    eta: 0,
                },
            ),
        }
    }

    /// Creates the proposal after `count` earlier ones, for a proposer that
    /// holds `balance`, under the rules `settings` of its category, at ledger
    /// `sequence`. Its id is `count + 1`.
    pub fn propose(
        count: u32,
        proposer: Address,
        action: GovernanceAction,
        category: ProposalCategory,
        description: String,
        balance: i128,
        settings: Option<CategorySettings>,
        sequence: u32,
    ) -> (proposal: Result<Proposal, GovernanceError>)
        ensures
            proposal == Proposal::proposed(
                count,
                proposer,
                action,
                category,
                description,
                balance,
                settings,
                sequence,
            ),
    {
        if balance < MIN_PROPOSE_POWER {
            return Err(GovernanceError::InsufficientPower);
        }
        let voting_period: u32 = match settings {
            Some(settings) => settings.voting_period,
            None => {
                return Err(GovernanceError::NotFound);
            },
        };
        if count == u32::MAX {
            return Err(GovernanceError::Overflow);
        }
        Proposal::open(count + 1, proposer, action, category, description, voting_period, sequence)
    }

    /// Counts a vote cast at ledger `sequence` by `voter`, who holds
    /// `voter_balance`, and by the delegators it claims, each of whom has the
    /// delegatee given at its place in `delegatees`. The ballots gain a record
    /// for each address not counted before, and the tally gains their powers.
    /// A refused vote changes neither the proposal nor the ballots.
    pub fn vote(
        &mut self,
        ballots: &mut Vec<Ballot>,
        voter: Address,
        support: bool,
        use_quadratic: bool,
        voter_balance: i128,
        claims: &Vec<Claim>,
        delegatees: &Vec<Option<Address>>,
        sequence: u32,
    ) -> (done: Result<(), GovernanceError>)
        requires
            old(self).wf(),
            voter_balance >= 0,
            balances_non_negative(claims@),
        ensures
            match old(self).voted(
                old(ballots)@,
                voter,
                support,
                use_quadratic,
                voter_balance,
                claims@,
                delegatees@,
                sequence,
            ) {
                Ok(after) => done is Ok && *final(self) == after.0 && final(ballots)@ == after.1,
                Err(error) => done == Err::<(), GovernanceError>(error) && *final(self) == *old(self)
                    && final(ballots)@ == old(ballots)@,
            },
            final(self).wf(),
            distinct(old(ballots)@) ==> distinct(final(ballots)@),
            non_negative(old(ballots)@) ==> non_negative(final(ballots)@),
            done is Ok ==> amount_cast(final(ballots)@, !support) == amount_cast(
                old(ballots)@,
                !support,
            ) && power_added(
                old(ballots)@,
                voter,
                support,
                use_quadratic,
                voter_balance,
                claims@,
            ) >= 0,
    {
        if !self.accepts_votes(sequence) {
            return Err(GovernanceError::VotingClosed);
        }
        match check_delegatees(voter, delegatees) {
            Ok(()) => {},
            Err(error) => {
                return Err(error);
            },
        }
        let mut staged: Vec<Ballot> = copy_ballots(ballots);
        let power: i128 = match cast_votes(
            &mut staged,
            voter,
            support,
            use_quadratic,
            voter_balance,
            claims,
        ) {
            Some(power) => power,
            None => {
                return Err(GovernanceError::Overflow);
            },
        };
        match self.credit(support, power) {
            Ok(()) => {},
            Err(error) => {
                return Err(error);
            },
        }
        *ballots = staged;
        Ok(())
    }

    /// Closes the vote of an active proposal after its voting window, under
    /// the rules `settings` of its category and with the timelock of the
    /// engine; `NotFound` where either is missing.
    pub fn close(
        &mut self,
        settings: Option<CategorySettings>,
        timelock: Option<u64>,
        sequence: u32,
        timestamp: u64,
    ) -> (done: Result<(), GovernanceError>)
        requires
            old(self).wf(),
        ensures
            match old(self).closed(settings, timelock, sequence, timestamp) {
                Ok(after) => done is Ok && *final(self) == after,
                Err(error) => done == Err::<(), GovernanceError>(error) && *final(self) == *old(self),
            },
            final(self).wf(),
    {
        if self.accepts_votes(sequence) {
            return Err(GovernanceError::VotingActive);
        }
        match self.check_active() {
            Ok(()) => {},
            Err(error) => {
                return Err(error);
            },
        }
        match (settings, timelock) {
            (Some(settings), Some(timelock)) => self.queue(&settings, timelock, sequence, timestamp),
            _ => Err(GovernanceError::NotFound),
        }
    }

    /// Accepts a proposal whose vote was not closed yet.
    pub fn check_active(&self) -> (verdict: Result<(), GovernanceError>)
        ensures
            verdict == if self.status == ProposalStatus::Active {
                Ok::<(), GovernanceError>(())
            } else {
                Err(GovernanceError::NotActive)
            },
    {
        match self.status {
            ProposalStatus::Active => Ok(()),
            _ => Err(GovernanceError::NotActive),
        }
    }

    /// Whether a vote cast at ledger `sequence` is still in time.
    pub fn accepts_votes(&self, sequence: u32) -> (open: bool)
        ensures
            open == (sequence <= self.end_ledger),
    {
        sequence <= self.end_ledger
    }

    /// Adds `power` to the side voted for.
    pub fn credit(&mut self, support: bool, power: i128) -> (done: Result<(), GovernanceError>)
        requires
            old(self).wf(),
            power >= 0,
        ensures
            match old(self).credited(support, power as int) {
                Ok(after) => done is Ok && *final(self) == after,
                Err(error) => done == Err::<(), GovernanceError>(error) && *final(self) == *old(self),
            },
            final(self).wf(),
    {
        if support {
            match self.total_votes_for.checked_add(power) {
                Some(sum) => {
                    self.total_votes_for = sum;
                    Ok(())
                },
                None => Err(GovernanceError::Overflow),
            }
        } else {
            match self.total_votes_against.checked_add(power) {
                Some(sum) => {
                    self.total_votes_against = sum;
                    Ok(())
                },
                None => Err(GovernanceError::Overflow),
            }
        }
    }

    /// Closes the vote of an active proposal: after the voting window the
    /// proposal is queued with `eta = timestamp + timelock` where its tally is
    /// approved under `settings`, and defeated where it is not.
    pub fn queue(
        &mut self,
        settings: &CategorySettings,
        timelock: u64,
        sequence: u32,
        timestamp: u64,
    ) -> (done: Result<(), GovernanceError>)
        requires
            old(self).wf(),
        ensures
            match old(self).queued(*settings, timelock, sequence, timestamp) {
                Ok(after) => done is Ok && *final(self) == after,
                Err(error) => done == Err::<(), GovernanceError>(error) && *final(self) == *old(self),
            },
            final(self).wf(),
    {
        if sequence <= self.end_ledger {
            return Err(GovernanceError::VotingActive);
        }
        match self.check_active() {
            Ok(()) => {},
            Err(error) => {
                return Err(error);
            },
        }
        match evaluate(self.total_votes_for, self.total_votes_against, settings) {
            Err(error) => Err(error),
            Ok(false) => {
                self.status = ProposalStatus::Defeated;
                Ok(())
            },
            Ok(true) => match timestamp.checked_add(timelock) {
                None => Err(GovernanceError::Overflow),
                Some(eta) => {
                    self.status = ProposalStatus::Queued;
                    self.eta = eta;
                    Ok(())
                },
            },
        }
    }

    /// Executes a queued proposal whose timelock has run out, and hands back
    /// its action.
    pub fn execute(&mut self, timestamp: u64) -> (action: Result<GovernanceAction, GovernanceError>)
        ensures
            match old(self).executed(timestamp) {
                Ok(after) => action == Ok::<GovernanceAction, GovernanceError>(after.action)
                    && *final(self) == after,
                Err(error) => action == Err::<GovernanceAction, GovernanceError>(error) && *final(self) == *old(self),
            },
    {
        match self.status {
            ProposalStatus::Queued => {},
            _ => {
                return Err(GovernanceError::NotQueued);
            },
        }
        if timestamp < self.eta {
            return Err(GovernanceError::TimelockNotExpired);
        }
        self.status = ProposalStatus::Executed;
        Ok(self.action.duplicate())
    }
}

} // verus!
