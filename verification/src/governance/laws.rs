//! What holds of the engine whatever it is asked to do.
use crate::address::Address;
use crate::governance::ballots::{
    amount_cast,
    balances_non_negative,
    cast,
    cast_all,
    distinct,
    lemma_cast,
    new_record,
    non_negative,
    record_of,
    Ballot,
    Claim,
};
use crate::governance::lifecycle::approved;
use crate::governance::model::State;
use crate::governance::power::{lemma_floor_sqrt_bounds, power_of};
use crate::governance::storage::{
    CategorySettings,
    GovernanceAction,
    GovernanceError,
    ProposalCategory,
    ProposalStatus,
};
use vstd::prelude::*;

verus! {

/// Every claimed delegator has a record among the ballots.
pub open spec fn all_recorded(ballots: Seq<Ballot>, claims: Seq<Claim>) -> bool {
    forall|i: int| 0 <= i < claims.len() ==> record_of(ballots, (#[trigger] claims[i]).delegator) is Some
}

/// Linear power is the balance; quadratic power is the floor of its square
/// root: the largest number whose square does not exceed the balance.
pub proof fn law_voting_power(balance: int)
    requires
        balance >= 0,
    ensures
        power_of(balance, false) == balance,
        power_of(balance, true) >= 0,
        power_of(balance, true) * power_of(balance, true) <= balance,
        balance < (power_of(balance, true) + 1) * (power_of(balance, true) + 1),
{
    lemma_floor_sqrt_bounds(balance);
}

/// The first proposal gets id 1, and each later one the id after the one
/// before it: a creation adds one proposal, whose id is the new count, and
/// keeps every earlier proposal under its id.
pub proof fn law_ids_are_sequential(
    state: State,
    proposer: Address,
    action: GovernanceAction,
    category: ProposalCategory,
    description: String,
    balance: i128,
    sequence: u32,
)
    requires
        state.inv(),
        state.create_proposal(proposer, action, category, description, balance, sequence) is Ok,
    ensures
        State::empty().proposal_count() == 0,
        ({
            let after = state.create_proposal(
                proposer,
                action,
                category,
                description,
                balance,
                sequence,
            )->Ok_0;
            let id = (state.proposal_count() + 1) as u32;
            &&& after.inv()
            &&& after.proposal_count() == state.proposal_count() + 1
            &&& after.has_proposal(id)
            &&& !state.has_proposal(id)
            &&& after.proposal(id).id == id
            &&& forall|earlier: u32| #[trigger]
                state.has_proposal(earlier) ==> after.has_proposal(earlier) && after.proposal(
                    earlier,
                ) == state.proposal(earlier)
        }),
{
    let after = state.create_proposal(
        proposer,
        action,
        category,
        description,
        balance,
        sequence,
    )->Ok_0;
    assert forall|index: int| 0 <= index < after.proposals.len() implies #[trigger] after.entry_inv(
        index,
    ) by {
        if index < state.proposals.len() {
            assert(state.entry_inv(index));
        }
    }
}

/// No operation but a creation changes how many proposals there are, or
/// the id of any of them: an id is never given up and never used again.
pub proof fn law_ids_are_kept(
    state: State,
    voter: Address,
    id: u32,
    support: bool,
    use_quadratic: bool,
    voter_balance: i128,
    claims: Seq<Claim>,
    sequence: u32,
    timestamp: u64,
)
    requires
        state.inv(),
    ensures
        match state.vote(voter, id, support, use_quadratic, voter_balance, claims, sequence) {
            Ok(after) => after.proposal_count() == state.proposal_count() && forall|other: u32|
                #[trigger]
                state.has_proposal(other) ==> after.proposal(other).id == other,
            Err(_) => true,
        },
        match state.queue(id, sequence, timestamp) {
            Ok(after) => after.proposal_count() == state.proposal_count() && forall|other: u32|
                #[trigger]
                state.has_proposal(other) ==> after.proposal(other).id == other,
            Err(_) => true,
        },
        match state.execute(id, timestamp) {
            Ok(after) => after.proposal_count() == state.proposal_count() && forall|other: u32|
                #[trigger]
                state.has_proposal(other) ==> after.proposal(other).id == other,
            Err(_) => true,
        },
        state.delegate(voter, voter).proposals == state.proposals,
        state.revoke_delegation(voter).proposals == state.proposals,
        forall|settings: CategorySettings|
            match #[trigger] state.set_category_settings(voter, id, settings) {
                Ok(after) => after.proposals == state.proposals,
                Err(_) => true,
            },
        forall|admin: Address, token: Address, emergency: Address|
            match #[trigger] state.init(admin, token, timestamp, emergency) {
                Ok(after) => after.proposals == state.proposals,
                Err(_) => true,
            },
{
    assert forall|other: u32| #[trigger] state.has_proposal(other) implies state.proposal(other).id
        == other by {
        assert(state.entry_inv(other - 1));
    }
}

/// Closing the vote on a proposal while its voting window is open fails
/// with `VotingActive`.
pub proof fn law_queue_waits_for_the_end(state: State, id: u32, sequence: u32, timestamp: u64)
    requires
        state.has_proposal(id),
        sequence <= state.proposal(id).end_ledger,
    ensures
        state.queue(id, sequence, timestamp) == Err::<State, GovernanceError>(
            GovernanceError::VotingActive,
        ),
{
}

/// Executing a proposal that is not queued fails with `NotQueued`;
/// executing a queued one before its `eta` fails with `TimelockNotExpired`.
/// A proposal becomes executed in no other way than by executing a queued
/// proposal at or after its `eta`.
pub proof fn law_execute_needs_queue_and_time(state: State, id: u32, timestamp: u64)
    requires
        state.has_proposal(id),
    ensures
        state.proposal(id).status != ProposalStatus::Queued ==> state.execute(id, timestamp)
            == Err::<State, GovernanceError>(GovernanceError::NotQueued),
        state.proposal(id).status == ProposalStatus::Queued && timestamp < state.proposal(id).eta
            ==> state.execute(id, timestamp) == Err::<State, GovernanceError>(
            GovernanceError::TimelockNotExpired,
        ),
        state.execute(id, timestamp) is Ok ==> state.proposal(id).status == ProposalStatus::Queued
            && timestamp >= state.proposal(id).eta && (state.execute(id, timestamp)->Ok_0).proposal(
            id,
        ).status == ProposalStatus::Executed,
{
}

/// A tally below the quorum is never approved, whatever share is in favour.
pub proof fn law_quorum_is_required(
    votes_for: int,
    votes_against: int,
    quorum: int,
    threshold: int,
)
    requires
        votes_for + votes_against < quorum,
    ensures
        !approved(votes_for, votes_against, quorum, threshold),
{
}

/// One cast keeps every record that was there, and leaves the address
/// with a record.
pub proof fn lemma_cast_keeps_records(
    ballots: Seq<Ballot>,
    address: Address,
    caster: Address,
    support: bool,
    quadratic: bool,
    balance: i128,
    other: Address,
)
    ensures
        record_of(cast(ballots, address, caster, support, quadratic, balance), address) is Some,
        record_of(ballots, other) is Some ==> record_of(
            cast(ballots, address, caster, support, quadratic, balance),
            other,
        ) == record_of(ballots, other),
{
    let after = cast(ballots, address, caster, support, quadratic, balance);
    if record_of(ballots, address) is None {
        assert(after.drop_last() =~= ballots);
    }
}

/// Casting for a list of claims keeps every record that was there.
pub proof fn lemma_cast_all_keeps_records(
    ballots: Seq<Ballot>,
    caster: Address,
    support: bool,
    quadratic: bool,
    claims: Seq<Claim>,
    other: Address,
)
    requires
        record_of(ballots, other) is Some,
    ensures
        record_of(cast_all(ballots, caster, support, quadratic, claims), other) == record_of(
            ballots,
            other,
        ),
    decreases claims.len(),
{
    if claims.len() > 0 {
        lemma_cast_all_keeps_records(
            ballots,
            caster,
            support,
            quadratic,
            claims.drop_last(),
            other,
        );
        lemma_cast_keeps_records(
            cast_all(ballots, caster, support, quadratic, claims.drop_last()),
            claims.last().delegator,
            caster,
            support,
            quadratic,
            claims.last().balance,
            other,
        );
    }
}

/// After casting for a list of claims every claimed delegator has a record.
pub proof fn lemma_cast_all_records_claims(
    ballots: Seq<Ballot>,
    caster: Address,
    support: bool,
    quadratic: bool,
    claims: Seq<Claim>,
)
    ensures
        all_recorded(cast_all(ballots, caster, support, quadratic, claims), claims),
    decreases claims.len(),
{
    if claims.len() > 0 {
        let front = claims.drop_last();
        let middle = cast_all(ballots, caster, support, quadratic, front);
        let after = cast_all(ballots, caster, support, quadratic, claims);
        lemma_cast_all_records_claims(ballots, caster, support, quadratic, front);
        assert forall|i: int| 0 <= i < claims.len() implies record_of(
            after,
            (#[trigger] claims[i]).delegator,
        ) is Some by {
            lemma_cast_keeps_records(
                middle,
                claims.last().delegator,
                caster,
                support,
                quadratic,
                claims.last().balance,
                claims[i].delegator,
            );
            if i < claims.len() - 1 {
                assert(front[i] == claims[i]);
            }
        }
    }
}

/// Casting for claims that all have a record adds nothing.
pub proof fn lemma_cast_all_of_recorded(
    ballots: Seq<Ballot>,
    caster: Address,
    support: bool,
    quadratic: bool,
    claims: Seq<Claim>,
)
    requires
        all_recorded(ballots, claims),
    ensures
        cast_all(ballots, caster, support, quadratic, claims) == ballots,
    decreases claims.len(),
{
    if claims.len() > 0 {
        let front = claims.drop_last();
        assert forall|i: int| 0 <= i < front.len() implies record_of(
            ballots,
            (#[trigger] front[i]).delegator,
        ) is Some by {
            assert(front[i] == claims[i]);
        }
        lemma_cast_all_of_recorded(ballots, caster, support, quadratic, front);
        assert(record_of(ballots, claims[claims.len() - 1].delegator) is Some);
    }
}

/// A vote never changes or removes a record: whoever has a record on
/// a proposal keeps it, with its first `support` and `amount`. And after
/// a vote the voter and each claimed delegator have a record.
pub proof fn law_records_are_final(
    state: State,
    voter: Address,
    id: u32,
    support: bool,
    use_quadratic: bool,
    voter_balance: i128,
    claims: Seq<Claim>,
    sequence: u32,
    address: Address,
)
    requires
        state.inv(),
        state.vote(voter, id, support, use_quadratic, voter_balance, claims, sequence) is Ok,
    ensures
        ({
            let after = state.vote(
                voter,
                id,
                support,
                use_quadratic,
                voter_balance,
                claims,
                sequence,
            )->Ok_0;
            &&& state.vote_record(id, address) is Some ==> after.vote_record(id, address)
                == state.vote_record(id, address)
            &&& after.vote_record(id, voter) is Some
            &&& forall|i: int|
                0 <= i < claims.len() ==> after.vote_record(id, (#[trigger] claims[i]).delegator) is Some
        }),
{
    let before = state.ballots[id - 1];
    let own = cast(before, voter, voter, support, use_quadratic, voter_balance);
    lemma_cast_keeps_records(before, voter, voter, support, use_quadratic, voter_balance, address);
    lemma_cast_all_keeps_records(own, voter, support, use_quadratic, claims, voter);
    if record_of(before, address) is Some {
        lemma_cast_all_keeps_records(own, voter, support, use_quadratic, claims, address);
    }
    lemma_cast_all_records_claims(own, voter, support, use_quadratic, claims);
    let after = state.vote(voter, id, support, use_quadratic, voter_balance, claims, sequence)->Ok_0;
    assert(after.ballots[id - 1] == cast_all(own, voter, support, use_quadratic, claims));
}

/// Voting again is a no-op: a vote by a voter who has a record on the
/// proposal, claiming only delegators that have one too, leaves the state
/// as it was, tallies and records alike, whatever side, mode and balances it
/// names. In particular, repeating a vote that succeeded changes nothing.
pub proof fn law_second_vote_changes_nothing(
    state: State,
    voter: Address,
    id: u32,
    support: bool,
    use_quadratic: bool,
    voter_balance: i128,
    claims: Seq<Claim>,
    sequence: u32,
)
    requires
        state.inv(),
        state.vote_record(id, voter) is Some,
        forall|i: int|
            0 <= i < claims.len() ==> state.vote_record(id, (#[trigger] claims[i]).delegator) is Some,
    ensures
        match state.vote(voter, id, support, use_quadratic, voter_balance, claims, sequence) {
            Ok(after) => after == state,
            Err(_) => true,
        },
{
    if state.vote(voter, id, support, use_quadratic, voter_balance, claims, sequence) is Ok {
        let after = state.vote(
            voter,
            id,
            support,
            use_quadratic,
            voter_balance,
            claims,
            sequence,
        )->Ok_0;
        let before = state.ballots[id - 1];
        assert(cast(before, voter, voter, support, use_quadratic, voter_balance) == before);
        lemma_cast_all_of_recorded(before, voter, support, use_quadratic, claims);
        assert(state.entry_inv(id - 1));
        assert(after.proposals =~= state.proposals);
        assert(after.ballots =~= state.ballots);
        assert(after =~= state);
    }
}

/// Casting for a list of claims with non-negative balances adds to the side
/// voted for, leaves the other side as it was, and keeps the ballots
/// distinct and their amounts non-negative.
pub proof fn lemma_cast_all_amounts(
    ballots: Seq<Ballot>,
    caster: Address,
    support: bool,
    quadratic: bool,
    claims: Seq<Claim>,
)
    requires
        balances_non_negative(claims),
    ensures
        ({
            let after = cast_all(ballots, caster, support, quadratic, claims);
            &&& distinct(ballots) ==> distinct(after)
            &&& non_negative(ballots) ==> non_negative(after)
            &&& amount_cast(after, !support) == amount_cast(ballots, !support)
            &&& amount_cast(after, support) >= amount_cast(ballots, support)
        }),
    decreases claims.len(),
{
    if claims.len() > 0 {
        let front = claims.drop_last();
        assert forall|i: int| 0 <= i < front.len() implies (#[trigger] front[i]).balance >= 0 by {
            assert(front[i] == claims[i]);
        }
        lemma_cast_all_amounts(ballots, caster, support, quadratic, front);
        lemma_cast(
            cast_all(ballots, caster, support, quadratic, front),
            claims.last().delegator,
            caster,
            support,
            quadratic,
            claims.last().balance,
        );
    }
}

/// A vote only ever adds: the tally of the side voted for does not
/// decrease, the tally of the other side stays, and after the vote each
/// tally is still the sum of the amounts recorded on its side, with no address
/// recorded twice.
pub proof fn law_votes_only_add(
    state: State,
    voter: Address,
    id: u32,
    support: bool,
    use_quadratic: bool,
    voter_balance: i128,
    claims: Seq<Claim>,
    sequence: u32,
)
    requires
        state.inv(),
        voter_balance >= 0,
        balances_non_negative(claims),
        state.vote(voter, id, support, use_quadratic, voter_balance, claims, sequence) is Ok,
    ensures
        ({
            let after = state.vote(
                voter,
                id,
                support,
                use_quadratic,
                voter_balance,
                claims,
                sequence,
            )->Ok_0;
            let was = state.proposal(id);
            let is = after.proposal(id);
            &&& after.inv()
            &&& support ==> is.total_votes_for >= was.total_votes_for && is.total_votes_against
                == was.total_votes_against
            &&& !support ==> is.total_votes_against >= was.total_votes_against
                && is.total_votes_for == was.total_votes_for
            &&& is.total_votes_for + is.total_votes_against == amount_cast(
                after.ballots[id - 1],
                true,
            ) + amount_cast(after.ballots[id - 1], false)
        }),
{
    let after = state.vote(voter, id, support, use_quadratic, voter_balance, claims, sequence)->Ok_0;
    let before = state.ballots[id - 1];
    let own = cast(before, voter, voter, support, use_quadratic, voter_balance);
    assert(state.entry_inv(id - 1));
    lemma_cast(before, voter, voter, support, use_quadratic, voter_balance);
    lemma_cast_all_amounts(own, voter, support, use_quadratic, claims);
    assert(after.entry_inv(id - 1));
    state.lemma_inv_update(after, id - 1);
}

/// Closing a vote and executing keep the invariant, and with it the tallies
/// and the records: neither changes a tally or a ballot.
pub proof fn law_closing_keeps_the_tally(state: State, id: u32, sequence: u32, timestamp: u64)
    requires
        state.inv(),
    ensures
        match state.queue(id, sequence, timestamp) {
            Ok(after) => after.inv() && after.ballots == state.ballots && after.proposal(
                id,
            ).total_votes_for == state.proposal(id).total_votes_for && after.proposal(
                id,
            ).total_votes_against == state.proposal(id).total_votes_against,
            Err(_) => true,
        },
        match state.execute(id, timestamp) {
            Ok(after) => after.inv() && after.ballots == state.ballots && after.proposal(
                id,
            ).total_votes_for == state.proposal(id).total_votes_for && after.proposal(
                id,
            ).total_votes_against == state.proposal(id).total_votes_against,
            Err(_) => true,
        },
{
    if state.queue(id, sequence, timestamp) is Ok {
        let after = state.queue(id, sequence, timestamp)->Ok_0;
        assert(state.entry_inv(id - 1));
        assert(after.ballots =~= state.ballots.update(id - 1, after.ballots[id - 1]));
        state.lemma_inv_update(after, id - 1);
    }
    if state.execute(id, timestamp) is Ok {
        let after = state.execute(id, timestamp)->Ok_0;
        assert(state.entry_inv(id - 1));
        assert(after.ballots =~= state.ballots.update(id - 1, after.ballots[id - 1]));
        state.lemma_inv_update(after, id - 1);
    }
}

/// Only an active proposal is closed, and it is closed once: it becomes
/// queued with the time of the call plus the timelock as its `eta`, or
/// defeated with an `eta` of zero. Before that its `eta` is zero.
pub proof fn law_eta_is_set_by_queue(state: State, id: u32, sequence: u32, timestamp: u64)
    requires
        state.inv(),
        state.queue(id, sequence, timestamp) is Ok,
    ensures
        state.config is Some,
        state.proposal(id).status == ProposalStatus::Active,
        state.proposal(id).eta == 0,
        sequence > state.proposal(id).end_ledger,
        ({
            let after = state.queue(id, sequence, timestamp)->Ok_0.proposal(id);
            &&& after.status == ProposalStatus::Queued || after.status == ProposalStatus::Defeated
            &&& after.status == ProposalStatus::Queued ==> after.eta == timestamp
                + state.config->Some_0.timelock_duration
            &&& after.status == ProposalStatus::Defeated ==> after.eta == 0
        }),
{
    assert(state.entry_inv(id - 1));
}

/// A positive `eta` belongs to a proposal that is queued or executed: an
/// active or a defeated proposal has an `eta` of zero. Under a timelock that
/// is not zero the converse holds too: `eta` is positive if and only if the
/// proposal is queued or executed.
pub proof fn law_eta_is_zero_until_queued(state: State, id: u32)
    requires
        state.inv(),
        state.has_proposal(id),
    ensures
        state.proposal(id).eta > 0 ==> state.proposal(id).status == ProposalStatus::Queued
            || state.proposal(id).status == ProposalStatus::Executed,
        state.proposal(id).status == ProposalStatus::Active || state.proposal(id).status
            == ProposalStatus::Defeated ==> state.proposal(id).eta == 0,
        state.has_timelock() ==> (state.proposal(id).eta > 0 <==> state.proposal(id).status
            == ProposalStatus::Queued || state.proposal(id).status == ProposalStatus::Executed),
{
    assert(state.entry_inv(id - 1));
}

/// Defeated and executed are final: no operation changes the status or the
/// `eta` of a defeated or executed proposal. It is itself neither queued nor
/// executed again; a vote, on it or on another proposal, leaves its status
/// and `eta` alone; and every other operation leaves the whole proposal as it
/// was.
pub proof fn law_terminal_states_are_final(
    state: State,
    id: u32,
    target: u32,
    voter: Address,
    support: bool,
    use_quadratic: bool,
    voter_balance: i128,
    claims: Seq<Claim>,
    sequence: u32,
    timestamp: u64,
)
    requires
        state.inv(),
        state.has_proposal(id),
        state.proposal(id).status == ProposalStatus::Defeated || state.proposal(id).status
            == ProposalStatus::Executed,
    ensures
        state.queue(id, sequence, timestamp) is Err,
        state.execute(id, timestamp) is Err,
        match state.vote(voter, target, support, use_quadratic, voter_balance, claims, sequence) {
            Ok(after) => after.proposal(id).status == state.proposal(id).status && after.proposal(
                id,
            ).eta == state.proposal(id).eta,
            Err(_) => true,
        },
        match state.queue(target, sequence, timestamp) {
            Ok(after) => after.proposal(id) == state.proposal(id),
            Err(_) => true,
        },
        match state.execute(target, timestamp) {
            Ok(after) => after.proposal(id) == state.proposal(id),
            Err(_) => true,
        },
        state.delegate(voter, voter).proposal(id) == state.proposal(id),
        state.revoke_delegation(voter).proposal(id) == state.proposal(id),
        forall|settings: CategorySettings|
            match #[trigger] state.set_category_settings(voter, target, settings) {
                Ok(after) => after.proposal(id) == state.proposal(id),
                Err(_) => true,
            },
        forall|admin: Address, token: Address, emergency: Address|
            match #[trigger] state.init(admin, token, timestamp, emergency) {
                Ok(after) => after.proposal(id) == state.proposal(id),
                Err(_) => true,
            },
        forall|action: GovernanceAction, category: ProposalCategory, description: String|
            match #[trigger] state.create_proposal(
                voter,
                action,
                category,
                description,
                voter_balance,
                sequence,
            ) {
                Ok(after) => after.proposal(id) == state.proposal(id),
                Err(_) => true,
            },
{
}

/// A queued proposal keeps the `eta` that its queueing gave it: it is not
/// queued a second time, a vote leaves its status and `eta` alone, and
/// the only step it takes is to executed, with the same `eta`, at or after
/// that time.
pub proof fn law_queued_keeps_its_eta(
    state: State,
    id: u32,
    target: u32,
    voter: Address,
    support: bool,
    use_quadratic: bool,
    voter_balance: i128,
    claims: Seq<Claim>,
    sequence: u32,
    timestamp: u64,
)
    requires
        state.inv(),
        state.has_proposal(id),
        state.proposal(id).status == ProposalStatus::Queued,
    ensures
        state.queue(id, sequence, timestamp) is Err,
        match state.vote(voter, target, support, use_quadratic, voter_balance, claims, sequence) {
            Ok(after) => after.proposal(id).status == ProposalStatus::Queued && after.proposal(
                id,
            ).eta == state.proposal(id).eta,
            Err(_) => true,
        },
        match state.queue(target, sequence, timestamp) {
            Ok(after) => after.proposal(id) == state.proposal(id),
            Err(_) => true,
        },
        match state.execute(target, timestamp) {
            Ok(after) => if target == id {
                timestamp >= state.proposal(id).eta && after.proposal(id).status
                    == ProposalStatus::Executed && after.proposal(id).eta == state.proposal(id).eta
            } else {
                after.proposal(id) == state.proposal(id)
            },
            Err(_) => true,
        },
{
}

/// A first vote without claims adds exactly the voter's power to the side
/// voted for, and one record under the voter: the balance itself in linear
/// mode, the floor of its square root in quadratic mode.
pub proof fn law_own_vote(
    state: State,
    voter: Address,
    id: u32,
    support: bool,
    use_quadratic: bool,
    voter_balance: i128,
    sequence: u32,
)
    requires
        state.inv(),
        voter_balance >= 0,
        state.has_proposal(id),
        state.vote_record(id, voter) is None,
        state.vote(voter, id, support, use_quadratic, voter_balance, Seq::empty(), sequence) is Ok,
    ensures
        ({
            let after = state.vote(
                voter,
                id,
                support,
                use_quadratic,
                voter_balance,
                Seq::empty(),
                sequence,
            )->Ok_0;
            let power = power_of(voter_balance as int, use_quadratic);
            let was = state.proposal(id);
            let is = after.proposal(id);
            &&& is.total_votes_for == was.total_votes_for + if support {
                power
            } else {
                0
            }
            &&& is.total_votes_against == was.total_votes_against + if support {
                0
            } else {
                power
            }
            &&& after.vote_record(id, voter) == Some(
                new_record(voter, support, use_quadratic, voter_balance),
            )
            &&& after.ballots[id - 1] == state.ballots[id - 1].push(
                Ballot {
                    address: voter,
                    record: new_record(voter, support, use_quadratic, voter_balance),
                },
            )
        }),
{
    let before = state.ballots[id - 1];
    lemma_cast(before, voter, voter, support, use_quadratic, voter_balance);
    let own = cast(before, voter, voter, support, use_quadratic, voter_balance);
    assert(own.drop_last() =~= before);
    assert(cast_all(own, voter, support, use_quadratic, Seq::empty()) == own);
}

/// A first vote that claims one delegator who has no record either adds the
/// powers of both, each computed from its own balance, and records both under
/// the voter.
pub proof fn law_delegated_vote(
    state: State,
    voter: Address,
    id: u32,
    support: bool,
    use_quadratic: bool,
    voter_balance: i128,
    claim: Claim,
    sequence: u32,
)
    requires
        state.inv(),
        voter_balance >= 0,
        claim.balance >= 0,
        claim.delegator != voter,
        state.has_proposal(id),
        state.vote_record(id, voter) is None,
        state.vote_record(id, claim.delegator) is None,
        state.vote(voter, id, support, use_quadratic, voter_balance, seq![claim], sequence) is Ok,
    ensures
        ({
            let after = state.vote(
                voter,
                id,
                support,
                use_quadratic,
                voter_balance,
                seq![claim],
                sequence,
            )->Ok_0;
            let power = power_of(voter_balance as int, use_quadratic) + power_of(
                claim.balance as int,
                use_quadratic,
            );
            let was = state.proposal(id);
            let is = after.proposal(id);
            &&& state.delegatee(claim.delegator) == Some(voter)
            &&& is.total_votes_for == was.total_votes_for + if support {
                power
            } else {
                0
            }
            &&& is.total_votes_against == was.total_votes_against + if support {
                0
            } else {
                power
            }
            &&& after.vote_record(id, voter) == Some(
                new_record(voter, support, use_quadratic, voter_balance),
            )
            &&& after.vote_record(id, claim.delegator) == Some(
                new_record(voter, support, use_quadratic, claim.balance),
            )
        }),
{
    let before = state.ballots[id - 1];
    let claims = seq![claim];
    lemma_cast(before, voter, voter, support, use_quadratic, voter_balance);
    let own = cast(before, voter, voter, support, use_quadratic, voter_balance);
    assert(own.drop_last() =~= before);
    assert(claims.drop_last() =~= Seq::<Claim>::empty());
    assert(claims.last() == claim);
    assert(cast_all(own, voter, support, use_quadratic, claims.drop_last()) == own);
    assert(record_of(own, claim.delegator) is None);
    lemma_cast(own, claim.delegator, voter, support, use_quadratic, claim.balance);
    let both = cast(own, claim.delegator, voter, support, use_quadratic, claim.balance);
    assert(both.drop_last() =~= own);
    assert(cast_all(own, voter, support, use_quadratic, claims) == both);
    assert(claims[0] == claim);
}

/// A vote touches the tallies and the ballots of its proposal and nothing
/// else: the proposal keeps its status, its `eta`, its window, its proposer
/// and its action, and every other proposal stays as it was.
pub proof fn law_vote_keeps_the_lifecycle(
    state: State,
    voter: Address,
    id: u32,
    support: bool,
    use_quadratic: bool,
    voter_balance: i128,
    claims: Seq<Claim>,
    sequence: u32,
)
    requires
        state.inv(),
        state.vote(voter, id, support, use_quadratic, voter_balance, claims, sequence) is Ok,
    ensures
        ({
            let after = state.vote(
                voter,
                id,
                support,
                use_quadratic,
                voter_balance,
                claims,
                sequence,
            )->Ok_0;
            let was = state.proposal(id);
            let is = after.proposal(id);
            &&& sequence <= was.end_ledger
            &&& is.status == was.status
            &&& is.eta == was.eta
            &&& is.start_ledger == was.start_ledger
            &&& is.end_ledger == was.end_ledger
            &&& is.proposer == was.proposer
            &&& is.action == was.action
            &&& is.category == was.category
            &&& after.config == state.config
            &&& after.settings == state.settings
            &&& after.delegations == state.delegations
            &&& forall|other: u32|
                other != id && #[trigger] state.has_proposal(other) ==> after.proposal(other)
                    == state.proposal(other) && after.ballots[other - 1] == state.ballots[other - 1]
        }),
{
}

} // verus!
