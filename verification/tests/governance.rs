use contracts::address::Address;
use contracts::governance::ballots::{cast_votes, delegates_to, find_record, Ballot, Claim};
use contracts::governance::contract::GovernanceContract;
use contracts::governance::lifecycle::{
    authorize_admin, authorize_emergency, check_delegatees, evaluate, MIN_PROPOSE_POWER,
};
use contracts::governance::power::{isqrt, voting_power};
use contracts::governance::storage::{
    CategorySettings, GovernanceAction, GovernanceError, Proposal, ProposalCategory,
    ProposalStatus, VoteRecord,
};

fn address(id: u64) -> Address {
    Address { id }
}

fn engine(timelock: u64) -> GovernanceContract {
    let mut contract = GovernanceContract::new();
    contract
        .init(address(1), address(2), timelock, address(3))
        .unwrap();
    contract
}

fn fee_proposal(contract: &mut GovernanceContract, proposer: Address, sequence: u32) -> u32 {
    contract
        .create_proposal(
            proposer,
            GovernanceAction::FeeChange(100),
            ProposalCategory::FeeAdjustment,
            String::from("Desc"),
            500,
            sequence,
        )
        .unwrap()
}

#[test]
fn test_governance_lifecycle() {
    let admin = address(1);
    let emergency = address(2);
    let proposer = address(3);
    let voter1 = address(4);
    let voter2 = address(5);
    let token_addr = address(6);

    let proposer_balance: i128 = 500;
    let voter1_balance: i128 = 1000;
    let voter2_balance: i128 = 200;

    let mut sequence: u32 = 0;
    let mut timestamp: u64 = 0;

    let mut client = GovernanceContract::new();
    client.init(admin, token_addr, 100, emergency).unwrap();

    let action = GovernanceAction::ParameterChange(String::from("fee"), 50);
    let prop_id = client
        .create_proposal(
            proposer,
            action.clone(),
            ProposalCategory::ParameterUpdate,
            String::from("Increase fee to 50 bps"),
            proposer_balance,
            sequence,
        )
        .unwrap();

    assert_eq!(prop_id, 1);

    client
        .vote(voter1, prop_id, true, false, voter1_balance, vec![], sequence)
        .unwrap();
    client
        .vote(voter2, prop_id, false, false, voter2_balance, vec![], sequence)
        .unwrap();

    sequence += 101;

    client.queue(prop_id, sequence, timestamp).unwrap();
    assert_eq!(
        client.get_proposal(prop_id).unwrap().status,
        ProposalStatus::Queued
    );
    assert_eq!(client.get_proposal(prop_id).unwrap().eta, 100);

    timestamp += 101;

    let executed = client.execute(prop_id, timestamp).unwrap();
    assert_eq!(executed, action);
    assert_eq!(
        client.get_proposal(prop_id).unwrap().status,
        ProposalStatus::Executed
    );
}

#[test]
fn test_quadratic_voting() {
    let admin = address(1);
    let emergency = address(2);
    let proposer = address(3);
    let voter = address(4);
    let token_addr = address(5);

    let mut sequence: u32 = 0;

    let mut client = GovernanceContract::new();
    client.init(admin, token_addr, 100, emergency).unwrap();

    let action = GovernanceAction::FeeChange(100);
    let prop_id = client
        .create_proposal(
            proposer,
            action,
            ProposalCategory::FeeAdjustment,
            String::from("Desc"),
            500,
            sequence,
        )
        .unwrap();

    // sqrt(400) = 20
    client
        .vote(voter, prop_id, true, true, 400, vec![], sequence)
        .unwrap();
    assert_eq!(client.get_proposal(prop_id).unwrap().total_votes_for, 20);

    client.set_category_settings(admin, 1, 20, 50, 50).unwrap();

    // The window of 50 ledgers closes after ledger 50.
    sequence += 100;
    client.queue(prop_id, sequence, 0).unwrap();
    assert_eq!(
        client.get_proposal(prop_id).unwrap().status,
        ProposalStatus::Queued
    );
}

#[test]
fn test_delegation() {
    let admin = address(1);
    let emergency = address(2);
    let proposer = address(3);
    let delegator = address(4);
    let delegatee = address(5);
    let token_addr = address(6);

    let mut sequence: u32 = 0;

    let mut client = GovernanceContract::new();
    client.init(admin, token_addr, 100, emergency).unwrap();

    client.delegate(delegator, delegatee);

    let action = GovernanceAction::FeeChange(100);
    let prop_id = client
        .create_proposal(
            proposer,
            action,
            ProposalCategory::FeeAdjustment,
            String::from("Desc"),
            500,
            sequence,
        )
        .unwrap();

    let delegators = vec![Claim {
        delegator,
        balance: 1000,
    }];
    client
        .vote(delegatee, prop_id, true, false, 100, delegators, sequence)
        .unwrap();

    // Total power should be 1100
    assert_eq!(client.get_proposal(prop_id).unwrap().total_votes_for, 1100);
    assert_eq!(
        client.get_vote(prop_id, delegatee),
        Some(VoteRecord {
            voter: delegatee,
            support: true,
            amount: 100,
            is_quadratic: false
        })
    );
    assert_eq!(
        client.get_vote(prop_id, delegator),
        Some(VoteRecord {
            voter: delegatee,
            support: true,
            amount: 1000,
            is_quadratic: false
        })
    );

    client.set_category_settings(admin, 1, 1100, 50, 50).unwrap();

    sequence += 100;
    client.queue(prop_id, sequence, 0).unwrap();
    assert_eq!(
        client.get_proposal(prop_id).unwrap().status,
        ProposalStatus::Queued
    );
}

#[test]
fn test_emergency_procedures() {
    let admin = address(1);
    let emergency = address(2);
    let token_addr = address(3);

    let mut client = GovernanceContract::new();
    client.init(admin, token_addr, 100, emergency).unwrap();

    let action = GovernanceAction::EmergencyAction;
    assert_eq!(
        client.emergency_action(emergency, action),
        Ok(GovernanceAction::EmergencyAction)
    );
}

#[test]
fn emergency_action_is_refused_to_others() {
    let client = engine(100);
    assert_eq!(
        client.emergency_action(address(1), GovernanceAction::EmergencyAction),
        Err(GovernanceError::Unauthorized)
    );
    let fresh = GovernanceContract::new();
    assert_eq!(
        fresh.emergency_action(address(3), GovernanceAction::FeeChange(1)),
        Err(GovernanceError::Unauthorized)
    );
    assert_eq!(
        client.emergency_action(address(3), GovernanceAction::Upgrade(String::from("abc"))),
        Ok(GovernanceAction::Upgrade(String::from("abc")))
    );
}

#[test]
fn init_happens_once() {
    let mut client = engine(100);
    assert_eq!(
        client.init(address(7), address(8), 5, address(9)),
        Err(GovernanceError::AlreadyInitialized)
    );
    // The first configuration stays.
    assert!(client
        .emergency_action(address(3), GovernanceAction::EmergencyAction)
        .is_ok());
}

#[test]
fn square_roots_are_floors() {
    assert_eq!(isqrt(400), 20);
    assert_eq!(isqrt(0), 0);
    assert_eq!(isqrt(-5), 0);
    assert_eq!(isqrt(1), 1);
    assert_eq!(isqrt(2), 1);
    assert_eq!(isqrt(3), 1);
    assert_eq!(isqrt(4), 2);
    assert_eq!(isqrt(99), 9);
    assert_eq!(isqrt(100), 10);
    assert_eq!(isqrt(1_000_000_007), 31622);
    assert_eq!(isqrt(i128::MAX), 13043817825332782212);
    assert_eq!(GovernanceContract::sqrt(400), 20);
    let mut n: i128 = 0;
    while n < 5000 {
        let r = isqrt(n);
        assert!(r * r <= n && n < (r + 1) * (r + 1));
        n += 1;
    }
}

#[test]
fn power_is_linear_or_quadratic() {
    assert_eq!(voting_power(1000, false), 1000);
    assert_eq!(voting_power(400, true), 20);
    assert_eq!(voting_power(0, true), 0);
    assert_eq!(voting_power(0, false), 0);
}

#[test]
fn ids_count_up_from_one() {
    let mut client = engine(100);
    assert_eq!(fee_proposal(&mut client, address(4), 0), 1);
    assert_eq!(fee_proposal(&mut client, address(4), 0), 2);
    assert_eq!(fee_proposal(&mut client, address(5), 7), 3);
    assert_eq!(client.get_proposal(1).unwrap().id, 1);
    assert_eq!(client.get_proposal(3).unwrap().id, 3);
    assert_eq!(client.get_proposal(3).unwrap().start_ledger, 7);
    assert_eq!(client.get_proposal(3).unwrap().end_ledger, 57);
    assert_eq!(client.get_proposal(0).err(), Some(GovernanceError::NotFound));
    assert_eq!(client.get_proposal(4).err(), Some(GovernanceError::NotFound));
    // A refused creation uses up no id.
    assert_eq!(
        client.create_proposal(
            address(4),
            GovernanceAction::FeeChange(1),
            ProposalCategory::FeeAdjustment,
            String::from("x"),
            99,
            0
        ),
        Err(GovernanceError::InsufficientPower)
    );
    assert_eq!(fee_proposal(&mut client, address(4), 0), 4);
}

#[test]
fn creation_errors() {
    let mut fresh = GovernanceContract::new();
    assert_eq!(
        fresh.create_proposal(
            address(4),
            GovernanceAction::FeeChange(1),
            ProposalCategory::FeeAdjustment,
            String::from("x"),
            500,
            0
        ),
        Err(GovernanceError::NotFound)
    );
    let mut client = engine(100);
    assert_eq!(MIN_PROPOSE_POWER, 100);
    assert!(client
        .create_proposal(
            address(4),
            GovernanceAction::FeeChange(1),
            ProposalCategory::Emergency,
            String::from("x"),
            100,
            0
        )
        .is_ok());
    assert_eq!(client.get_proposal(1).unwrap().end_ledger, 20);
    assert_eq!(
        client.create_proposal(
            address(4),
            GovernanceAction::FeeChange(1),
            ProposalCategory::ProtocolUpgrade,
            String::from("x"),
            500,
            u32::MAX - 99
        ),
        Err(GovernanceError::Overflow)
    );
    assert_eq!(
        client
            .create_proposal(
                address(4),
                GovernanceAction::FeeChange(1),
                ProposalCategory::ProtocolUpgrade,
                String::from("x"),
                500,
                u32::MAX - 100
            )
            .unwrap(),
        2
    );
    assert_eq!(client.get_proposal(2).unwrap().end_ledger, u32::MAX);
}

#[test]
fn queue_waits_for_the_end() {
    let mut client = engine(100);
    let id = fee_proposal(&mut client, address(4), 10);
    client.vote(address(5), id, true, false, 600, vec![], 10).unwrap();
    assert_eq!(client.queue(id, 10, 0), Err(GovernanceError::VotingActive));
    assert_eq!(client.queue(id, 60, 0), Err(GovernanceError::VotingActive));
    assert_eq!(
        client.get_proposal(id).unwrap().status,
        ProposalStatus::Active
    );
    assert_eq!(client.queue(9, 61, 0), Err(GovernanceError::NotFound));
    assert_eq!(client.queue(id, 61, 5), Ok(()));
    assert_eq!(client.get_proposal(id).unwrap().eta, 105);
}

#[test]
fn execute_needs_queue_and_time() {
    let mut client = engine(100);
    let id = fee_proposal(&mut client, address(4), 0);
    assert_eq!(
        client.execute(id, 1000),
        Err(GovernanceError::NotQueued)
    );
    assert_eq!(client.execute(2, 1000), Err(GovernanceError::NotFound));
    client.vote(address(5), id, true, false, 600, vec![], 0).unwrap();
    client.queue(id, 51, 40).unwrap();
    assert_eq!(client.get_proposal(id).unwrap().eta, 140);
    assert_eq!(
        client.execute(id, 139),
        Err(GovernanceError::TimelockNotExpired)
    );
    assert_eq!(
        client.get_proposal(id).unwrap().status,
        ProposalStatus::Queued
    );
    assert_eq!(client.execute(id, 140), Ok(GovernanceAction::FeeChange(100)));
    assert_eq!(client.execute(id, 141), Err(GovernanceError::NotQueued));
}

#[test]
fn defeated_proposal_cannot_be_executed() {
    let mut client = engine(100);
    let id = fee_proposal(&mut client, address(4), 0);
    client.vote(address(5), id, false, false, 600, vec![], 0).unwrap();
    client.queue(id, 51, 0).unwrap();
    assert_eq!(
        client.get_proposal(id).unwrap().status,
        ProposalStatus::Defeated
    );
    assert_eq!(client.get_proposal(id).unwrap().eta, 0);
    assert_eq!(client.execute(id, 1000), Err(GovernanceError::NotQueued));
}

fn settings(quorum: i128, threshold: u32) -> CategorySettings {
    CategorySettings {
        quorum,
        threshold,
        voting_period: 10,
    }
}

#[test]
fn tally_passes_with_quorum_and_threshold() {
    // total = 1200 >= 100, for_pct = 100000 / 1200 = 83 >= 50
    assert_eq!(evaluate(1000, 200, &settings(100, 50)), Ok(true));
    assert_eq!(evaluate(1000, 200, &settings(100, 83)), Ok(true));
    assert_eq!(evaluate(1000, 200, &settings(100, 84)), Ok(false));

    let mut proposal = Proposal::open(
        1,
        address(1),
        GovernanceAction::EmergencyAction,
        ProposalCategory::Emergency,
        String::from("d"),
        10,
        0,
    )
    .unwrap();
    proposal.credit(true, 1000).unwrap();
    proposal.credit(false, 200).unwrap();
    assert_eq!(proposal.queue(&settings(100, 50), 100, 11, 7), Ok(()));
    assert_eq!(proposal.status, ProposalStatus::Queued);
    assert_eq!(proposal.eta, 107);
}

#[test]
fn tally_fails_below_threshold() {
    // total = 100 >= 100, for_pct = 10 < 50
    assert_eq!(evaluate(10, 90, &settings(100, 50)), Ok(false));
    let mut proposal = Proposal::open(
        1,
        address(1),
        GovernanceAction::EmergencyAction,
        ProposalCategory::Emergency,
        String::from("d"),
        10,
        0,
    )
    .unwrap();
    proposal.credit(true, 10).unwrap();
    proposal.credit(false, 90).unwrap();
    assert_eq!(proposal.queue(&settings(100, 50), 100, 11, 7), Ok(()));
    assert_eq!(proposal.status, ProposalStatus::Defeated);
    assert_eq!(proposal.eta, 0);
}

#[test]
fn tally_fails_below_quorum() {
    assert_eq!(evaluate(5, 0, &settings(100, 50)), Ok(false));
    assert_eq!(evaluate(5, 0, &settings(100, 0)), Ok(false));
    assert_eq!(evaluate(99, 0, &settings(100, 50)), Ok(false));
    assert_eq!(evaluate(100, 0, &settings(100, 50)), Ok(true));
}

#[test]
fn empty_tally_is_defeated() {
    assert_eq!(evaluate(0, 0, &settings(0, 0)), Ok(false));
    assert_eq!(evaluate(0, 0, &settings(-5, 0)), Ok(false));
    let mut client = engine(100);
    let id = fee_proposal(&mut client, address(4), 0);
    client.set_category_settings(address(1), 1, 0, 0, 50).unwrap();
    client.queue(id, 51, 0).unwrap();
    assert_eq!(
        client.get_proposal(id).unwrap().status,
        ProposalStatus::Defeated
    );
}

#[test]
fn tally_overflow_is_reported() {
    assert_eq!(
        evaluate(i128::MAX, 1, &settings(100, 50)),
        Err(GovernanceError::Overflow)
    );
    assert_eq!(
        evaluate(i128::MAX / 100 + 1, 0, &settings(100, 50)),
        Err(GovernanceError::Overflow)
    );
    assert_eq!(evaluate(i128::MAX / 100, 0, &settings(100, 50)), Ok(true));
    // Below quorum no percentage is computed.
    assert_eq!(
        evaluate(i128::MAX / 100 + 1, 0, &settings(i128::MAX, 50)),
        Ok(false)
    );
}

#[test]
fn eta_overflow_is_reported() {
    let mut client = engine(u64::MAX);
    let id = fee_proposal(&mut client, address(4), 0);
    client.vote(address(5), id, true, false, 600, vec![], 0).unwrap();
    assert_eq!(client.queue(id, 51, 1), Err(GovernanceError::Overflow));
    assert_eq!(
        client.get_proposal(id).unwrap().status,
        ProposalStatus::Active
    );
    assert_eq!(client.queue(id, 51, 0), Ok(()));
    assert_eq!(client.get_proposal(id).unwrap().eta, u64::MAX);
}

#[test]
fn settings_are_read_when_queueing() {
    let mut client = engine(100);
    let id = fee_proposal(&mut client, address(4), 0);
    client.vote(address(5), id, true, false, 499, vec![], 0).unwrap();
    // Quorum 500 at creation; lowered before the vote is closed.
    client.set_category_settings(address(1), 1, 499, 50, 1000).unwrap();
    // The window was fixed at creation.
    assert_eq!(client.get_proposal(id).unwrap().end_ledger, 50);
    client.queue(id, 51, 0).unwrap();
    assert_eq!(
        client.get_proposal(id).unwrap().status,
        ProposalStatus::Queued
    );
}

#[test]
fn second_vote_changes_nothing() {
    let mut client = engine(100);
    let id = fee_proposal(&mut client, address(4), 0);
    let voter = address(5);
    client.vote(voter, id, true, false, 300, vec![], 0).unwrap();
    assert_eq!(client.vote(voter, id, false, true, 900, vec![], 1), Ok(()));
    let proposal = client.get_proposal(id).unwrap();
    assert_eq!(proposal.total_votes_for, 300);
    assert_eq!(proposal.total_votes_against, 0);
    assert_eq!(
        client.get_vote(id, voter),
        Some(VoteRecord {
            voter,
            support: true,
            amount: 300,
            is_quadratic: false
        })
    );
}

#[test]
fn vote_after_the_end_is_refused() {
    let mut client = engine(100);
    let id = fee_proposal(&mut client, address(4), 0);
    assert_eq!(
        client.vote(address(5), id, true, false, 300, vec![], 50),
        Ok(())
    );
    assert_eq!(
        client.vote(address(6), id, true, false, 300, vec![], 51),
        Err(GovernanceError::VotingClosed)
    );
    assert_eq!(
        client.vote(address(6), 2, true, false, 300, vec![], 0),
        Err(GovernanceError::NotFound)
    );
    assert_eq!(client.get_vote(id, address(6)), None);
    assert_eq!(client.get_vote(2, address(5)), None);
    assert_eq!(client.get_proposal(id).unwrap().total_votes_for, 300);
}

#[test]
fn invalid_claim_undoes_the_whole_vote() {
    let mut client = engine(100);
    let id = fee_proposal(&mut client, address(4), 0);
    let voter = address(5);
    client.delegate(address(6), voter);
    client.delegate(address(7), address(8));
    let claims = vec![
        Claim {
            delegator: address(6),
            balance: 50,
        },
        Claim {
            delegator: address(7),
            balance: 70,
        },
    ];
    assert_eq!(
        client.vote(voter, id, true, false, 300, claims, 0),
        Err(GovernanceError::InvalidDelegate)
    );
    assert_eq!(client.get_vote(id, voter), None);
    assert_eq!(client.get_vote(id, address(6)), None);
    assert_eq!(client.get_proposal(id).unwrap().total_votes_for, 0);
    // A delegator without any delegation cannot be claimed either.
    assert_eq!(
        client.vote(
            voter,
            id,
            true,
            false,
            300,
            vec![Claim {
                delegator: address(9),
                balance: 1
            }],
            0
        ),
        Err(GovernanceError::InvalidDelegate)
    );
}

#[test]
fn delegator_is_counted_once() {
    let mut client = engine(100);
    let id = fee_proposal(&mut client, address(4), 0);
    let delegatee = address(5);
    let delegator = address(6);
    client.delegate(delegator, delegatee);
    // The delegator votes for itself first.
    client.vote(delegator, id, false, false, 1000, vec![], 0).unwrap();
    let claim = Claim {
        delegator,
        balance: 1000,
    };
    client
        .vote(delegatee, id, true, true, 100, vec![claim, claim], 0)
        .unwrap();
    let proposal = client.get_proposal(id).unwrap();
    assert_eq!(proposal.total_votes_for, 10);
    assert_eq!(proposal.total_votes_against, 1000);
    assert_eq!(client.get_vote(id, delegator).unwrap().voter, delegator);
    assert_eq!(client.get_vote(id, delegator).unwrap().support, false);
    // Claimed twice in one call, counted once.
    let other = address(7);
    client.delegate(other, delegatee);
    let id2 = fee_proposal(&mut client, address(4), 0);
    let claim = Claim {
        delegator: other,
        balance: 49,
    };
    client
        .vote(delegatee, id2, true, true, 100, vec![claim, claim], 0)
        .unwrap();
    assert_eq!(client.get_proposal(id2).unwrap().total_votes_for, 17);
    assert_eq!(client.get_vote(id2, other).unwrap().amount, 7);
    assert_eq!(client.get_vote(id2, other).unwrap().is_quadratic, true);
}

#[test]
fn vote_overflow_changes_nothing() {
    let mut client = engine(100);
    let id = fee_proposal(&mut client, address(4), 0);
    client
        .vote(address(5), id, true, false, i128::MAX, vec![], 0)
        .unwrap();
    assert_eq!(
        client.vote(address(6), id, true, false, 1, vec![], 0),
        Err(GovernanceError::Overflow)
    );
    assert_eq!(client.get_vote(id, address(6)), None);
    assert_eq!(client.get_proposal(id).unwrap().total_votes_for, i128::MAX);
    // The other side is free.
    assert_eq!(client.vote(address(6), id, false, false, 1, vec![], 0), Ok(()));
    assert_eq!(client.queue(id, 51, 0), Err(GovernanceError::Overflow));
}

#[test]
fn delegation_is_replaced_and_revoked() {
    let mut client = engine(100);
    let delegator = address(5);
    assert_eq!(client.get_delegation(delegator), None);
    client.delegate(delegator, address(6));
    assert_eq!(client.get_delegation(delegator), Some(address(6)));
    client.delegate(delegator, address(7));
    assert_eq!(client.get_delegation(delegator), Some(address(7)));
    client.revoke_delegation(delegator);
    assert_eq!(client.get_delegation(delegator), None);
    client.revoke_delegation(delegator);
    assert_eq!(client.get_delegation(delegator), None);
}

#[test]
fn revoked_delegation_cannot_be_claimed() {
    let mut client = engine(100);
    let id = fee_proposal(&mut client, address(4), 0);
    client.delegate(address(6), address(5));
    client.revoke_delegation(address(6));
    let claims = vec![Claim {
        delegator: address(6),
        balance: 10,
    }];
    assert_eq!(
        client.vote(address(5), id, true, false, 1, claims, 0),
        Err(GovernanceError::InvalidDelegate)
    );
}

#[test]
fn default_categories() {
    let mut client = engine(100);
    let categories = [
        (ProposalCategory::ProtocolUpgrade, 0u32, 100u32),
        (ProposalCategory::FeeAdjustment, 1, 50),
        (ProposalCategory::ParameterUpdate, 2, 30),
        (ProposalCategory::Emergency, 3, 20),
    ];
    for (category, key, period) in categories {
        assert_eq!(category.id(), key);
        let id = client
            .create_proposal(
                address(4),
                GovernanceAction::EmergencyAction,
                category,
                String::from("d"),
                100,
                1000,
            )
            .unwrap();
        assert_eq!(client.get_proposal(id).unwrap().end_ledger, 1000 + period);
        assert_eq!(client.get_proposal(id).unwrap().start_ledger, 1000);
    }
}

#[test]
fn emergency_category_needs_two_thirds() {
    let mut client = engine(0);
    let id = client
        .create_proposal(
            address(4),
            GovernanceAction::EmergencyAction,
            ProposalCategory::Emergency,
            String::from("d"),
            100,
            0,
        )
        .unwrap();
    client.vote(address(5), id, true, false, 1319, vec![], 0).unwrap();
    client.vote(address(6), id, false, false, 681, vec![], 0).unwrap();
    // 131900 / 2000 = 65 < 66
    client.queue(id, 21, 0).unwrap();
    assert_eq!(
        client.get_proposal(id).unwrap().status,
        ProposalStatus::Defeated
    );
}

#[test]
fn ballots_are_found_and_counted() {
    let mut ballots: Vec<Ballot> = Vec::new();
    let voter = address(1);
    let claims = vec![
        Claim {
            delegator: address(2),
            balance: 16,
        },
        Claim {
            delegator: address(3),
            balance: 10,
        },
    ];
    assert_eq!(
        cast_votes(&mut ballots, voter, true, true, 81, &claims),
        Some(9 + 4 + 3)
    );
    assert_eq!(ballots.len(), 3);
    assert_eq!(find_record(&ballots, address(3)).unwrap().amount, 3);
    assert_eq!(find_record(&ballots, address(3)).unwrap().voter, voter);
    assert_eq!(find_record(&ballots, address(4)), None);
    assert_eq!(
        cast_votes(&mut ballots, voter, false, false, 81, &claims),
        Some(0)
    );
    assert_eq!(ballots.len(), 3);
    let big = vec![Claim {
        delegator: address(9),
        balance: i128::MAX,
    }];
    assert_eq!(
        cast_votes(&mut ballots, address(8), true, false, 1, &big),
        None
    );
    assert!(delegates_to(Some(voter), voter));
    assert!(!delegates_to(Some(address(2)), voter));
    assert!(!delegates_to(None, voter));
}

#[test]
fn proposal_copies_are_equal() {
    let proposal = Proposal::open(
        4,
        address(1),
        GovernanceAction::ParameterChange(String::from("fee"), 50),
        ProposalCategory::ParameterUpdate,
        String::from("d"),
        10,
        5,
    )
    .unwrap();
    assert_eq!(proposal.duplicate(), proposal);
    assert!(proposal.accepts_votes(15));
    assert!(!proposal.accepts_votes(16));
    assert_eq!(
        GovernanceAction::Upgrade(String::from("h")).duplicate(),
        GovernanceAction::Upgrade(String::from("h"))
    );
}

#[test]
fn emergency_address_is_matched_exactly() {
    assert_eq!(authorize_emergency(address(3), address(3)), Ok(()));
    assert_eq!(
        authorize_emergency(address(3), address(4)),
        Err(GovernanceError::Unauthorized)
    );
}

#[test]
fn executed_proposal_is_not_queued_again() {
    let mut client = engine(100);
    let id = fee_proposal(&mut client, address(4), 0);
    client.vote(address(5), id, true, false, 1000, vec![], 0).unwrap();
    client.queue(id, 51, 0).unwrap();
    assert_eq!(client.execute(id, 100), Ok(GovernanceAction::FeeChange(100)));
    assert_eq!(client.queue(id, 52, 100), Err(GovernanceError::NotActive));
    let proposal = client.get_proposal(id).unwrap();
    assert_eq!(proposal.status, ProposalStatus::Executed);
    assert_eq!(proposal.eta, 100);
    // The action is handed out once.
    assert_eq!(client.execute(id, 300), Err(GovernanceError::NotQueued));
}

#[test]
fn defeated_proposal_is_not_queued_again() {
    let mut client = engine(100);
    let id = client
        .create_proposal(
            address(4),
            GovernanceAction::EmergencyAction,
            ProposalCategory::ParameterUpdate,
            String::from("d"),
            100,
            0,
        )
        .unwrap();
    client.vote(address(5), id, true, false, 50, vec![], 0).unwrap();
    client.queue(id, 31, 0).unwrap();
    assert_eq!(
        client.get_proposal(id).unwrap().status,
        ProposalStatus::Defeated
    );
    // Lower rules afterwards do not bring it back.
    client
        .set_category_settings(address(1), 2, 10, 50, 30)
        .unwrap();
    assert_eq!(client.queue(id, 32, 5), Err(GovernanceError::NotActive));
    let proposal = client.get_proposal(id).unwrap();
    assert_eq!(proposal.status, ProposalStatus::Defeated);
    assert_eq!(proposal.eta, 0);
    assert_eq!(client.execute(id, 1000), Err(GovernanceError::NotQueued));
}

#[test]
fn queued_proposal_keeps_its_eta() {
    let mut client = engine(100);
    let id = fee_proposal(&mut client, address(4), 0);
    client.vote(address(5), id, true, false, 1000, vec![], 0).unwrap();
    client.queue(id, 51, 0).unwrap();
    assert_eq!(client.get_proposal(id).unwrap().eta, 100);
    assert_eq!(client.queue(id, 52, 99), Err(GovernanceError::NotActive));
    let proposal = client.get_proposal(id).unwrap();
    assert_eq!(proposal.status, ProposalStatus::Queued);
    assert_eq!(proposal.eta, 100);
    assert_eq!(client.execute(id, 100), Ok(GovernanceAction::FeeChange(100)));
    // Before the end of the window the answer is still that voting is on.
    assert_eq!(client.queue(id, 50, 99), Err(GovernanceError::VotingActive));
}

#[test]
fn settings_are_for_the_admin() {
    let mut client = engine(100);
    let id = fee_proposal(&mut client, address(4), 0);
    client.vote(address(5), id, true, false, 20, vec![], 0).unwrap();
    for caller in [address(2), address(3), address(4), address(0)] {
        assert_eq!(
            client.set_category_settings(caller, 1, 20, 50, 50),
            Err(GovernanceError::Unauthorized)
        );
    }
    // The rules stayed: 20 votes are below the quorum of 500.
    let mut unchanged = engine(100);
    let other = fee_proposal(&mut unchanged, address(4), 0);
    unchanged.vote(address(5), other, true, false, 20, vec![], 0).unwrap();
    assert_eq!(
        unchanged.set_category_settings(address(9), 1, 20, 50, 50),
        Err(GovernanceError::Unauthorized)
    );
    unchanged.queue(other, 51, 0).unwrap();
    assert_eq!(
        unchanged.get_proposal(other).unwrap().status,
        ProposalStatus::Defeated
    );
    // The admin changes them.
    assert_eq!(client.set_category_settings(address(1), 1, 20, 50, 50), Ok(()));
    client.queue(id, 51, 0).unwrap();
    assert_eq!(
        client.get_proposal(id).unwrap().status,
        ProposalStatus::Queued
    );
    // Before the engine is initialized nobody is the admin.
    let mut fresh = GovernanceContract::new();
    assert_eq!(
        fresh.set_category_settings(address(1), 1, 20, 50, 50),
        Err(GovernanceError::Unauthorized)
    );
    assert_eq!(authorize_admin(address(1), address(1)), Ok(()));
    assert_eq!(
        authorize_admin(address(1), address(2)),
        Err(GovernanceError::Unauthorized)
    );
}

fn open_proposal(period: u32, sequence: u32) -> Proposal {
    Proposal::propose(
        0,
        address(1),
        GovernanceAction::EmergencyAction,
        ProposalCategory::Emergency,
        String::from("d"),
        100,
        Some(settings_with_period(period)),
        sequence,
    )
    .unwrap()
}

fn settings_with_period(period: u32) -> CategorySettings {
    CategorySettings {
        quorum: 100,
        threshold: 50,
        voting_period: period,
    }
}

#[test]
fn proposing_checks_in_order() {
    let propose = |count: u32, balance: i128, rules: Option<CategorySettings>, sequence: u32| {
        Proposal::propose(
            count,
            address(1),
            GovernanceAction::FeeChange(7),
            ProposalCategory::FeeAdjustment,
            String::from("d"),
            balance,
            rules,
            sequence,
        )
    };
    assert_eq!(
        propose(0, 99, None, 0).err(),
        Some(GovernanceError::InsufficientPower)
    );
    assert_eq!(propose(0, 100, None, 0).err(), Some(GovernanceError::NotFound));
    assert_eq!(
        propose(u32::MAX, 100, Some(settings_with_period(5)), 0).err(),
        Some(GovernanceError::Overflow)
    );
    assert_eq!(
        propose(0, 100, Some(settings_with_period(5)), u32::MAX - 4).err(),
        Some(GovernanceError::Overflow)
    );
    let proposal = propose(6, 100, Some(settings_with_period(5)), 10).unwrap();
    assert_eq!(proposal.id, 7);
    assert_eq!(proposal.start_ledger, 10);
    assert_eq!(proposal.end_ledger, 15);
    assert_eq!(proposal.status, ProposalStatus::Active);
    assert_eq!(proposal.eta, 0);
    assert_eq!(proposal.total_votes_for, 0);
    assert_eq!(proposal.total_votes_against, 0);
    assert_eq!(proposal.action, GovernanceAction::FeeChange(7));
    assert_eq!(ProposalCategory::Emergency.default_settings().threshold, 66);
    assert_eq!(ProposalCategory::ProtocolUpgrade.default_settings().quorum, 1000);
}

#[test]
fn closing_checks_in_order() {
    let rules = Some(settings_with_period(10));
    let mut proposal = open_proposal(10, 0);
    proposal.credit(true, 1000).unwrap();
    assert_eq!(
        proposal.close(None, None, 10, 0),
        Err(GovernanceError::VotingActive)
    );
    assert_eq!(proposal.close(None, Some(5), 11, 0), Err(GovernanceError::NotFound));
    assert_eq!(proposal.close(rules, None, 11, 0), Err(GovernanceError::NotFound));
    assert_eq!(proposal.status, ProposalStatus::Active);
    assert_eq!(proposal.close(rules, Some(5), 11, 20), Ok(()));
    assert_eq!(proposal.status, ProposalStatus::Queued);
    assert_eq!(proposal.eta, 25);
    assert_eq!(proposal.close(None, None, 11, 0), Err(GovernanceError::NotActive));
    assert_eq!(proposal.close(rules, Some(5), 12, 21), Err(GovernanceError::NotActive));
    assert_eq!(
        proposal.queue(&settings_with_period(10), 5, 12, 21),
        Err(GovernanceError::NotActive)
    );
    assert_eq!(proposal.check_active(), Err(GovernanceError::NotActive));
    assert_eq!(proposal.eta, 25);
    assert_eq!(open_proposal(10, 0).check_active(), Ok(()));
}

#[test]
fn record_vote_is_whole_or_nothing() {
    let voter = address(5);
    let mut proposal = open_proposal(10, 0);
    let mut ballots: Vec<Ballot> = Vec::new();
    let claims = vec![
        Claim {
            delegator: address(6),
            balance: 50,
        },
        Claim {
            delegator: address(7),
            balance: 70,
        },
    ];
    assert_eq!(
        proposal.vote(&mut ballots, voter, true, false, 300, &claims, &vec![Some(voter), None], 0),
        Err(GovernanceError::InvalidDelegate)
    );
    assert_eq!(
        proposal.vote(
            &mut ballots,
            voter,
            true,
            false,
            300,
            &claims,
            &vec![Some(voter), Some(address(6))],
            0
        ),
        Err(GovernanceError::InvalidDelegate)
    );
    assert_eq!(
        proposal.vote(
            &mut ballots,
            voter,
            true,
            false,
            300,
            &claims,
            &vec![Some(voter), Some(voter)],
            11
        ),
        Err(GovernanceError::VotingClosed)
    );
    assert!(ballots.is_empty());
    assert_eq!(proposal.total_votes_for, 0);
    assert_eq!(
        proposal.vote(
            &mut ballots,
            voter,
            true,
            false,
            300,
            &claims,
            &vec![Some(voter), Some(voter)],
            10
        ),
        Ok(())
    );
    assert_eq!(ballots.len(), 3);
    assert_eq!(proposal.total_votes_for, 420);
    assert_eq!(
        proposal.vote(&mut ballots, address(8), true, false, i128::MAX, &vec![], &vec![], 0),
        Err(GovernanceError::Overflow)
    );
    assert_eq!(ballots.len(), 3);
    assert_eq!(proposal.total_votes_for, 420);
    assert_eq!(check_delegatees(voter, &vec![]), Ok(()));
    assert_eq!(
        check_delegatees(voter, &vec![Some(voter), None]),
        Err(GovernanceError::InvalidDelegate)
    );
}
