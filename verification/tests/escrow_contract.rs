use contracts::address::Address;
use contracts::escrow::contract::{EscrowContract, Payout, Settlement, Transfer};
use contracts::escrow::lifecycle::checked_share;
use contracts::escrow::storage_types::{
    DisputeStatus, EscrowError, EscrowStatus, Milestone, MilestoneStatus, RevenueSplit, TokenType,
};

fn address(id: u64) -> Address {
    Address { id }
}

const ADMIN: u64 = 1;
const EMERGENCY_ADMIN: u64 = 2;
const PAYER: u64 = 3;
const PAYEE: u64 = 4;
const ORGANIZER: u64 = 5;
const REFERRER: u64 = 6;
const TOKEN: u64 = 7;

fn token() -> TokenType {
    TokenType::SorobanToken(address(TOKEN))
}

fn service() -> EscrowContract {
    let mut client = EscrowContract::new();
    client
        .initialize(address(ADMIN), address(EMERGENCY_ADMIN))
        .unwrap();
    client
}

fn split(organizer: u32, platform: u32, referral: u32, code: Option<&str>) -> RevenueSplit {
    RevenueSplit {
        organizer_share_bps: organizer,
        platform_fee_bps: platform,
        referral_reward_bps: referral,
        organizer: address(ORGANIZER),
        referral_code: code.map(String::from),
    }
}

fn create(
    client: &mut EscrowContract,
    amount: i128,
    release_time: u64,
    revenue_split: RevenueSplit,
    description: &str,
    metadata: &str,
) -> Result<u64, EscrowError> {
    client.create_escrow(
        token(),
        amount,
        address(PAYER),
        address(PAYEE),
        release_time,
        revenue_split,
        String::from(description),
        String::from(metadata),
        false,
        None,
        0,
    )
}

#[test]
fn test_escrow_lifecycle() {
    let mut client = service();
    let mut now: u64 = 0;

    let revenue_split = split(8500, 1000, 500, None);

    let escrow_id = create(
        &mut client,
        50_000_000, // 50 tokens
        now + 1000,
        revenue_split,
        "Test Event Payment",
        "{\"eventId\": \"123\"}",
    )
    .unwrap();

    assert_eq!(escrow_id, 1);

    let escrow = client.get_escrow(escrow_id).unwrap();
    assert_eq!(escrow.id, escrow_id);
    assert_eq!(escrow.amount, 50_000_000);
    assert_eq!(escrow.status, EscrowStatus::Created);

    let deposit = client.fund_escrow(escrow_id).unwrap();
    assert_eq!(
        deposit,
        Transfer {
            token_type: token(),
            party: address(PAYER),
            amount: 50_000_000
        }
    );

    let escrow = client.get_escrow(escrow_id).unwrap();
    assert_eq!(escrow.status, EscrowStatus::Funded);

    now += 1000;

    let payout = client.release_escrow(escrow_id, now).unwrap();

    let escrow = client.get_escrow(escrow_id).unwrap();
    assert_eq!(escrow.status, EscrowStatus::Completed);

    let platform_fee = 50_000_000 * 1000 / 10000; // 10%
    let referral_reward = 50_000_000 * 500 / 10000; // 5%
    let organizer_share = 50_000_000 - platform_fee - referral_reward; // 85%

    // Admin gets both fees
    assert_eq!(
        payout,
        Payout {
            token_type: token(),
            platform: address(ADMIN),
            platform_fee,
            referrer: address(ADMIN),
            referral_reward,
            organizer: address(ORGANIZER),
            organizer_share,
        }
    );
    // Nothing is left in the escrow.
    assert_eq!(
        payout.platform_fee + payout.referral_reward + payout.organizer_share,
        50_000_000
    );
}

fn milestone(id: u32, name: &str, description: &str, amount_percentage: u32, due_date: u64) -> Milestone {
    Milestone {
        id,
        escrow_id: 0, // The escrow's id is the key it is kept under.
        name: String::from(name),
        description: String::from(description),
        amount_percentage,
        due_date,
        completed_at: None,
        released_at: None,
        status: MilestoneStatus::Pending,
    }
}

#[test]
fn test_milestone_payments() {
    let mut client = service();
    let now: u64 = 0;

    let milestones = vec![
        milestone(1, "Day 1", "First day of event", 4000, now + 1000),
        milestone(2, "Day 2", "Second day of event", 6000, now + 2000),
    ];

    let revenue_split = split(8500, 1000, 500, None);

    let escrow_id = client
        .create_escrow(
            token(),
            100_000_000,
            address(PAYER),
            address(PAYEE),
            now + 3000,
            revenue_split,
            String::from("Multi-day Event"),
            String::from("{\"eventId\": \"456\"}"),
            true,
            Some(milestones),
            now,
        )
        .unwrap();
    assert_eq!(client.get_escrow(escrow_id).unwrap().total_milestones, 2);

    client.fund_escrow(escrow_id).unwrap();

    client.complete_milestone(escrow_id, 1, now).unwrap();
    assert_eq!(client.get_escrow(escrow_id).unwrap().completed_milestones, 1);
    assert_eq!(
        client.get_milestone(escrow_id, 1).unwrap().status,
        MilestoneStatus::Completed
    );

    let payout = client.release_milestone(escrow_id, 1, now + 5).unwrap();

    let released = client.get_milestone(escrow_id, 1).unwrap();
    assert_eq!(released.status, MilestoneStatus::Released);
    assert_eq!(released.released_at, Some(5));
    assert_eq!(released.completed_at, Some(0));
    assert_eq!(
        client.get_milestone(escrow_id, 2).unwrap().status,
        MilestoneStatus::Pending
    );

    let milestone_amount = 100_000_000 * 4000 / 10000; // 40% = 40 tokens
    let platform_fee = milestone_amount * 1000 / 10000; // 10% = 4 tokens
    let referral_reward = milestone_amount * 500 / 10000; // 5% = 2 tokens
    let organizer_share = milestone_amount - platform_fee - referral_reward; // 85% = 34 tokens

    assert_eq!(payout.platform, address(ADMIN));
    assert_eq!(payout.referrer, address(ADMIN));
    assert_eq!(payout.platform_fee + payout.referral_reward, platform_fee + referral_reward);
    assert_eq!(payout.organizer, address(ORGANIZER));
    assert_eq!(payout.organizer_share, organizer_share);
}

#[test]
fn test_dispute_resolution() {
    let mut client = service();
    let now: u64 = 0;

    let escrow_id = create(
        &mut client,
        50_000_000,
        now + 1000,
        split(8500, 1000, 500, None),
        "Disputed Payment",
        "{\"eventId\": \"789\"}",
    )
    .unwrap();

    client.fund_escrow(escrow_id).unwrap();

    let dispute_id = client
        .raise_dispute(
            escrow_id,
            address(PAYER),
            String::from("Service not delivered"),
            String::from("ipfs://QmHash123"),
            12,
            now,
        )
        .unwrap();
    assert_eq!(dispute_id, 12);

    let dispute = client.get_dispute(dispute_id).unwrap();
    assert_eq!(dispute.status, DisputeStatus::Open);
    assert_eq!(dispute.escrow_id, escrow_id);
    assert_eq!(dispute.raiser, address(PAYER));

    let escrow = client.get_escrow(escrow_id).unwrap();
    assert_eq!(escrow.status, EscrowStatus::InDispute);

    let settlement = client
        .resolve_dispute(
            dispute_id,
            String::from("Valid complaint, refunding payer"),
            true, // refund_to_payer
            now + 9,
        )
        .unwrap();

    let dispute = client.get_dispute(dispute_id).unwrap();
    assert_eq!(dispute.status, DisputeStatus::Resolved);
    assert_eq!(dispute.resolver, Some(address(ADMIN)));
    assert_eq!(dispute.resolved_at, Some(9));
    assert_eq!(
        dispute.resolution_notes,
        Some(String::from("Valid complaint, refunding payer"))
    );

    let escrow = client.get_escrow(escrow_id).unwrap();
    assert_eq!(escrow.status, EscrowStatus::Refunded);

    // The payer gets the whole amount back.
    assert_eq!(
        settlement,
        Settlement::Refund(Transfer {
            token_type: token(),
            party: address(PAYER),
            amount: 50_000_000
        })
    );
}

#[test]
fn test_referral_system() {
    let mut client = service();
    let mut now: u64 = 0;

    let referral_code = String::from("REF123");
    client
        .create_referral(referral_code.clone(), address(REFERRER), now)
        .unwrap();

    let referral = client.get_referral(&referral_code).unwrap();
    assert_eq!(referral.code, referral_code);
    assert_eq!(referral.creator, address(REFERRER));
    assert_eq!(referral.total_earnings, 0);
    assert_eq!(referral.total_referrals, 0);

    let escrow_id = create(
        &mut client,
        50_000_000,
        now + 1000,
        split(8000, 1000, 1000, Some("REF123")),
        "Referral Payment",
        "{\"eventId\": \"101\"}",
    )
    .unwrap();

    client.fund_escrow(escrow_id).unwrap();

    now += 1000;

    let payout = client.release_escrow(escrow_id, now).unwrap();

    let referral = client.get_referral(&referral_code).unwrap();
    let expected_reward = 50_000_000 * 1000 / 10000; // 10% = 5 tokens
    assert_eq!(referral.total_earnings, expected_reward);
    assert_eq!(referral.total_referrals, 1);

    assert_eq!(payout.referrer, address(REFERRER));
    assert_eq!(payout.referral_reward, expected_reward);
}

#[test]
fn test_invalid_operations() {
    let mut client = service();
    let now: u64 = 0;

    // Total > 10000 bps
    let result = create(
        &mut client,
        50_000_000,
        now + 1000,
        split(9000, 1500, 1000, None),
        "Invalid Payment",
        "{\"eventId\": \"202\"}",
    );
    assert!(result.is_err());
    assert_eq!(result, Err(EscrowError::InvalidRevenueSplit));

    let result = client.fund_escrow(999);
    assert!(result.is_err());
    assert_eq!(result, Err(EscrowError::EscrowNotFound));

    let escrow_id = create(
        &mut client,
        50_000_000,
        now + 1000,
        split(8500, 1000, 500, None),
        "Test Payment",
        "{\"eventId\": \"303\"}",
    )
    .unwrap();

    // Not funded yet
    let result = client.release_escrow(escrow_id, now);
    assert!(result.is_err());
    assert_eq!(result, Err(EscrowError::InvalidStatus));
}

#[test]
fn test_pause_functionality() {
    let mut client = service();
    let now: u64 = 0;

    client.pause().unwrap();

    let result = create(
        &mut client,
        50_000_000,
        now + 1000,
        split(8500, 1000, 500, None),
        "Paused Test",
        "{\"eventId\": \"404\"}",
    );
    assert!(result.is_err());
    assert_eq!(result, Err(EscrowError::ContractPaused));

    client.unpause().unwrap();

    let result = create(
        &mut client,
        50_000_000,
        now + 1000,
        split(8500, 1000, 500, None),
        "Unpaused Test",
        "{\"eventId\": \"505\"}",
    );
    assert!(result.is_ok());
}

#[test]
fn test_admin_functions() {
    let mut client = service();

    let new_fee = 1500u32; // 15%
    client.update_platform_fee(new_fee).unwrap();
    assert_eq!(client.get_platform_fee_bps(), Ok(new_fee));

    let new_reward = 800u32; // 8%
    client.update_referral_reward(new_reward).unwrap();
    assert_eq!(client.get_referral_reward_bps(), Ok(new_reward));
}

#[test]
fn escrow_service_starts_once() {
    let mut client = EscrowContract::new();
    assert_eq!(client.pause(), Err(EscrowError::NotInitialized));
    assert_eq!(client.get_total_escrows(), Err(EscrowError::NotInitialized));
    assert_eq!(
        create(&mut client, 50_000_000, 0, split(8500, 1000, 500, None), "d", "m"),
        Err(EscrowError::NotInitialized)
    );
    client.initialize(address(ADMIN), address(EMERGENCY_ADMIN)).unwrap();
    assert_eq!(
        client.initialize(address(ADMIN), address(EMERGENCY_ADMIN)),
        Err(EscrowError::AlreadyInitialized)
    );
    assert_eq!(client.get_platform_fee_bps(), Ok(1000));
    assert_eq!(client.get_referral_reward_bps(), Ok(500));
    assert_eq!(client.get_total_escrows(), Ok(0));
    assert_eq!(
        client.update_platform_fee(10_001),
        Err(EscrowError::InvalidRevenueSplit)
    );
    assert_eq!(client.update_platform_fee(10_000), Ok(()));
    assert_eq!(
        client.update_referral_reward(10_001),
        Err(EscrowError::InvalidRevenueSplit)
    );
    assert!(client.get_escrows_by_participant(address(PAYER)).is_empty());
}

#[test]
fn escrows_are_numbered_and_checked() {
    let mut client = service();
    assert_eq!(
        create(&mut client, 999_999, 0, split(8500, 1000, 500, None), "d", "m"),
        Err(EscrowError::AmountTooSmall)
    );
    assert_eq!(
        create(&mut client, 1_000_000, 0, split(8500, 1000, 500, Some("NONE")), "d", "m"),
        Err(EscrowError::ReferralNotFound)
    );
    assert_eq!(client.get_total_escrows(), Ok(0));
    assert_eq!(
        create(&mut client, 1_000_000, 7, split(8500, 1000, 500, None), "d", "m"),
        Ok(1)
    );
    assert_eq!(
        create(&mut client, 2_000_000, 8, split(8500, 1000, 500, None), "e", "n"),
        Ok(2)
    );
    assert_eq!(client.get_total_escrows(), Ok(2));
    let escrow = client.get_escrow(2).unwrap();
    assert_eq!(escrow.release_time, 8);
    assert_eq!(escrow.payer, address(PAYER));
    assert_eq!(escrow.payee, address(PAYEE));
    assert_eq!(escrow.description, "e");
    assert_eq!(escrow.metadata, "n");
    assert_eq!(escrow.total_milestones, 0);
    assert_eq!(client.get_escrow(3).err(), Some(EscrowError::EscrowNotFound));
}

#[test]
fn release_waits_for_its_time() {
    let mut client = service();
    let id = create(&mut client, 1_000_000, 100, split(8500, 1000, 500, None), "d", "m").unwrap();
    client.fund_escrow(id).unwrap();
    assert_eq!(client.fund_escrow(id), Err(EscrowError::InvalidStatus));
    assert_eq!(client.cancel_escrow(id), Err(EscrowError::InvalidStatus));
    assert_eq!(client.release_escrow(id, 99), Err(EscrowError::TimeNotReached));
    client.pause().unwrap();
    assert_eq!(client.release_escrow(id, 100), Err(EscrowError::ContractPaused));
    client.unpause().unwrap();
    assert!(client.release_escrow(id, 100).is_ok());
    assert_eq!(client.release_escrow(id, 100), Err(EscrowError::InvalidStatus));
}

#[test]
fn created_escrows_can_be_cancelled() {
    let mut client = service();
    let id = create(&mut client, 1_000_000, 100, split(8500, 1000, 500, None), "d", "m").unwrap();
    assert_eq!(client.cancel_escrow(9), Err(EscrowError::EscrowNotFound));
    assert_eq!(client.cancel_escrow(id), Ok(()));
    assert_eq!(client.get_escrow(id).unwrap().status, EscrowStatus::Cancelled);
    assert_eq!(client.fund_escrow(id), Err(EscrowError::InvalidStatus));
}

#[test]
fn milestones_follow_their_order() {
    let mut client = service();
    let milestones = vec![milestone(1, "a", "b", 2500, 10), milestone(1, "c", "d", 5000, 20)];
    let id = client
        .create_escrow(
            token(),
            1_000_000,
            address(PAYER),
            address(PAYEE),
            0,
            split(8500, 1000, 500, None),
            String::from("d"),
            String::from("m"),
            true,
            Some(milestones),
            0,
        )
        .unwrap();
    // Of two milestones under one id the later one is kept.
    assert_eq!(client.get_milestone(id, 1).unwrap().name, "c");
    assert_eq!(
        client.get_milestone(id, 2).err(),
        Some(EscrowError::MilestoneNotFound)
    );
    assert_eq!(
        client.complete_milestone(id, 1, 0),
        Err(EscrowError::InvalidStatus)
    );
    assert_eq!(
        client.release_milestone(id, 1, 0),
        Err(EscrowError::InvalidStatus)
    );
    client.fund_escrow(id).unwrap();
    assert_eq!(
        client.complete_milestone(id, 2, 0),
        Err(EscrowError::MilestoneNotFound)
    );
    assert_eq!(
        client.release_milestone(id + 1, 1, 0),
        Err(EscrowError::EscrowNotFound)
    );
    client.complete_milestone(id, 1, 3).unwrap();
    assert_eq!(
        client.complete_milestone(id, 1, 4),
        Err(EscrowError::InvalidStatus)
    );
    let payout = client.release_milestone(id, 1, 5).unwrap();
    assert_eq!(payout.platform_fee, 50_000);
    assert_eq!(payout.referral_reward, 25_000);
    assert_eq!(payout.organizer_share, 425_000);
    assert_eq!(
        client.release_milestone(id, 1, 6),
        Err(EscrowError::InvalidStatus)
    );
}

#[test]
fn disputes_are_for_the_parties() {
    let mut client = service();
    let id = create(&mut client, 1_000_000, 100, split(8000, 1000, 1000, None), "d", "m").unwrap();
    let raise = |client: &mut EscrowContract, caller: u64, sequence: u32| {
        client.raise_dispute(
            id,
            address(caller),
            String::from("r"),
            String::from("e"),
            sequence,
            50,
        )
    };
    assert_eq!(raise(&mut client, ORGANIZER, 1), Err(EscrowError::NotAuthorized));
    assert_eq!(raise(&mut client, PAYEE, 1), Err(EscrowError::InvalidStatus));
    client.fund_escrow(id).unwrap();
    assert_eq!(raise(&mut client, PAYEE, 1), Ok(1));
    assert_eq!(raise(&mut client, PAYER, 2), Ok(2));
    assert_eq!(client.get_dispute(3).err(), Some(EscrowError::DisputeNotFound));
    assert_eq!(
        client.resolve_dispute(3, String::from("n"), true, 60),
        Err(EscrowError::DisputeNotFound)
    );
    // Rejecting the complaint releases the escrow to the payee's side.
    let settlement = client
        .resolve_dispute(1, String::from("n"), false, 60)
        .unwrap();
    assert_eq!(
        settlement,
        Settlement::Release(Payout {
            token_type: token(),
            platform: address(ADMIN),
            platform_fee: 100_000,
            referrer: address(ADMIN),
            referral_reward: 100_000,
            organizer: address(ORGANIZER),
            organizer_share: 800_000,
        })
    );
    assert_eq!(client.get_dispute(1).unwrap().status, DisputeStatus::Rejected);
    assert_eq!(client.get_escrow(id).unwrap().status, EscrowStatus::Completed);
    assert_eq!(
        client.resolve_dispute(1, String::from("n"), true, 61),
        Err(EscrowError::InvalidStatus)
    );
}

#[test]
fn referral_codes_are_unique() {
    let mut client = service();
    client
        .create_referral(String::from("A"), address(REFERRER), 1)
        .unwrap();
    assert_eq!(
        client.create_referral(String::from("A"), address(PAYER), 2),
        Err(EscrowError::InvalidStatus)
    );
    client
        .create_referral(String::from("B"), address(PAYER), 3)
        .unwrap();
    assert_eq!(
        client.get_referral(&String::from("A")).unwrap().creator,
        address(REFERRER)
    );
    assert_eq!(client.get_referral(&String::from("B")).unwrap().created_at, 3);
    assert!(client.get_referral(&String::from("B")).unwrap().is_active);
    assert_eq!(
        client.get_referral(&String::from("C")).err(),
        Some(EscrowError::ReferralNotFound)
    );
    client.pause().unwrap();
    assert_eq!(
        client.create_referral(String::from("C"), address(PAYER), 3),
        Err(EscrowError::ContractPaused)
    );
}

#[test]
fn emergency_withdrawal_is_limited() {
    let fresh = EscrowContract::new();
    assert_eq!(
        fresh.emergency_withdraw(token(), 1_000_000, address(PAYER)),
        Err(EscrowError::NotInitialized)
    );
    let client = service();
    assert_eq!(
        client.emergency_withdraw(token(), 999_999, address(PAYER)),
        Err(EscrowError::AmountTooSmall)
    );
    assert_eq!(
        client.emergency_withdraw(TokenType::Native, 1_000_000, address(PAYER)),
        Err(EscrowError::EmergencyOnly)
    );
    assert_eq!(
        client.emergency_withdraw(token(), 1_000_000, address(PAYER)),
        Ok(Transfer {
            token_type: token(),
            party: address(PAYER),
            amount: 1_000_000
        })
    );
}

#[test]
fn shares_that_do_not_fit_are_refused() {
    assert_eq!(checked_share(20_000, 2500), Some(5000));
    assert_eq!(checked_share(-20_001, 5000), Some(-10_000));
    assert_eq!(checked_share(i128::MAX, 2), None);
    assert_eq!(checked_share(i128::MAX, 1), Some(i128::MAX / 10_000));
    let mut client = service();
    let id = create(
        &mut client,
        i128::MAX,
        0,
        split(8000, 1000, 1000, None),
        "d",
        "m",
    )
    .unwrap();
    client.fund_escrow(id).unwrap();
    assert_eq!(client.release_escrow(id, 0), Err(EscrowError::ArithmeticError));
    assert_eq!(client.get_escrow(id).unwrap().status, EscrowStatus::Funded);
}
