use contracts::address::Address;
use contracts::whitelist::campaign::{is_delegate, Campaign, CampaignError};
use contracts::whitelist::contract::{Payment, WhitelistContract, WhitelistError};
use contracts::whitelist::merkle::{is_before, join, root_of, same_digest, verify};
use soroban_sdk::{Bytes, Env};

fn hex(text: &str) -> [u8; 32] {
    let mut bytes = [0u8; 32];
    for (i, byte) in bytes.iter_mut().enumerate() {
        *byte = u8::from_str_radix(&text[2 * i..2 * i + 2], 16).unwrap();
    }
    bytes
}

fn sha256(data: &[u8]) -> [u8; 32] {
    let env = Env::default();
    env.crypto().sha256(&Bytes::from_slice(&env, data)).to_array()
}

const LEAF_0: &str = "20e325f06280f9d0d193fed01a0eda5bef79063f2e602d93e3605cbe825d96ad";
const LEAF_1: &str = "ccbf76d20974e563eb51d22ff1171a30472e0ae643b17863befd53614e7fefad";
const LEAF_2: &str = "bac57df66fe6368188d1d4521bcffaecee76a03a50ff297a13439f7164de0a5f";
const ROOT_01: &str = "06f4672c8871ec3b0085b38a1682a938005d5fa05ef1366bf23b5f9eb46ff543";
const ROOT_012: &str = "3ee41213e35a6d399dd8365d2bb2340693bebea8916a1340e4c0f1edd25ed4c7";

#[test]
fn digest_of_the_zero_block() {
    let zero = [0u8; 32];
    let expected = hex("f5a5fd42d16a20302798ef6ed309979b43003d2320d9f0e8ea9831a92759fb4b");
    assert_eq!(root_of(zero, &vec![zero]), expected);
    assert!(verify(expected, zero, vec![zero]));
    assert!(!verify(zero, zero, vec![zero]));
}

#[test]
fn empty_proof_compares_leaf_and_root() {
    assert!(verify(hex(LEAF_0), hex(LEAF_0), vec![]));
    assert!(!verify(hex(LEAF_1), hex(LEAF_0), vec![]));
    assert_eq!(root_of(hex(LEAF_2), &vec![]), hex(LEAF_2));
}

#[test]
fn two_leaves_prove_each_other() {
    let l0 = sha256(b"leaf 0");
    let l1 = sha256(b"leaf 1");
    assert_eq!(l0, hex(LEAF_0));
    assert_eq!(l1, hex(LEAF_1));
    let mut data = [0u8; 64];
    if l0 < l1 {
        data[..32].copy_from_slice(&l0);
        data[32..].copy_from_slice(&l1);
    } else {
        data[..32].copy_from_slice(&l1);
        data[32..].copy_from_slice(&l0);
    }
    let root = sha256(&data);
    assert_eq!(root, hex(ROOT_01));
    assert!(verify(root, l0, vec![l1]));
    assert!(verify(root, l1, vec![l0]));
    assert!(!verify(root, l0, vec![l0]));
    assert!(!verify(root, sha256(b"leaf 2"), vec![l1]));
    assert!(!verify(root, l0, vec![]));
}

#[test]
fn longer_proofs_climb_in_order() {
    let proof = vec![hex(LEAF_1), hex(LEAF_2)];
    assert_eq!(root_of(hex(LEAF_0), &proof), hex(ROOT_012));
    assert!(verify(hex(ROOT_012), hex(LEAF_0), proof));
    assert!(verify(hex(ROOT_012), hex(LEAF_2), vec![hex(ROOT_01)]));
    assert!(!verify(
        hex(ROOT_012),
        hex(LEAF_0),
        vec![hex(LEAF_2), hex(LEAF_1)]
    ));
}

#[test]
fn order_is_lexicographic() {
    let mut a = [0u8; 32];
    let mut b = [0u8; 32];
    assert!(!is_before(&a, &b));
    b[31] = 1;
    assert!(is_before(&a, &b));
    assert!(!is_before(&b, &a));
    a[0] = 1;
    assert!(!is_before(&a, &b));
    assert!(is_before(&b, &a));
    b[0] = 200;
    a[0] = 199;
    a[1] = 255;
    assert!(is_before(&a, &b));
    assert_eq!(is_before(&hex(LEAF_0), &hex(LEAF_1)), hex(LEAF_0) < hex(LEAF_1));
    assert_eq!(is_before(&hex(LEAF_1), &hex(LEAF_2)), hex(LEAF_1) < hex(LEAF_2));
}

#[test]
fn digests_are_compared_bytewise() {
    let a = hex(LEAF_0);
    let mut b = hex(LEAF_0);
    assert!(same_digest(&a, &b));
    b[31] ^= 1;
    assert!(!same_digest(&a, &b));
    b[31] ^= 1;
    b[0] ^= 128;
    assert!(!same_digest(&a, &b));
}

#[test]
fn join_keeps_the_order_given() {
    let a = hex(LEAF_0);
    let b = hex(LEAF_1);
    let data = join(&a, &b);
    assert_eq!(&data[..32], &a[..]);
    assert_eq!(&data[32..], &b[..]);
    let data = join(&b, &a);
    assert_eq!(&data[..32], &b[..]);
    assert_eq!(&data[32..], &a[..]);
}

fn campaign(total: i128, deadline: u64) -> Campaign {
    Campaign::create(
        Address { id: 1 },
        Address { id: 2 },
        hex(ROOT_01),
        deadline,
        total,
    )
}

#[test]
fn claims_are_counted() {
    let mut c = campaign(300, 10000);
    assert_eq!(c.claimed_amount, 0);
    assert!(c.is_active && !c.refunded);
    assert_eq!(c.claim(0, false, hex(LEAF_0), 100, vec![hex(LEAF_1)]), Ok(()));
    assert_eq!(c.claimed_amount, 100);
    assert_eq!(c.claim(10000, false, hex(LEAF_1), 200, vec![hex(LEAF_0)]), Ok(()));
    assert_eq!(c.claimed_amount, 300);
}

#[test]
fn claims_are_refused() {
    let mut c = campaign(300, 10000);
    assert_eq!(
        c.claim(0, true, hex(LEAF_0), 100, vec![hex(LEAF_1)]),
        Err(CampaignError::AlreadyClaimed)
    );
    assert_eq!(
        c.claim(10001, false, hex(LEAF_0), 100, vec![hex(LEAF_1)]),
        Err(CampaignError::Expired)
    );
    assert_eq!(
        c.claim(0, false, hex(LEAF_2), 100, vec![hex(LEAF_1)]),
        Err(CampaignError::InvalidProof)
    );
    assert_eq!(
        c.claim(0, false, hex(LEAF_0), 301, vec![hex(LEAF_1)]),
        Err(CampaignError::InsufficientFunds)
    );
    assert_eq!(
        c.claim(0, false, hex(LEAF_0), i128::MAX, vec![hex(LEAF_1)]),
        Err(CampaignError::InsufficientFunds)
    );
    c.claimed_amount = 1;
    assert_eq!(
        c.claim(0, false, hex(LEAF_0), i128::MAX, vec![hex(LEAF_1)]),
        Err(CampaignError::Overflow)
    );
    assert_eq!(c.claimed_amount, 1);
    c.is_active = false;
    assert_eq!(
        c.claim(0, false, hex(LEAF_0), 100, vec![hex(LEAF_1)]),
        Err(CampaignError::Inactive)
    );
    c.is_active = true;
    c.update_root(hex(ROOT_012));
    assert_eq!(
        c.claim(0, false, hex(LEAF_0), 100, vec![hex(LEAF_1)]),
        Err(CampaignError::InvalidProof)
    );
    assert_eq!(
        c.claim(0, false, hex(LEAF_0), 100, vec![hex(LEAF_1), hex(LEAF_2)]),
        Ok(())
    );
}

#[test]
fn refund_returns_what_is_left() {
    let mut c = campaign(300, 10);
    assert_eq!(c.refund(10), Err(CampaignError::NotFinished));
    assert_eq!(c.refund(20), Ok(300));
    assert!(c.refunded && !c.is_active);
    assert_eq!(c.refund(21), Err(CampaignError::AlreadyRefunded));
    assert_eq!(
        c.claim(5, false, hex(LEAF_0), 100, vec![hex(LEAF_1)]),
        Err(CampaignError::Inactive)
    );

    let mut c = campaign(300, 10);
    c.claim(0, false, hex(LEAF_0), 100, vec![hex(LEAF_1)]).unwrap();
    assert_eq!(c.refund(11), Ok(200));

    let mut c = campaign(300, 10);
    c.claim(0, false, hex(LEAF_0), 300, vec![hex(LEAF_1)]).unwrap();
    assert_eq!(c.refund(11), Ok(0));

    let mut c = campaign(i128::MAX, 10);
    c.claimed_amount = -1;
    assert_eq!(c.refund(11), Err(CampaignError::Overflow));
    assert!(!c.refunded);
}

#[test]
fn delegates_are_matched() {
    assert!(is_delegate(Some(Address { id: 4 }), Address { id: 4 }));
    assert!(!is_delegate(Some(Address { id: 4 }), Address { id: 5 }));
    assert!(!is_delegate(None, Address { id: 5 }));
}

fn leaf_of(address: Address, amount: i128) -> [u8; 32] {
    let mut bytes = address.id.to_be_bytes().to_vec();
    bytes.extend_from_slice(&amount.to_be_bytes());
    sha256(&bytes)
}

// Leaf 0: (address 1, 100); leaf 1: (address 2, 200); the root is the digest
// of the two leaves in sorted order.
fn create_test_merkle(addr1: Address, addr2: Address) -> ([u8; 32], Vec<[u8; 32]>, Vec<[u8; 32]>) {
    let l0 = leaf_of(addr1, 100);
    let l1 = leaf_of(addr2, 200);

    let mut data = [0u8; 64];
    if l0 < l1 {
        data[..32].copy_from_slice(&l0);
        data[32..].copy_from_slice(&l1);
    } else {
        data[..32].copy_from_slice(&l1);
        data[32..].copy_from_slice(&l0);
    }
    let root = sha256(&data);

    (root, vec![l1], vec![l0])
}

#[test]
fn test_whitelist_flow() {
    let admin = Address { id: 1 };
    let user1 = Address { id: 2 };
    let user2 = Address { id: 3 };
    let token_id = Address { id: 4 };

    let mut client = WhitelistContract::new();
    client.init(admin).unwrap();

    let (root, proof1, proof2) = create_test_merkle(user1, user2);

    let campaign_id = client
        .create_campaign(admin, token_id, root, 10000, 300)
        .unwrap();

    // User 1 claims
    let payment = client
        .claim(campaign_id, user1, leaf_of(user1, 100), 100, proof1, None, 0)
        .unwrap();
    assert_eq!(
        payment,
        Payment {
            token: token_id,
            recipient: user1,
            amount: 100
        }
    );

    // User 2 claims to another address
    let recipient = Address { id: 5 };
    let payment = client
        .claim(
            campaign_id,
            user2,
            leaf_of(user2, 200),
            200,
            proof2,
            Some(recipient),
            0,
        )
        .unwrap();
    assert_eq!(
        payment,
        Payment {
            token: token_id,
            recipient,
            amount: 200
        }
    );

    // Check campaign state
    let campaign = client.get_campaign(campaign_id).unwrap();
    assert_eq!(campaign.claimed_amount, 300);
}

#[test]
fn test_test_delegation() {
    let admin = Address { id: 1 };
    let delegator = Address { id: 2 };
    let delegatee = Address { id: 3 };
    let other = Address { id: 4 };
    let token_id = Address { id: 5 };

    let mut client = WhitelistContract::new();
    client.init(admin).unwrap();

    let (root, proof1, _) = create_test_merkle(delegator, other);
    let campaign_id = client
        .create_campaign(admin, token_id, root, 10000, 300)
        .unwrap();

    // Delegate
    client.delegate_claim(campaign_id, delegator, delegatee);

    // Claim as delegate
    let payment = client
        .claim_as_delegate(
            campaign_id,
            delegator,
            delegatee,
            leaf_of(delegator, 100),
            100,
            proof1,
            None,
            0,
        )
        .unwrap();

    assert_eq!(payment.recipient, delegator);
    assert_eq!(payment.amount, 100);
}

#[test]
fn test_double_claim_fails() {
    let admin = Address { id: 1 };
    let user1 = Address { id: 2 };
    let token_id = Address { id: 5 };

    let mut client = WhitelistContract::new();
    client.init(admin).unwrap();

    let (root, proof1, _) = create_test_merkle(user1, user1);
    let campaign_id = client
        .create_campaign(admin, token_id, root, 10000, 300)
        .unwrap();

    client
        .claim(campaign_id, user1, leaf_of(user1, 100), 100, proof1.clone(), None, 0)
        .unwrap();
    assert_eq!(
        client.claim(campaign_id, user1, leaf_of(user1, 100), 100, proof1, None, 0),
        Err(WhitelistError::Campaign(CampaignError::AlreadyClaimed))
    );
    assert_eq!(client.get_campaign(campaign_id).unwrap().claimed_amount, 100);
    assert!(client.has_claimed(campaign_id, user1));
    assert!(!client.has_claimed(campaign_id, admin));
    assert!(!client.has_claimed(campaign_id + 1, user1));
}

#[test]
fn test_refund() {
    let admin = Address { id: 1 };
    let user1 = Address { id: 2 };
    let token_id = Address { id: 5 };

    let mut client = WhitelistContract::new();
    client.init(admin).unwrap();

    let (root, _proof1, _) = create_test_merkle(user1, user1);
    let campaign_id = client.create_campaign(admin, token_id, root, 10, 300).unwrap();

    // Advance time past deadline (10s)
    let now = 20;

    // Refunded full 300
    assert_eq!(
        client.refund(campaign_id, now),
        Ok(Payment {
            token: token_id,
            recipient: admin,
            amount: 300
        })
    );
    let campaign = client.get_campaign(campaign_id).unwrap();
    assert!(campaign.refunded);
    assert!(!campaign.is_active);
    assert_eq!(
        client.refund(campaign_id, now),
        Err(WhitelistError::Campaign(CampaignError::AlreadyRefunded))
    );
}

#[test]
fn service_is_initialized_once() {
    let mut client = WhitelistContract::new();
    assert_eq!(client.init(Address { id: 1 }), Ok(()));
    assert_eq!(
        client.init(Address { id: 2 }),
        Err(WhitelistError::AlreadyInitialized)
    );
}

#[test]
fn campaigns_are_numbered_from_one() {
    let mut client = WhitelistContract::new();
    client.init(Address { id: 1 }).unwrap();
    let admin = Address { id: 1 };
    let token = Address { id: 2 };
    assert_eq!(client.create_campaign(admin, token, hex(LEAF_0), 5, 10), Ok(1));
    assert_eq!(client.create_campaign(admin, token, hex(LEAF_1), 6, 20), Ok(2));
    assert_eq!(client.get_campaign(2).unwrap().root, hex(LEAF_1));
    assert_eq!(client.get_campaign(2).unwrap().deadline, 6);
    assert_eq!(client.get_campaign(2).unwrap().total_amount, 20);
    assert_eq!(client.get_campaign(0), Err(WhitelistError::CampaignNotFound));
    assert_eq!(client.get_campaign(3), Err(WhitelistError::CampaignNotFound));
    assert_eq!(
        client.claim(3, admin, hex(LEAF_0), 1, vec![], None, 0),
        Err(WhitelistError::CampaignNotFound)
    );
    assert_eq!(client.refund(3, 100), Err(WhitelistError::CampaignNotFound));
}

#[test]
fn roots_are_updated() {
    let mut client = WhitelistContract::new();
    let admin = Address { id: 1 };
    let token = Address { id: 2 };
    client.init(admin).unwrap();
    client.create_campaign(admin, token, hex(LEAF_0), 5, 10).unwrap();
    client.create_campaign(admin, token, hex(LEAF_0), 5, 10).unwrap();
    assert_eq!(client.update_root(1, hex(LEAF_1)), Ok(()));
    assert_eq!(client.get_campaign(1).unwrap().root, hex(LEAF_1));
    assert_eq!(client.get_campaign(2).unwrap().root, hex(LEAF_0));
    assert_eq!(
        client.update_root(3, hex(LEAF_1)),
        Err(WhitelistError::CampaignNotFound)
    );

    assert_eq!(
        client.batch_update_roots(vec![1, 2], vec![hex(LEAF_2)]),
        Err(WhitelistError::MismatchedLengths)
    );
    assert_eq!(
        client.batch_update_roots(vec![2, 1, 2], vec![hex(LEAF_2), hex(ROOT_01), hex(ROOT_012)]),
        Ok(())
    );
    assert_eq!(client.get_campaign(1).unwrap().root, hex(ROOT_01));
    assert_eq!(client.get_campaign(2).unwrap().root, hex(ROOT_012));
    // One unknown id leaves every root as it was.
    assert_eq!(
        client.batch_update_roots(vec![1, 3], vec![hex(LEAF_0), hex(LEAF_0)]),
        Err(WhitelistError::CampaignNotFound)
    );
    assert_eq!(client.get_campaign(1).unwrap().root, hex(ROOT_01));
    assert_eq!(client.batch_update_roots(vec![], vec![]), Ok(()));
}

#[test]
fn delegates_claim_only_when_chosen() {
    let mut client = WhitelistContract::new();
    let admin = Address { id: 1 };
    let token = Address { id: 2 };
    let delegator = Address { id: 3 };
    let first = Address { id: 4 };
    let second = Address { id: 5 };
    client.init(admin).unwrap();
    let (root, proof, _) = create_test_merkle(delegator, admin);
    let id = client.create_campaign(admin, token, root, 100, 300).unwrap();
    let leaf = leaf_of(delegator, 100);

    assert_eq!(client.get_delegate(id, delegator), None);
    assert_eq!(
        client.claim_as_delegate(id, delegator, first, leaf, 100, proof.clone(), None, 0),
        Err(WhitelistError::NoDelegation)
    );
    client.delegate_claim(id, delegator, first);
    client.delegate_claim(id + 1, delegator, second);
    assert_eq!(client.get_delegate(id, delegator), Some(first));
    assert_eq!(client.get_delegate(id + 1, delegator), Some(second));
    client.delegate_claim(id, delegator, second);
    assert_eq!(client.get_delegate(id, delegator), Some(second));
    assert_eq!(
        client.claim_as_delegate(id, delegator, first, leaf, 100, proof.clone(), None, 0),
        Err(WhitelistError::UnauthorizedDelegate)
    );
    assert_eq!(
        client.claim_as_delegate(id, delegator, second, leaf, 100, proof.clone(), Some(second), 101),
        Err(WhitelistError::Campaign(CampaignError::Expired))
    );
    assert_eq!(
        client.claim_as_delegate(id, delegator, second, leaf, 100, proof, Some(second), 100),
        Ok(Payment {
            token,
            recipient: second,
            amount: 100
        })
    );
    assert!(client.has_claimed(id, delegator));
}
