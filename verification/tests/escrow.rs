use contracts::address::Address;
use contracts::escrow::shares::{
    calculate_share, distribute, validate_amount, validate_revenue_split, Distribution,
};
use contracts::escrow::storage_types::{
    EscrowError, RevenueSplit, BASIS_POINTS, DEFAULT_ORGANIZER_SHARE_BPS,
    DEFAULT_PLATFORM_FEE_BPS, DEFAULT_REFERRAL_REWARD_BPS, MIN_AMOUNT,
};

fn split(organizer: u32, platform: u32, referral: u32) -> RevenueSplit {
    RevenueSplit {
        organizer_share_bps: organizer,
        platform_fee_bps: platform,
        referral_reward_bps: referral,
        organizer: Address { id: 1 },
        referral_code: None,
    }
}

#[test]
fn shares_are_basis_points() {
    assert_eq!(calculate_share(100_000_000, 1000), 10_000_000);
    assert_eq!(calculate_share(100_000_000, 500), 5_000_000);
    assert_eq!(calculate_share(9_999, 1), 0);
    assert_eq!(calculate_share(10_000, 1), 1);
    assert_eq!(calculate_share(-19_999, 1), -1);
    assert_eq!(calculate_share(12_345, 10_000), 12_345);
    assert_eq!(calculate_share(0, 10_000), 0);
}

#[test]
fn amounts_have_a_minimum() {
    assert_eq!(MIN_AMOUNT, 1_000_000);
    assert_eq!(validate_amount(1_000_000), Ok(()));
    assert_eq!(validate_amount(999_999), Err(EscrowError::AmountTooSmall));
    assert_eq!(validate_amount(-1), Err(EscrowError::AmountTooSmall));
}

#[test]
fn splits_stay_within_the_whole() {
    assert_eq!(BASIS_POINTS, 10_000);
    assert_eq!(
        validate_revenue_split(&split(
            DEFAULT_ORGANIZER_SHARE_BPS,
            DEFAULT_PLATFORM_FEE_BPS,
            DEFAULT_REFERRAL_REWARD_BPS
        )),
        Ok(())
    );
    assert_eq!(validate_revenue_split(&split(8500, 1000, 500)), Ok(()));
    assert_eq!(
        validate_revenue_split(&split(9000, 1500, 1000)),
        Err(EscrowError::InvalidRevenueSplit)
    );
    assert_eq!(
        validate_revenue_split(&split(8500, 1000, 501)),
        Err(EscrowError::InvalidRevenueSplit)
    );
    assert_eq!(
        validate_revenue_split(&split(u32::MAX, u32::MAX, 2)),
        Err(EscrowError::InvalidRevenueSplit)
    );
}

#[test]
fn distribution_adds_up() {
    assert_eq!(
        distribute(100_000_000, &split(8500, 1000, 500)),
        Distribution {
            platform_fee: 10_000_000,
            referral_reward: 5_000_000,
            organizer_share: 85_000_000
        }
    );
    let parts = distribute(1_000_003, &split(8500, 1000, 500));
    assert_eq!(parts.platform_fee, 100_000);
    assert_eq!(parts.referral_reward, 50_000);
    assert_eq!(parts.organizer_share, 850_003);
    let parts = distribute(7, &split(0, 5000, 5000));
    assert_eq!(parts.platform_fee + parts.referral_reward + parts.organizer_share, 7);
    assert_eq!(parts.organizer_share, 1);
}
