//! The records of the escrow service.
use crate::address::Address;
use vstd::prelude::*;

verus! {

/// All of an amount, in basis points.
pub const BASIS_POINTS: u32 = 10000;

/// The smallest amount that can be escrowed.
pub const MIN_AMOUNT: i128 = 1_000_000;

/// The platform's fee at the start: a tenth.
pub const DEFAULT_PLATFORM_FEE_BPS: u32 = 1000;

/// The referral reward at the start: a twentieth.
pub const DEFAULT_REFERRAL_REWARD_BPS: u32 = 500;

/// The organizer's share at the start: the rest.
pub const DEFAULT_ORGANIZER_SHARE_BPS: u32 = 8500;

/// Where an escrow stands.
#[derive(Clone, Copy, Debug, PartialEq, Eq, Structural)]
pub enum EscrowStatus {
    Created,
    Funded,
    InDispute,
    Resolved,
    Refunded,
    Completed,
    Cancelled,
}

/// Where a dispute stands.
#[derive(Clone, Copy, Debug, PartialEq, Eq, Structural)]
pub enum DisputeStatus {
    Open,
    InReview,
    Resolved,
    Rejected,
}

/// Where a milestone stands.
#[derive(Clone, Copy, Debug, PartialEq, Eq, Structural)]
pub enum MilestoneStatus {
    Pending,
    Completed,
    Released,
}

/// How an escrowed amount is shared out, in basis points.
#[derive(Clone, Debug, PartialEq, Eq)]
pub struct RevenueSplit {
    pub organizer_share_bps: u32,
    pub platform_fee_bps: u32,
    pub referral_reward_bps: u32,
    pub organizer: Address,
    pub referral_code: Option<String>,
}

/// The token in which an escrow is held.
#[derive(Clone, Copy, Debug, PartialEq, Eq, Structural)]
pub enum TokenType {
    /// The ledger's native token.
    Native,
    /// The token of the contract at this address.
    SorobanToken(Address),
}

/// An amount held for a payee until a release time.
#[derive(Clone, Debug, PartialEq, Eq)]
pub struct Escrow {
    pub id: u64,
    pub token_type: TokenType,
    pub amount: i128,
    pub payer: Address,
    pub payee: Address,
    pub status: EscrowStatus,
    pub created_at: u64,
    /// The time from which the funds can be released.
    pub release_time: u64,
    pub revenue_split: RevenueSplit,
    pub description: String,
    pub metadata: String,
    pub total_milestones: u32,
    pub completed_milestones: u32,
    pub is_multi_day_event: bool,
}

/// A dispute over an escrow.
#[derive(Clone, Debug, PartialEq, Eq)]
pub struct Dispute {
    pub id: u64,
    pub escrow_id: u64,
    pub raiser: Address,
    pub resolver: Option<Address>,
    pub status: DisputeStatus,
    pub reason: String,
    pub evidence: String,
    pub raised_at: u64,
    pub resolved_at: Option<u64>,
    pub resolution_notes: Option<String>,
}

/// A part of an escrow that is released on its own.
#[derive(Clone, Debug, PartialEq, Eq)]
pub struct Milestone {
    pub id: u32,
    pub escrow_id: u64,
    pub name: String,
    pub description: String,
    /// The part of the escrow's amount, in basis points.
    pub amount_percentage: u32,
    pub due_date: u64,
    pub completed_at: Option<u64>,
    pub released_at: Option<u64>,
    pub status: MilestoneStatus,
}

/// A referral code and what it has earned.
#[derive(Clone, Debug, PartialEq, Eq)]
pub struct Referral {
    pub code: String,
    pub creator: Address,
    pub total_earnings: i128,
    pub total_referrals: u32,
    pub created_at: u64,
    pub is_active: bool,
}

/// What is fixed when the service is initialized, its switch and its
/// counters.
#[derive(Clone, Copy, Debug, PartialEq, Eq, Structural)]
pub struct Settings {
    pub admin: Address,
    pub emergency_admin: Address,
    pub paused: bool,
    pub next_escrow_id: u64,
    pub total_escrows: u64,
    pub platform_fee_bps: u32,
    pub referral_reward_bps: u32,
    pub organizer_share_bps: u32,
}

/// What happened to an escrow, a dispute or a milestone, by their ids.
#[derive(Clone, Copy, Debug, PartialEq, Eq, Structural)]
pub enum EscrowEvent {
    EscrowCreated(u64),
    EscrowFunded(u64),
    EscrowReleased(u64),
    EscrowRefunded(u64),
    DisputeRaised(u64, u64),
    DisputeResolved(u64, u64),
    MilestoneCompleted(u64, u32),
    MilestoneReleased(u64, u32),
    RevenueDistributed(u64),
}

/// Why an escrow operation was refused.
#[derive(Clone, Copy, Debug, PartialEq, Eq, Structural)]
pub enum EscrowError {
    AlreadyInitialized,
    NotAuthorized,
    EscrowNotFound,
    DisputeNotFound,
    InvalidStatus,
    AmountTooSmall,
    TimeNotReached,
    MilestoneNotFound,
    ReferralNotFound,
    InvalidRevenueSplit,
    ContractPaused,
    EmergencyOnly,
    InvalidTokenType,
    ArithmeticError,
    /// The service is not initialized.
    NotInitialized,
}

} // verus!
