//! The escrow service: escrows, their milestones and disputes, and referral
//! codes.
use crate::address::Address;
use crate::escrow::lifecycle::{
    check_bps,
    check_open,
    checked_share,
    closed,
    shares,
    shares_fit,
    split_amount,
};
use crate::escrow::shares::{share_of, validate_amount, validate_revenue_split};
use crate::escrow::storage_types::{
    Dispute,
    DisputeStatus,
    Escrow,
    EscrowError,
    EscrowStatus,
    Milestone,
    MilestoneStatus,
    Referral,
    RevenueSplit,
    Settings,
    TokenType,
    BASIS_POINTS,
    DEFAULT_ORGANIZER_SHARE_BPS,
    DEFAULT_PLATFORM_FEE_BPS,
    DEFAULT_REFERRAL_REWARD_BPS,
    MIN_AMOUNT,
};
use std::collections::HashMap;
use vstd::prelude::*;

verus! {

broadcast use vstd::std_specs::hash::group_hash_axioms;

/// A milestone under the escrow and the id it is kept under.
#[derive(Clone, Debug, PartialEq, Eq)]
pub struct MilestoneEntry {
    pub escrow_id: u64,
    pub milestone_id: u32,
    pub milestone: Milestone,
}

/// What each party is to receive of an amount, and who the parties are.
#[derive(Clone, Copy, Debug, PartialEq, Eq, Structural)]
pub struct Payout {
    pub token_type: TokenType,
    pub platform: Address,
    pub platform_fee: i128,
    /// The creator of the referral code, or the platform where there is no
    /// code.
    pub referrer: Address,
    pub referral_reward: i128,
    pub organizer: Address,
    pub organizer_share: i128,
}

/// A payment that the caller is to make to or from the service's holdings.
#[derive(Clone, Copy, Debug, PartialEq, Eq, Structural)]
pub struct Transfer {
    pub token_type: TokenType,
    /// Who pays in, or who is paid out.
    pub party: Address,
    pub amount: i128,
}

/// How a dispute was settled.
#[derive(Clone, Copy, Debug, PartialEq, Eq, Structural)]
pub enum Settlement {
    /// The whole amount goes back to the payer.
    Refund(Transfer),
    /// The amount is shared out as in a release.
    Release(Payout),
}

/// Where the milestone kept under the two ids is: the last entry with
/// these ids.
pub open spec fn milestone_at(entries: Seq<MilestoneEntry>, escrow_id: u64, milestone_id: u32) -> Option<
    int,
>
    decreases entries.len(),
{
    if entries.len() == 0 {
        None
    } else if entries.last().escrow_id == escrow_id && entries.last().milestone_id == milestone_id {
        Some(entries.len() - 1)
    } else {
        milestone_at(entries.drop_last(), escrow_id, milestone_id)
    }
}

/// Where the referral with this code is: the last one with the code.
pub open spec fn referral_at(referrals: Seq<Referral>, code: Seq<char>) -> Option<int>
    decreases referrals.len(),
{
    if referrals.len() == 0 {
        None
    } else if referrals.last().code@ == code {
        Some(referrals.len() - 1)
    } else {
        referral_at(referrals.drop_last(), code)
    }
}

/// The entries under which the milestones of a new escrow are kept.
pub open spec fn entries_of(escrow_id: u64, milestones: Seq<Milestone>) -> Seq<MilestoneEntry> {
    Seq::new(
        milestones.len(),
        |i: int|
            MilestoneEntry { escrow_id, milestone_id: milestones[i].id, milestone: milestones[i] },
    )
}

/// A place found by `milestone_at` holds an entry with the ids asked for.
pub proof fn lemma_milestone_at(entries: Seq<MilestoneEntry>, escrow_id: u64, milestone_id: u32)
    ensures
        match milestone_at(entries, escrow_id, milestone_id) {
            Some(index) => 0 <= index < entries.len() && entries[index].escrow_id == escrow_id
                && entries[index].milestone_id == milestone_id,
            None => true,
        },
    decreases entries.len(),
{
    if entries.len() > 0 {
        lemma_milestone_at(entries.drop_last(), escrow_id, milestone_id);
    }
}

/// A place found by `referral_at` holds a referral with the code asked for.
pub proof fn lemma_referral_at(referrals: Seq<Referral>, code: Seq<char>)
    ensures
        match referral_at(referrals, code) {
            Some(index) => 0 <= index < referrals.len() && referrals[index].code@ == code,
            None => true,
        },
    decreases referrals.len(),
{
    if referrals.len() > 0 {
        lemma_referral_at(referrals.drop_last(), code);
    }
}

/// Everything the service remembers.
#[verifier::ext_equal]
pub struct State {
    /// `None` until the service is initialized.
    pub settings: Option<Settings>,
    /// The escrows by their ids.
    pub escrows: Map<u64, Escrow>,
    /// The disputes by their ids.
    pub disputes: Map<u64, Dispute>,
    /// The milestones, each under the ids it was stored with.
    pub milestones: Seq<MilestoneEntry>,
    /// The referral codes.
    pub referrals: Seq<Referral>,
}

impl State {
    /// The state of a service that was never used.
    pub open spec fn empty() -> State {
        State {
            settings: None,
            escrows: Map::empty(),
            disputes: Map::empty(),
            milestones: Seq::empty(),
            referrals: Seq::empty(),
        }
    }

    /// Why the service takes no orders, if it takes none: it is not
    /// initialized, or it is paused.
    pub open spec fn closed(self) -> Option<EscrowError> {
        closed(self.settings)
    }

    /// Why `amount` of an escrow cannot be shared out, if it cannot.
    pub open spec fn payout_refused(self, escrow: Escrow, amount: int) -> Option<EscrowError> {
        if !shares_fit(amount, escrow.revenue_split) {
            Some(EscrowError::ArithmeticError)
        } else if self.settings is None {
            Some(EscrowError::NotInitialized)
        } else if escrow.revenue_split.referral_code is Some && referral_at(
            self.referrals,
            escrow.revenue_split.referral_code->Some_0@,
        ) is None {
            Some(EscrowError::ReferralNotFound)
        } else {
            None
        }
    }

    /// How `amount` of an escrow is shared out: the platform's fee and the
    /// referral reward by their basis points, the rest to the organizer.
    pub open spec fn payout(self, escrow: Escrow, amount: int) -> Payout {
        let parts = shares(amount, escrow.revenue_split);
        Payout {
            token_type: escrow.token_type,
            platform: self.settings->Some_0.admin,
            platform_fee: parts.platform_fee,
            referrer: match escrow.revenue_split.referral_code {
                Some(code) => self.referrals[referral_at(self.referrals, code@)->Some_0].creator,
                None => self.settings->Some_0.admin,
            },
            referral_reward: parts.referral_reward,
            organizer: escrow.revenue_split.organizer,
            organizer_share: parts.organizer_share,
        }
    }

    /// Why an escrow cannot be released in full, if it cannot: its amount
    /// cannot be shared out, or the earnings of its referral code cannot grow.
    pub open spec fn release_refused(self, escrow: Escrow) -> Option<EscrowError> {
        match self.payout_refused(escrow, escrow.amount as int) {
            Some(error) => Some(error),
            None => match escrow.revenue_split.referral_code {
                None => None,
                Some(code) => {
                    let referral = self.referrals[referral_at(self.referrals, code@)->Some_0];
                    if referral.credit_fits(
                        share_of(
                            escrow.amount as int,
                            escrow.revenue_split.referral_reward_bps as int,
                        ),
                    ) {
                        None
                    } else {
                        Some(EscrowError::ArithmeticError)
                    }
                },
            },
        }
    }

    /// The referral codes after an escrow is released in full: the code of
    /// the escrow, if it has one, has earned the referral reward and counts one
    /// referral more.
    pub open spec fn referrals_after(self, escrow: Escrow) -> Seq<Referral> {
        match escrow.revenue_split.referral_code {
            None => self.referrals,
            Some(code) => {
                let index = referral_at(self.referrals, code@)->Some_0;
                self.referrals.update(
                    index,
                    self.referrals[index].credited(
                        share_of(
                            escrow.amount as int,
                            escrow.revenue_split.referral_reward_bps as int,
                        ),
                    ),
                )
            },
        }
    }

    /// Why an escrow cannot be created, if it cannot.
    pub open spec fn create_refused(
        self,
        amount: i128,
        revenue_split: RevenueSplit,
        milestones: Option<Vec<Milestone>>,
    ) -> Option<EscrowError> {
        if self.closed() is Some {
            self.closed()
        } else if amount < MIN_AMOUNT {
            Some(EscrowError::AmountTooSmall)
        } else if revenue_split.organizer_share_bps + revenue_split.platform_fee_bps
            + revenue_split.referral_reward_bps > BASIS_POINTS {
            Some(EscrowError::InvalidRevenueSplit)
        } else if revenue_split.referral_code is Some && referral_at(
            self.referrals,
            revenue_split.referral_code->Some_0@,
        ) is None {
            Some(EscrowError::ReferralNotFound)
        } else if (milestones is Some && milestones->Some_0@.len() > u32::MAX)
            || self.settings->Some_0.next_escrow_id == u64::MAX
            || self.settings->Some_0.total_escrows == u64::MAX {
            Some(EscrowError::ArithmeticError)
        } else {
            None
        }
    }

    /// Why the escrow `id` cannot leave the status `from`, if it cannot.
    pub open spec fn step_refused(self, id: u64, from: EscrowStatus) -> Option<EscrowError> {
        if !self.escrows.contains_key(id) {
            Some(EscrowError::EscrowNotFound)
        } else if self.closed() is Some {
            self.closed()
        } else if self.escrows[id].status != from {
            Some(EscrowError::InvalidStatus)
        } else {
            None
        }
    }

    /// The state with the escrow `id` in another status.
    pub open spec fn with_status(self, id: u64, status: EscrowStatus) -> State {
        State { escrows: self.escrows.insert(id, Escrow { status, ..self.escrows[id] }), ..self }
    }

    /// Why a milestone cannot be completed, if it cannot.
    pub open spec fn complete_refused(self, escrow_id: u64, milestone_id: u32) -> Option<
        EscrowError,
    > {
        if self.step_refused(escrow_id, EscrowStatus::Funded) is Some {
            self.step_refused(escrow_id, EscrowStatus::Funded)
        } else if milestone_at(self.milestones, escrow_id, milestone_id) is None {
            Some(EscrowError::MilestoneNotFound)
        } else if self.milestones[milestone_at(
            self.milestones,
            escrow_id,
            milestone_id,
        )->Some_0].milestone.status != MilestoneStatus::Pending {
            Some(EscrowError::InvalidStatus)
        } else if self.escrows[escrow_id].completed_milestones == u32::MAX {
            Some(EscrowError::ArithmeticError)
        } else {
            None
        }
    }

    /// The part of an escrow's amount that a milestone releases.
    pub open spec fn milestone_amount(self, escrow_id: u64, index: int) -> int {
        share_of(
            self.escrows[escrow_id].amount as int,
            self.milestones[index].milestone.amount_percentage as int,
        )
    }

    /// Why a milestone cannot be released, if it cannot.
    pub open spec fn release_milestone_refused(self, escrow_id: u64, milestone_id: u32) -> Option<
        EscrowError,
    > {
        if !self.escrows.contains_key(escrow_id) {
            Some(EscrowError::EscrowNotFound)
        } else if self.closed() is Some {
            self.closed()
        } else if milestone_at(self.milestones, escrow_id, milestone_id) is None {
            Some(EscrowError::MilestoneNotFound)
        } else {
            let index = milestone_at(self.milestones, escrow_id, milestone_id)->Some_0;
            if self.milestones[index].milestone.status != MilestoneStatus::Completed {
                Some(EscrowError::InvalidStatus)
            } else if !(i128::MIN <= self.escrows[escrow_id].amount
                * self.milestones[index].milestone.amount_percentage <= i128::MAX) {
                Some(EscrowError::ArithmeticError)
            } else {
                self.payout_refused(self.escrows[escrow_id], self.milestone_amount(escrow_id, index))
            }
        }
    }

    /// Why a dispute cannot be raised, if it cannot.
    pub open spec fn dispute_refused(self, escrow_id: u64, caller: Address) -> Option<EscrowError> {
        if !self.escrows.contains_key(escrow_id) {
            Some(EscrowError::EscrowNotFound)
        } else if caller != self.escrows[escrow_id].payer && caller
            != self.escrows[escrow_id].payee {
            Some(EscrowError::NotAuthorized)
        } else if self.closed() is Some {
            self.closed()
        } else if self.escrows[escrow_id].status != EscrowStatus::Funded
            && self.escrows[escrow_id].status != EscrowStatus::InDispute {
            Some(EscrowError::InvalidStatus)
        } else {
            None
        }
    }

    /// Why a dispute cannot be resolved, if it cannot.
    pub open spec fn resolve_refused(self, dispute_id: u64, refund_to_payer: bool) -> Option<
        EscrowError,
    > {
        if self.closed() is Some {
            self.closed()
        } else if !self.disputes.contains_key(dispute_id) {
            Some(EscrowError::DisputeNotFound)
        } else if !self.escrows.contains_key(self.disputes[dispute_id].escrow_id) {
            Some(EscrowError::EscrowNotFound)
        } else if self.disputes[dispute_id].status != DisputeStatus::Open {
            Some(EscrowError::InvalidStatus)
        } else if refund_to_payer {
            None
        } else {
            self.release_refused(self.escrows[self.disputes[dispute_id].escrow_id])
        }
    }
}

/// The escrow service.
pub struct EscrowContract {
    settings: Option<Settings>,
    escrows: HashMap<u64, Escrow>,
    disputes: HashMap<u64, Dispute>,
    milestones: Vec<MilestoneEntry>,
    referrals: Vec<Referral>,
}

impl View for EscrowContract {
    type V = State;

    closed spec fn view(&self) -> State {
        State {
            settings: self.settings,
            escrows: self.escrows@,
            disputes: self.disputes@,
            milestones: self.milestones@,
            referrals: self.referrals@,
        }
    }
}

impl EscrowContract {
    /// A service that holds nothing and is not initialized.
    pub fn new() -> (contract: EscrowContract)
        ensures
            contract@ == State::empty(),
    {
        EscrowContract {
            settings: None,
            escrows: HashMap::new(),
            disputes: HashMap::new(),
            milestones: Vec::new(),
            referrals: Vec::new(),
        }
    }

    /// Initializes the service, once: open, with the default shares, and
    /// escrows numbered from 1.
    pub fn initialize(&mut self, admin: Address, emergency_admin: Address) -> (done: Result<
        (),
        EscrowError,
    >)
        ensures
            match old(self)@.settings {
                Some(_) => done == Err::<(), EscrowError>(EscrowError::AlreadyInitialized) && final(self)@ == old(self)@,
                None => done is Ok && final(self)@ == (State {
                    settings: Some(
                        Settings {
                            admin,
                            emergency_admin,
                            paused: false,
                            next_escrow_id: 1,
                            total_escrows: 0,
                            platform_fee_bps: DEFAULT_PLATFORM_FEE_BPS,
                            referral_reward_bps: DEFAULT_REFERRAL_REWARD_BPS,
                            organizer_share_bps: DEFAULT_ORGANIZER_SHARE_BPS,
                        },
                    ),
                    ..old(self)@
                }),
            },
    {
        if self.settings.is_some() {
            return Err(EscrowError::AlreadyInitialized);
        }
        self.settings = Some(
            Settings {
                admin,
                emergency_admin,
                paused: false,
                next_escrow_id: 1,
                total_escrows: 0,
                platform_fee_bps: DEFAULT_PLATFORM_FEE_BPS,
                referral_reward_bps: DEFAULT_REFERRAL_REWARD_BPS,
                organizer_share_bps: DEFAULT_ORGANIZER_SHARE_BPS,
            },
        );
        Ok(())
    }

    /// Whether the service takes orders.
    fn check_paused(&self) -> (open: Result<Settings, EscrowError>)
        ensures
            match self@.closed() {
                Some(error) => open == Err::<Settings, EscrowError>(error),
                None => open == Ok::<Settings, EscrowError>(self@.settings->Some_0),
            },
    {
        check_open(self.settings)
    }

    /// Where the milestone kept under the two ids is.
    fn find_milestone(&self, escrow_id: u64, milestone_id: u32) -> (found: Option<usize>)
        ensures
            match found {
                Some(index) => milestone_at(self@.milestones, escrow_id, milestone_id) == Some(
                    index as int,
                ) && index < self@.milestones.len(),
                None => milestone_at(self@.milestones, escrow_id, milestone_id) is None,
            },
    {
        let mut i: usize = self.milestones.len();
        proof {
            assert(self.milestones@.take(i as int) =~= self.milestones@);
        }
        while i > 0
            invariant
                i <= self.milestones.len(),
                milestone_at(self.milestones@, escrow_id, milestone_id) == milestone_at(
                    self.milestones@.take(i as int),
                    escrow_id,
                    milestone_id,
                ),
            decreases i,
        {
            proof {
                assert(self.milestones@.take(i as int).drop_last() =~= self.milestones@.take(i - 1));
            }
            i -= 1;
            if self.milestones[i].escrow_id == escrow_id && self.milestones[i].milestone_id
                == milestone_id {
                return Some(i);
            }
        }
        None
    }

    /// Where the referral with this code is.
    fn find_referral(&self, code: &String) -> (found: Option<usize>)
        ensures
            match found {
                Some(index) => referral_at(self@.referrals, code@) == Some(index as int) && index
                    < self@.referrals.len(),
                None => referral_at(self@.referrals, code@) is None,
            },
    {
        let mut i: usize = self.referrals.len();
        proof {
            assert(self.referrals@.take(i as int) =~= self.referrals@);
        }
        while i > 0
            invariant
                i <= self.referrals.len(),
                referral_at(self.referrals@, code@) == referral_at(
                    self.referrals@.take(i as int),
                    code@,
                ),
            decreases i,
        {
            proof {
                assert(self.referrals@.take(i as int).drop_last() =~= self.referrals@.take(i - 1));
            }
            i -= 1;
            if self.referrals[i].code == *code {
                return Some(i);
            }
        }
        None
    }

    /// How `amount` of an escrow is shared out.
    fn distribute(&self, escrow: &Escrow, amount: i128) -> (payout: Result<Payout, EscrowError>)
        ensures
            match self@.payout_refused(*escrow, amount as int) {
                Some(error) => payout == Err::<Payout, EscrowError>(error),
                None => payout == Ok::<Payout, EscrowError>(self@.payout(*escrow, amount as int)),
            },
    {
        let parts = match split_amount(amount, &escrow.revenue_split) {
            Ok(parts) => parts,
            Err(error) => {
                return Err(error);
            },
        };
        let admin: Address = match self.settings {
            Some(settings) => settings.admin,
            None => {
                return Err(EscrowError::NotInitialized);
            },
        };
        let referrer: Address = match &escrow.revenue_split.referral_code {
            Some(code) => match self.find_referral(code) {
                Some(index) => self.referrals[index].creator,
                None => {
                    return Err(EscrowError::ReferralNotFound);
                },
            },
            None => admin,
        };
        Ok(
            Payout {
                token_type: escrow.token_type,
                platform: admin,
                platform_fee: parts.platform_fee,
                referrer,
                referral_reward: parts.referral_reward,
                organizer: escrow.revenue_split.organizer,
                organizer_share: parts.organizer_share,
            },
        )
    }

    /// Shares out the whole amount of an escrow and credits its referral
    /// code.
    fn settle(&mut self, escrow: &Escrow) -> (payout: Result<Payout, EscrowError>)
        ensures
            match old(self)@.release_refused(*escrow) {
                Some(error) => payout == Err::<Payout, EscrowError>(error) && final(self)@ == old(self)@,
                None => payout == Ok::<Payout, EscrowError>(
                    old(self)@.payout(*escrow, escrow.amount as int),
                ) && final(self)@ == (State {
                    referrals: old(self)@.referrals_after(*escrow),
                    ..old(self)@
                }),
            },
    {
        let payout: Payout = match self.distribute(escrow, escrow.amount) {
            Ok(payout) => payout,
            Err(error) => {
                return Err(error);
            },
        };
        match &escrow.revenue_split.referral_code {
            None => {},
            Some(code) => {
                let index: usize = match self.find_referral(code) {
                    Some(index) => index,
                    None => {
                        return Err(EscrowError::ReferralNotFound);
                    },
                };
                let mut referral: Referral = self.referrals.remove(index);
                let credited = referral.credit(payout.referral_reward);
                self.referrals.insert(index, referral);
                match credited {
                    Ok(()) => {
                        proof {
                            assert(self.referrals@ =~= old(self)@.referrals_after(*escrow));
                        }
                    },
                    Err(error) => {
                        proof {
                            assert(self.referrals@ =~= old(self)@.referrals);
                        }
                        return Err(error);
                    },
                }
            },
        }
        Ok(payout)
    }

    /// Creates an escrow at `now`, in the status `Created`, and returns its
    /// id, the next in the count. Its milestones are kept under the escrow's
    /// id and their own.
    pub fn create_escrow(
        &mut self,
        token_type: TokenType,
        amount: i128,
        payer: Address,
        payee: Address,
        release_time: u64,
        revenue_split: RevenueSplit,
        description: String,
        metadata: String,
        is_multi_day_event: bool,
        milestones: Option<Vec<Milestone>>,
        now: u64,
    ) -> (escrow_id: Result<u64, EscrowError>)
        ensures
            match old(self)@.create_refused(amount, revenue_split, milestones) {
                Some(error) => escrow_id == Err::<u64, EscrowError>(error) && final(self)@ == old(self)@,
                None => {
                    let settings = old(self)@.settings->Some_0;
                    let id = settings.next_escrow_id;
                    &&& escrow_id == Ok::<u64, EscrowError>(id)
                    &&& final(self)@ == (State {
                        settings: Some(
                            Settings {
                                next_escrow_id: (id + 1) as u64,
                                total_escrows: (settings.total_escrows + 1) as u64,
                                ..settings
                            },
                        ),
                        escrows: old(self)@.escrows.insert(
                            id,
                            Escrow {
                                id,
                                token_type,
                                amount,
                                payer,
                                payee,
                                status: EscrowStatus::Created,
                                created_at: now,
                                release_time,
                                revenue_split,
                                description,
                                metadata,
                                total_milestones: match milestones {
                                    Some(list) => list@.len() as u32,
                                    None => 0,
                                },
                                completed_milestones: 0,
                                is_multi_day_event,
                            },
                        ),
                        milestones: match milestones {
                            Some(list) => old(self)@.milestones + entries_of(id, list@),
                            None => old(self)@.milestones,
                        },
                        ..old(self)@
                    })
                },
            },
    {
        let mut settings: Settings = match self.check_paused() {
            Ok(settings) => settings,
            Err(error) => {
                return Err(error);
            },
        };
        match validate_amount(amount) {
            Ok(()) => {},
            Err(error) => {
                return Err(error);
            },
        }
        match validate_revenue_split(&revenue_split) {
            Ok(()) => {},
            Err(error) => {
                return Err(error);
            },
        }
        match &revenue_split.referral_code {
            Some(code) => {
                if self.find_referral(code).is_none() {
                    return Err(EscrowError::ReferralNotFound);
                }
            },
            None => {},
        }
        let total_milestones: u32 = match &milestones {
            Some(list) => {
                if list.len() > u32::MAX as usize {
                    return Err(EscrowError::ArithmeticError);
                }
                list.len() as u32
            },
            None => 0,
        };
        let id: u64 = settings.next_escrow_id;
        if id == u64::MAX || settings.total_escrows == u64::MAX {
            return Err(EscrowError::ArithmeticError);
        }
        let escrow = Escrow::open(
            id,
            token_type,
            amount,
            payer,
            payee,
            release_time,
            revenue_split,
            description,
            metadata,
            is_multi_day_event,
            total_milestones,
            now,
        );
        self.escrows.insert(id, escrow);
        match milestones {
            Some(list) => {
                self.store_milestones(id, list);
            },
            None => {},
        }
        settings.next_escrow_id = id + 1;
        settings.total_escrows = settings.total_escrows + 1;
        self.settings = Some(settings);
        Ok(id)
    }

    /// Keeps the milestones of the escrow `escrow_id`, each under its own id.
    fn store_milestones(&mut self, escrow_id: u64, list: Vec<Milestone>)
        ensures
            final(self)@ == (State {
                milestones: old(self)@.milestones + entries_of(escrow_id, list@),
                ..old(self)@
            }),
    {
        let mut rest: Vec<Milestone> = list;
        let ghost all = rest@;
        let ghost mut done: int = 0;
        while rest.len() > 0
            invariant
                0 <= done <= all.len(),
                rest@ == all.skip(done),
                self@ == (State {
                    milestones: old(self)@.milestones + entries_of(escrow_id, all.take(done)),
                    ..old(self)@
                }),
            decreases rest.len(),
        {
            let milestone: Milestone = rest.remove(0);
            proof {
                assert(milestone == all[done]);
                assert(rest@ =~= all.skip(done + 1));
                assert(entries_of(escrow_id, all.take(done + 1)) =~= entries_of(
                    escrow_id,
                    all.take(done),
                ).push(
                    MilestoneEntry { escrow_id, milestone_id: milestone.id, milestone },
                ));
            }
            self.milestones.push(MilestoneEntry { escrow_id, milestone_id: milestone.id, milestone });
            proof {
                done = done + 1;
                assert(self.milestones@ =~= old(self)@.milestones + entries_of(
                    escrow_id,
                    all.take(done),
                ));
            }
        }
        proof {
            assert(all.take(done) =~= all);
        }
    }

    /// Marks a created escrow as funded, and returns the deposit that the
    /// payer is to make.
    pub fn fund_escrow(&mut self, escrow_id: u64) -> (deposit: Result<Transfer, EscrowError>)
        ensures
            match old(self)@.step_refused(escrow_id, EscrowStatus::Created) {
                Some(error) => deposit == Err::<Transfer, EscrowError>(error) && final(self)@
                    == old(self)@,
                None => deposit == Ok::<Transfer, EscrowError>(
                    Transfer {
                        token_type: old(self)@.escrows[escrow_id].token_type,
                        party: old(self)@.escrows[escrow_id].payer,
                        amount: old(self)@.escrows[escrow_id].amount,
                    },
                ) && final(self)@ == old(self)@.with_status(escrow_id, EscrowStatus::Funded),
            },
    {
        let mut escrow: Escrow = match self.escrows.remove(&escrow_id) {
            Some(escrow) => escrow,
            None => {
                proof {
                    assert(self@ =~= old(self)@);
                }
                return Err(EscrowError::EscrowNotFound);
            },
        };
        let outcome: Result<Transfer, EscrowError> = match self.check_paused() {
            Err(error) => Err(error),
            Ok(_) => match escrow.step(EscrowStatus::Created, EscrowStatus::Funded) {
                Err(error) => Err(error),
                Ok(()) => Ok(
                    Transfer {
                        token_type: escrow.token_type,
                        party: escrow.payer,
                        amount: escrow.amount,
                    },
                ),
            },
        };
        self.escrows.insert(escrow_id, escrow);
        proof {
            assert(self.escrows@ =~= old(self)@.escrows.insert(escrow_id, escrow));
            if outcome is Err {
                assert(self@ =~= old(self)@);
            }
        }
        outcome
    }

    /// Cancels an escrow that was not funded yet.
    pub fn cancel_escrow(&mut self, escrow_id: u64) -> (done: Result<(), EscrowError>)
        ensures
            match old(self)@.step_refused(escrow_id, EscrowStatus::Created) {
                Some(error) => done == Err::<(), EscrowError>(error) && final(self)@ == old(self)@,
                None => done is Ok && final(self)@ == old(self)@.with_status(
                    escrow_id,
                    EscrowStatus::Cancelled,
                ),
            },
    {
        let mut escrow: Escrow = match self.escrows.remove(&escrow_id) {
            Some(escrow) => escrow,
            None => {
                proof {
                    assert(self@ =~= old(self)@);
                }
                return Err(EscrowError::EscrowNotFound);
            },
        };
        let outcome: Result<(), EscrowError> = match self.check_paused() {
            Err(error) => Err(error),
            Ok(_) => escrow.step(EscrowStatus::Created, EscrowStatus::Cancelled),
        };
        self.escrows.insert(escrow_id, escrow);
        proof {
            assert(self.escrows@ =~= old(self)@.escrows.insert(escrow_id, escrow));
            if outcome is Err {
                assert(self@ =~= old(self)@);
            }
        }
        outcome
    }

    /// Releases a funded escrow at or after its release time: the escrow is
    /// completed, its referral code credited, and the shares to pay out are
    /// returned.
    pub fn release_escrow(&mut self, escrow_id: u64, now: u64) -> (payout: Result<
        Payout,
        EscrowError,
    >)
        ensures
            match old(self)@.step_refused(escrow_id, EscrowStatus::Funded) {
                Some(error) => payout == Err::<Payout, EscrowError>(error) && final(self)@ == old(self)@,
                None => if now < old(self)@.escrows[escrow_id].release_time {
                    payout == Err::<Payout, EscrowError>(EscrowError::TimeNotReached) && final(self)@ == old(self)@
                } else {
                    match old(self)@.release_refused(old(self)@.escrows[escrow_id]) {
                        Some(error) => payout == Err::<Payout, EscrowError>(error) && final(self)@
                            == old(self)@,
                        None => payout == Ok::<Payout, EscrowError>(
                            old(self)@.payout(
                                old(self)@.escrows[escrow_id],
                                old(self)@.escrows[escrow_id].amount as int,
                            ),
                        ) && final(self)@ == (State {
                            referrals: old(self)@.referrals_after(old(self)@.escrows[escrow_id]),
                            ..old(self)@.with_status(escrow_id, EscrowStatus::Completed)
                        }),
                    }
                },
            },
    {
        let mut escrow: Escrow = match self.escrows.remove(&escrow_id) {
            Some(escrow) => escrow,
            None => {
                proof {
                    assert(self@ =~= old(self)@);
                }
                return Err(EscrowError::EscrowNotFound);
            },
        };
        let outcome: Result<Payout, EscrowError> = match self.check_paused() {
            Err(error) => Err(error),
            Ok(_) => match escrow.check_status(EscrowStatus::Funded) {
                Err(error) => Err(error),
                Ok(()) => match escrow.check_release_time(now) {
                    Err(error) => Err(error),
                    Ok(()) => match self.settle(&escrow) {
                        Err(error) => Err(error),
                        Ok(payout) => match escrow.step(
                            EscrowStatus::Funded,
                            EscrowStatus::Completed,
                        ) {
                            Err(error) => Err(error),
                            Ok(()) => Ok(payout),
                        },
                    },
                },
            },
        };
        self.escrows.insert(escrow_id, escrow);
        proof {
            assert(self.escrows@ =~= old(self)@.escrows.insert(escrow_id, escrow));
            if outcome is Err {
                assert(self@ =~= old(self)@);
            }
        }
        outcome
    }

    /// Marks a pending milestone of a funded escrow as completed at `now`,
    /// and counts it in the escrow.
    pub fn complete_milestone(&mut self, escrow_id: u64, milestone_id: u32, now: u64) -> (done:
        Result<(), EscrowError>)
        ensures
            match old(self)@.complete_refused(escrow_id, milestone_id) {
                Some(error) => done == Err::<(), EscrowError>(error) && final(self)@ == old(self)@,
                None => {
                    let index = milestone_at(old(self)@.milestones, escrow_id, milestone_id)->Some_0;
                    let entry = old(self)@.milestones[index];
                    let escrow = old(self)@.escrows[escrow_id];
                    &&& done is Ok
                    &&& final(self)@ == (State {
                        escrows: old(self)@.escrows.insert(
                            escrow_id,
                            Escrow {
                                completed_milestones: (escrow.completed_milestones + 1) as u32,
                                ..escrow
                            },
                        ),
                        milestones: old(self)@.milestones.update(
                            index,
                            MilestoneEntry {
                                milestone: Milestone {
                                    status: MilestoneStatus::Completed,
                                    completed_at: Some(now),
                                    ..entry.milestone
                                },
                                ..entry
                            },
                        ),
                        ..old(self)@
                    })
                },
            },
    {
        let mut escrow: Escrow = match self.escrows.remove(&escrow_id) {
            Some(escrow) => escrow,
            None => {
                proof {
                    assert(self@ =~= old(self)@);
                }
                return Err(EscrowError::EscrowNotFound);
            },
        };
        let found: Result<usize, EscrowError> = match self.check_paused() {
            Err(error) => Err(error),
            Ok(_) => match escrow.check_status(EscrowStatus::Funded) {
                Err(error) => Err(error),
                Ok(()) => match self.find_milestone(escrow_id, milestone_id) {
                    None => Err(EscrowError::MilestoneNotFound),
                    Some(index) => match self.milestones[index].milestone.check_status(
                        MilestoneStatus::Pending,
                    ) {
                        Err(error) => Err(error),
                        Ok(()) => match escrow.count_milestone() {
                            Err(error) => Err(error),
                            Ok(()) => Ok(index),
                        },
                    },
                },
            },
        };
        let outcome: Result<(), EscrowError> = match found {
            Err(error) => Err(error),
            Ok(index) => {
                let mut entry: MilestoneEntry = self.milestones.remove(index);
                let done = entry.milestone.complete(now);
                self.milestones.insert(index, entry);
                proof {
                    assert(self.milestones@ =~= old(self)@.milestones.update(index as int, entry));
                }
                done
            },
        };
        self.escrows.insert(escrow_id, escrow);
        proof {
            assert(self.escrows@ =~= old(self)@.escrows.insert(escrow_id, escrow));
            if outcome is Err {
                assert(self@ =~= old(self)@);
            }
        }
        outcome
    }

    /// Releases a completed milestone at `now`, and returns the shares of
    /// its part of the escrow to pay out.
    pub fn release_milestone(&mut self, escrow_id: u64, milestone_id: u32, now: u64) -> (payout:
        Result<Payout, EscrowError>)
        ensures
            match old(self)@.release_milestone_refused(escrow_id, milestone_id) {
                Some(error) => payout == Err::<Payout, EscrowError>(error) && final(self)@ == old(self)@,
                None => {
                    let index = milestone_at(old(self)@.milestones, escrow_id, milestone_id)->Some_0;
                    let entry = old(self)@.milestones[index];
                    &&& payout == Ok::<Payout, EscrowError>(
                        old(self)@.payout(
                            old(self)@.escrows[escrow_id],
                            old(self)@.milestone_amount(escrow_id, index),
                        ),
                    )
                    &&& final(self)@ == (State {
                        milestones: old(self)@.milestones.update(
                            index,
                            MilestoneEntry {
                                milestone: Milestone {
                                    status: MilestoneStatus::Released,
                                    released_at: Some(now),
                                    ..entry.milestone
                                },
                                ..entry
                            },
                        ),
                        ..old(self)@
                    })
                },
            },
    {
        let found: Result<(usize, Payout), EscrowError> = match self.escrows.get(&escrow_id) {
            None => Err(EscrowError::EscrowNotFound),
            Some(escrow) => match self.check_paused() {
                Err(error) => Err(error),
                Ok(_) => match self.find_milestone(escrow_id, milestone_id) {
                    None => Err(EscrowError::MilestoneNotFound),
                    Some(index) => match self.milestones[index].milestone.check_status(
                        MilestoneStatus::Completed,
                    ) {
                        Err(error) => Err(error),
                        Ok(()) => match checked_share(
                            escrow.amount,
                            self.milestones[index].milestone.amount_percentage,
                        ) {
                            None => Err(EscrowError::ArithmeticError),
                            Some(amount) => match self.distribute(escrow, amount) {
                                Ok(payout) => Ok((index, payout)),
                                Err(error) => Err(error),
                            },
                        },
                    },
                },
            },
        };
        match found {
            Err(error) => Err(error),
            Ok((index, payout)) => {
                let mut entry: MilestoneEntry = self.milestones.remove(index);
                let done = entry.milestone.release(now);
                self.milestones.insert(index, entry);
                proof {
                    assert(self.milestones@ =~= old(self)@.milestones.update(index as int, entry));
                }
                match done {
                    Ok(()) => Ok(payout),
                    Err(error) => Err(error),
                }
            },
        }
    }

    /// Raises a dispute over a funded or disputed escrow at `now`, for its
    /// payer or its payee, under the ledger number `sequence` as its id, in
    /// place of any dispute raised at the same ledger. Returns the id.
    pub fn raise_dispute(
        &mut self,
        escrow_id: u64,
        caller: Address,
        reason: String,
        evidence: String,
        sequence: u32,
        now: u64,
    ) -> (dispute_id: Result<u64, EscrowError>)
        ensures
            match old(self)@.dispute_refused(escrow_id, caller) {
                Some(error) => dispute_id == Err::<u64, EscrowError>(error) && final(self)@ == old(self)@,
                None => dispute_id == Ok::<u64, EscrowError>(sequence as u64) && final(self)@ == (
                State {
                    disputes: old(self)@.disputes.insert(
                        sequence as u64,
                        Dispute {
                            id: sequence as u64,
                            escrow_id,
                            raiser: caller,
                            resolver: None,
                            status: DisputeStatus::Open,
                            reason,
                            evidence,
                            raised_at: now,
                            resolved_at: None,
                            resolution_notes: None,
                        },
                    ),
                    ..old(self)@.with_status(escrow_id, EscrowStatus::InDispute)
                }),
            },
    {
        let mut escrow: Escrow = match self.escrows.remove(&escrow_id) {
            Some(escrow) => escrow,
            None => {
                proof {
                    assert(self@ =~= old(self)@);
                }
                return Err(EscrowError::EscrowNotFound);
            },
        };
        let opened: Result<(), EscrowError> = match escrow.check_party(caller) {
            Err(error) => Err(error),
            Ok(()) => match self.check_paused() {
                Err(error) => Err(error),
                Ok(_) => escrow.open_dispute(),
            },
        };
        match opened {
            Err(error) => {
                self.escrows.insert(escrow_id, escrow);
                proof {
                    assert(self@ =~= old(self)@);
                }
                Err(error)
            },
            Ok(()) => {
                let dispute_id: u64 = sequence as u64;
                self.escrows.insert(escrow_id, escrow);
                self.disputes.insert(
                    dispute_id,
                    Dispute::open(dispute_id, escrow_id, caller, reason, evidence, now),
                );
                proof {
                    assert(self.escrows@ =~= old(self)@.escrows.insert(escrow_id, escrow));
                }
                Ok(dispute_id)
            },
        }
    }

    /// Resolves an open dispute at `now`, by the admin: either the whole
    /// amount goes back to the payer and the escrow is refunded, or the
    /// amount is shared out as in a release and the escrow is completed.
    pub fn resolve_dispute(
        &mut self,
        dispute_id: u64,
        resolution_notes: String,
        refund_to_payer: bool,
        now: u64,
    ) -> (settlement: Result<Settlement, EscrowError>)
        ensures
            match old(self)@.resolve_refused(dispute_id, refund_to_payer) {
                Some(error) => settlement == Err::<Settlement, EscrowError>(error) && final(self)@
                    == old(self)@,
                None => {
                    let dispute = old(self)@.disputes[dispute_id];
                    let escrow = old(self)@.escrows[dispute.escrow_id];
                    let resolved = Dispute {
                        status: if refund_to_payer {
                            DisputeStatus::Resolved
                        } else {
                            DisputeStatus::Rejected
                        },
                        resolver: Some(old(self)@.settings->Some_0.admin),
                        resolved_at: Some(now),
                        resolution_notes: Some(resolution_notes),
                        ..dispute
                    };
                    if refund_to_payer {
                        &&& settlement == Ok::<Settlement, EscrowError>(
                            Settlement::Refund(
                                Transfer {
                                    token_type: escrow.token_type,
                                    party: escrow.payer,
                                    amount: escrow.amount,
                                },
                            ),
                        )
                        &&& final(self)@ == (State {
                            disputes: old(self)@.disputes.insert(dispute_id, resolved),
                            ..old(self)@.with_status(dispute.escrow_id, EscrowStatus::Refunded)
                        })
                    } else {
                        &&& settlement == Ok::<Settlement, EscrowError>(
                            Settlement::Release(old(self)@.payout(escrow, escrow.amount as int)),
                        )
                        &&& final(self)@ == (State {
                            disputes: old(self)@.disputes.insert(dispute_id, resolved),
                            referrals: old(self)@.referrals_after(escrow),
                            ..old(self)@.with_status(dispute.escrow_id, EscrowStatus::Completed)
                        })
                    }
                },
            },
    {
        let settings: Settings = match self.check_paused() {
            Ok(settings) => settings,
            Err(error) => {
                return Err(error);
            },
        };
        let mut dispute: Dispute = match self.disputes.remove(&dispute_id) {
            Some(dispute) => dispute,
            None => {
                proof {
                    assert(self@ =~= old(self)@);
                }
                return Err(EscrowError::DisputeNotFound);
            },
        };
        let mut escrow: Escrow = match self.escrows.remove(&dispute.escrow_id) {
            Some(escrow) => escrow,
            None => {
                self.disputes.insert(dispute_id, dispute);
                proof {
                    assert(self@ =~= old(self)@);
                }
                return Err(EscrowError::EscrowNotFound);
            },
        };
        let outcome: Result<Settlement, EscrowError> = match dispute.check_open() {
            Err(error) => Err(error),
            Ok(()) => if refund_to_payer {
                Ok(
                    Settlement::Refund(
                        Transfer {
                            token_type: escrow.token_type,
                            party: escrow.payer,
                            amount: escrow.amount,
                        },
                    ),
                )
            } else {
                match self.settle(&escrow) {
                    Ok(payout) => Ok(Settlement::Release(payout)),
                    Err(error) => Err(error),
                }
            },
        };
        if outcome.is_ok() {
            dispute.resolve(settings.admin, resolution_notes, refund_to_payer, now);
            escrow.status = if refund_to_payer {
                EscrowStatus::Refunded
            } else {
                EscrowStatus::Completed
            };
        }
        let ghost escrow_key = dispute.escrow_id;
        self.escrows.insert(dispute.escrow_id, escrow);
        self.disputes.insert(dispute_id, dispute);
        proof {
            assert(self.escrows@ =~= old(self)@.escrows.insert(escrow_key, escrow));
            assert(self.disputes@ =~= old(self)@.disputes.insert(dispute_id, dispute));
            if outcome is Err {
                assert(self@ =~= old(self)@);
            }
        }
        outcome
    }

    /// Lets the emergency admin withdraw an amount of at least the minimum of
    /// a contract's token, and returns the payment to make. The native token
    /// cannot be withdrawn.
    pub fn emergency_withdraw(&self, token_type: TokenType, amount: i128, recipient: Address) -> (withdrawal:
        Result<Transfer, EscrowError>)
        ensures
            withdrawal == if self@.settings is None {
                Err::<Transfer, EscrowError>(EscrowError::NotInitialized)
            } else if amount < MIN_AMOUNT {
                Err(EscrowError::AmountTooSmall)
            } else if token_type == TokenType::Native {
                Err(EscrowError::EmergencyOnly)
            } else {
                Ok(Transfer { token_type, party: recipient, amount })
            },
    {
        if self.settings.is_none() {
            return Err(EscrowError::NotInitialized);
        }
        match validate_amount(amount) {
            Ok(()) => {},
            Err(error) => {
                return Err(error);
            },
        }
        match token_type {
            TokenType::Native => Err(EscrowError::EmergencyOnly),
            TokenType::SorobanToken(_) => Ok(Transfer { token_type, party: recipient, amount }),
        }
    }

    /// Creates a referral code for `caller` at `now`: active, with no
    /// earnings. A code that exists is refused.
    pub fn create_referral(&mut self, code: String, caller: Address, now: u64) -> (created: Result<
        (),
        EscrowError,
    >)
        ensures
            if old(self)@.closed() is Some {
                created == Err::<(), EscrowError>(old(self)@.closed()->Some_0) && final(self)@
                    == old(self)@
            } else if referral_at(old(self)@.referrals, code@) is Some {
                created == Err::<(), EscrowError>(EscrowError::InvalidStatus) && final(self)@
                    == old(self)@
            } else {
                created is Ok && final(self)@ == (State {
                    referrals: old(self)@.referrals.push(
                        Referral {
                            code,
                            creator: caller,
                            total_earnings: 0,
                            total_referrals: 0,
                            created_at: now,
                            is_active: true,
                        },
                    ),
                    ..old(self)@
                })
            },
    {
        match self.check_paused() {
            Ok(_) => {},
            Err(error) => {
                return Err(error);
            },
        }
        if self.find_referral(&code).is_some() {
            return Err(EscrowError::InvalidStatus);
        }
        self.referrals.push(Referral::create(code, caller, now));
        Ok(())
    }

    /// Sets the platform's fee, of at most the whole.
    pub fn update_platform_fee(&mut self, new_fee_bps: u32) -> (done: Result<(), EscrowError>)
        ensures
            match old(self)@.settings {
                None => done == Err::<(), EscrowError>(EscrowError::NotInitialized) && final(self)@
                    == old(self)@,
                Some(settings) => if new_fee_bps > BASIS_POINTS {
                    done == Err::<(), EscrowError>(EscrowError::InvalidRevenueSplit) && final(self)@ == old(self)@
                } else {
                    done is Ok && final(self)@ == (State {
                        settings: Some(Settings { platform_fee_bps: new_fee_bps, ..settings }),
                        ..old(self)@
                    })
                },
            },
    {
        let mut settings: Settings = match self.settings {
            Some(settings) => settings,
            None => {
                return Err(EscrowError::NotInitialized);
            },
        };
        match check_bps(new_fee_bps) {
            Ok(()) => {},
            Err(error) => {
                return Err(error);
            },
        }
        settings.platform_fee_bps = new_fee_bps;
        self.settings = Some(settings);
        Ok(())
    }

    /// Sets the referral reward, of at most the whole.
    pub fn update_referral_reward(&mut self, new_reward_bps: u32) -> (done: Result<(), EscrowError>)
        ensures
            match old(self)@.settings {
                None => done == Err::<(), EscrowError>(EscrowError::NotInitialized) && final(self)@
                    == old(self)@,
                Some(settings) => if new_reward_bps > BASIS_POINTS {
                    done == Err::<(), EscrowError>(EscrowError::InvalidRevenueSplit) && final(self)@ == old(self)@
                } else {
                    done is Ok && final(self)@ == (State {
                        settings: Some(Settings { referral_reward_bps: new_reward_bps, ..settings }),
                        ..old(self)@
                    })
                },
            },
    {
        let mut settings: Settings = match self.settings {
            Some(settings) => settings,
            None => {
                return Err(EscrowError::NotInitialized);
            },
        };
        match check_bps(new_reward_bps) {
            Ok(()) => {},
            Err(error) => {
                return Err(error);
            },
        }
        settings.referral_reward_bps = new_reward_bps;
        self.settings = Some(settings);
        Ok(())
    }

    /// Opens or closes the service.
    fn set_paused(&mut self, paused: bool) -> (done: Result<(), EscrowError>)
        ensures
            match old(self)@.settings {
                None => done == Err::<(), EscrowError>(EscrowError::NotInitialized) && final(self)@
                    == old(self)@,
                Some(settings) => done is Ok && final(self)@ == (State {
                    settings: Some(Settings { paused, ..settings }),
                    ..old(self)@
                }),
            },
    {
        let mut settings: Settings = match self.settings {
            Some(settings) => settings,
            None => {
                return Err(EscrowError::NotInitialized);
            },
        };
        settings.paused = paused;
        self.settings = Some(settings);
        Ok(())
    }

    /// Closes the service: until it is opened again it takes no orders.
    pub fn pause(&mut self) -> (done: Result<(), EscrowError>)
        ensures
            match old(self)@.settings {
                None => done == Err::<(), EscrowError>(EscrowError::NotInitialized) && final(self)@
                    == old(self)@,
                Some(settings) => done is Ok && final(self)@ == (State {
                    settings: Some(Settings { paused: true, ..settings }),
                    ..old(self)@
                }),
            },
    {
        self.set_paused(true)
    }

    /// Opens the service again.
    pub fn unpause(&mut self) -> (done: Result<(), EscrowError>)
        ensures
            match old(self)@.settings {
                None => done == Err::<(), EscrowError>(EscrowError::NotInitialized) && final(self)@
                    == old(self)@,
                Some(settings) => done is Ok && final(self)@ == (State {
                    settings: Some(Settings { paused: false, ..settings }),
                    ..old(self)@
                }),
            },
    {
        self.set_paused(false)
    }

    /// The escrow with the given id.
    pub fn get_escrow(&self, escrow_id: u64) -> (escrow: Result<&Escrow, EscrowError>)
        ensures
            match escrow {
                Ok(escrow) => self@.escrows.contains_key(escrow_id) && *escrow
                    == self@.escrows[escrow_id],
                Err(error) => !self@.escrows.contains_key(escrow_id) && error
                    == EscrowError::EscrowNotFound,
            },
    {
        match self.escrows.get(&escrow_id) {
            Some(escrow) => Ok(escrow),
            None => Err(EscrowError::EscrowNotFound),
        }
    }

    /// The dispute with the given id.
    pub fn get_dispute(&self, dispute_id: u64) -> (dispute: Result<&Dispute, EscrowError>)
        ensures
            match dispute {
                Ok(dispute) => self@.disputes.contains_key(dispute_id) && *dispute
                    == self@.disputes[dispute_id],
                Err(error) => !self@.disputes.contains_key(dispute_id) && error
                    == EscrowError::DisputeNotFound,
            },
    {
        match self.disputes.get(&dispute_id) {
            Some(dispute) => Ok(dispute),
            None => Err(EscrowError::DisputeNotFound),
        }
    }

    /// The milestone kept under the two ids.
    pub fn get_milestone(&self, escrow_id: u64, milestone_id: u32) -> (milestone: Result<
        &Milestone,
        EscrowError,
    >)
        ensures
            match milestone {
                Ok(milestone) => milestone_at(self@.milestones, escrow_id, milestone_id) is Some
                    && *milestone == self@.milestones[milestone_at(
                    self@.milestones,
                    escrow_id,
                    milestone_id,
                )->Some_0].milestone,
                Err(error) => milestone_at(self@.milestones, escrow_id, milestone_id) is None
                    && error == EscrowError::MilestoneNotFound,
            },
    {
        match self.find_milestone(escrow_id, milestone_id) {
            Some(index) => Ok(&self.milestones[index].milestone),
            None => Err(EscrowError::MilestoneNotFound),
        }
    }

    /// The referral with the given code.
    pub fn get_referral(&self, code: &String) -> (referral: Result<&Referral, EscrowError>)
        ensures
            match referral {
                Ok(referral) => referral_at(self@.referrals, code@) is Some && *referral
                    == self@.referrals[referral_at(self@.referrals, code@)->Some_0],
                Err(error) => referral_at(self@.referrals, code@) is None && error
                    == EscrowError::ReferralNotFound,
            },
    {
        match self.find_referral(code) {
            Some(index) => Ok(&self.referrals[index]),
            None => Err(EscrowError::ReferralNotFound),
        }
    }

    /// The escrows that `participant` takes part in. No list of them is
    /// kept: the answer is always empty.
    pub fn get_escrows_by_participant(&self, participant: Address) -> (escrows: Vec<u64>)
        ensures
            escrows@.len() == 0,
    {
        Vec::new()
    }

    /// The platform's fee, in basis points.
    pub fn get_platform_fee_bps(&self) -> (fee: Result<u32, EscrowError>)
        ensures
            fee == match self@.settings {
                Some(settings) => Ok::<u32, EscrowError>(settings.platform_fee_bps),
                None => Err(EscrowError::NotInitialized),
            },
    {
        match self.settings {
            Some(settings) => Ok(settings.platform_fee_bps),
            None => Err(EscrowError::NotInitialized),
        }
    }

    /// The referral reward, in basis points.
    pub fn get_referral_reward_bps(&self) -> (reward: Result<u32, EscrowError>)
        ensures
            reward == match self@.settings {
                Some(settings) => Ok::<u32, EscrowError>(settings.referral_reward_bps),
                None => Err(EscrowError::NotInitialized),
            },
    {
        match self.settings {
            Some(settings) => Ok(settings.referral_reward_bps),
            None => Err(EscrowError::NotInitialized),
        }
    }

    /// How many escrows were created.
    pub fn get_total_escrows(&self) -> (total: Result<u64, EscrowError>)
        ensures
            total == match self@.settings {
                Some(settings) => Ok::<u64, EscrowError>(settings.total_escrows),
                None => Err(EscrowError::NotInitialized),
            },
    {
        match self.settings {
            Some(settings) => Ok(settings.total_escrows),
            None => Err(EscrowError::NotInitialized),
        }
    }
}

} // verus!
