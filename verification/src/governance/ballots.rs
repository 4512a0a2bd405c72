//! The ballots of one proposal: who has been counted, and for how much.
use crate::address::Address;
use crate::governance::power::{lemma_floor_sqrt_bounds, power_of, voting_power};
use crate::governance::storage::VoteRecord;
use vstd::prelude::*;

verus! {

/// A vote record together with the address it was counted for.
#[derive(Clone, Copy, Debug, PartialEq, Eq, Structural)]
pub struct Ballot {
    pub address: Address,
    pub record: VoteRecord,
}

/// A delegator whose power a voter claims, with the balance it holds.
#[derive(Clone, Copy, Debug, PartialEq, Eq, Structural)]
pub struct Claim {
    pub delegator: Address,
    pub balance: i128,
}

/// The record counted for `address`, if there is one. Where an address
/// occurs more than once the earliest record is the one that counts.
pub open spec fn record_of(ballots: Seq<Ballot>, address: Address) -> Option<VoteRecord>
    decreases ballots.len(),
{
    if ballots.len() == 0 {
        None
    } else {
        match record_of(ballots.drop_last(), address) {
            Some(record) => Some(record),
            None => if ballots.last().address == address {
                Some(ballots.last().record)
            } else {
                None
            },
        }
    }
}

/// The sum of the amounts of the ballots cast with the given `support`.
pub open spec fn amount_cast(ballots: Seq<Ballot>, support: bool) -> int
    decreases ballots.len(),
{
    if ballots.len() == 0 {
        0
    } else {
        amount_cast(ballots.drop_last(), support) + if ballots.last().record.support == support {
            ballots.last().record.amount as int
        } else {
            0
        }
    }
}

/// No address has two ballots.
pub open spec fn distinct(ballots: Seq<Ballot>) -> bool {
    forall|i: int, j: int|
        0 <= i < j < ballots.len() ==> (#[trigger] ballots[i]).address != (
        #[trigger] ballots[j]).address
}

/// No ballot has a negative amount.
pub open spec fn non_negative(ballots: Seq<Ballot>) -> bool {
    forall|i: int| 0 <= i < ballots.len() ==> (#[trigger] ballots[i]).record.amount >= 0
}

/// The record that `caster` creates for an address with `balance`.
pub open spec fn new_record(
    caster: Address,
    support: bool,
    quadratic: bool,
    balance: i128,
) -> VoteRecord {
    VoteRecord {
        voter: caster,
        support,
        amount: power_of(balance as int, quadratic) as i128,
        is_quadratic: quadratic,
    }
}

/// The ballots after `caster` votes for `address`: unchanged where the
/// address has been counted before, else one more ballot.
pub open spec fn cast(
    ballots: Seq<Ballot>,
    address: Address,
    caster: Address,
    support: bool,
    quadratic: bool,
    balance: i128,
) -> Seq<Ballot> {
    if record_of(ballots, address) is Some {
        ballots
    } else {
        ballots.push(Ballot { address, record: new_record(caster, support, quadratic, balance) })
    }
}

/// The ballots after `caster` votes for each claimed delegator in turn.
pub open spec fn cast_all(
    ballots: Seq<Ballot>,
    caster: Address,
    support: bool,
    quadratic: bool,
    claims: Seq<Claim>,
) -> Seq<Ballot>
    decreases claims.len(),
{
    if claims.len() == 0 {
        ballots
    } else {
        cast(
            cast_all(ballots, caster, support, quadratic, claims.drop_last()),
            claims.last().delegator,
            caster,
            support,
            quadratic,
            claims.last().balance,
        )
    }
}

/// No claimed balance is negative.
pub open spec fn balances_non_negative(claims: Seq<Claim>) -> bool {
    forall|i: int| 0 <= i < claims.len() ==> (#[trigger] claims[i]).balance >= 0
}

/// An address without a record occurs in no ballot.
pub proof fn lemma_unrecorded_is_absent(ballots: Seq<Ballot>, address: Address)
    requires
        record_of(ballots, address) is None,
    ensures
        forall|i: int| 0 <= i < ballots.len() ==> (#[trigger] ballots[i]).address != address,
    decreases ballots.len(),
{
    if ballots.len() > 0 {
        lemma_unrecorded_is_absent(ballots.drop_last(), address);
        assert forall|i: int| 0 <= i < ballots.len() implies (#[trigger] ballots[i]).address
            != address by {
            if i < ballots.len() - 1 {
                assert(ballots.drop_last()[i] == ballots[i]);
            }
        }
    }
}

/// What one cast does to the ballots: the records before it stay, the sums
/// grow by the new amount on the side voted for, and nothing is counted twice.
pub proof fn lemma_cast(
    ballots: Seq<Ballot>,
    address: Address,
    caster: Address,
    support: bool,
    quadratic: bool,
    balance: i128,
)
    requires
        balance >= 0,
    ensures
        ({
            let after = cast(ballots, address, caster, support, quadratic, balance);
            &&& distinct(ballots) ==> distinct(after)
            &&& non_negative(ballots) ==> non_negative(after)
            &&& record_of(after, address) is Some
            &&& amount_cast(after, !support) == amount_cast(ballots, !support)
            &&& amount_cast(after, support) == amount_cast(ballots, support) + if record_of(
                ballots,
                address,
            ) is Some {
                0
            } else {
                power_of(balance as int, quadratic)
            }
            &&& 0 <= power_of(balance as int, quadratic) <= balance
        }),
{
    let after = cast(ballots, address, caster, support, quadratic, balance);
    lemma_power_bounds(balance as int, quadratic);
    if record_of(ballots, address) is None {
        lemma_unrecorded_is_absent(ballots, address);
        assert(after.drop_last() =~= ballots);
    }
}

/// A non-negative balance gives a power between zero and the balance.
pub proof fn lemma_power_bounds(balance: int, quadratic: bool)
    requires
        balance >= 0,
    ensures
        0 <= power_of(balance, quadratic) <= balance,
{
    if quadratic {
        lemma_floor_sqrt_bounds(balance);
        let r = power_of(balance, quadratic);
        assert(r <= balance) by (nonlinear_arith)
            requires
                r >= 0,
                r * r <= balance,
        ;
    }
}

/// A copy of the ballots.
pub fn copy_ballots(ballots: &Vec<Ballot>) -> (copy: Vec<Ballot>)
    ensures
        copy@ == ballots@,
{
    let mut copy: Vec<Ballot> = Vec::new();
    let mut i: usize = 0;
    while i < ballots.len()
        invariant
            i <= ballots.len(),
            copy@ == ballots@.take(i as int),
        decreases ballots.len() - i,
    {
        copy.push(ballots[i]);
        proof {
            assert(copy@ =~= ballots@.take(i + 1));
        }
        i += 1;
    }
    proof {
        assert(ballots@.take(i as int) =~= ballots@);
    }
    copy
}

/// Looks up the record counted for `address`.
pub fn find_record(ballots: &Vec<Ballot>, address: Address) -> (found: Option<VoteRecord>)
    ensures
        found == record_of(ballots@, address),
{
    let mut found: Option<VoteRecord> = None;
    let mut i: usize = 0;
    while i < ballots.len()
        invariant
            i <= ballots.len(),
            found == record_of(ballots@.take(i as int), address),
        decreases ballots.len() - i,
    {
        proof {
            assert(ballots@.take(i + 1).drop_last() =~= ballots@.take(i as int));
        }
        if found.is_none() && ballots[i].address.id == address.id {
            found = Some(ballots[i].record);
        }
        i += 1;
    }
    proof {
        assert(ballots@.take(i as int) =~= ballots@);
    }
    found
}

/// The ballots after `voter` votes for itself and then for each claimed
/// delegator.
pub open spec fn ballots_after(
    ballots: Seq<Ballot>,
    voter: Address,
    support: bool,
    quadratic: bool,
    voter_balance: i128,
    claims: Seq<Claim>,
) -> Seq<Ballot> {
    cast_all(
        cast(ballots, voter, voter, support, quadratic, voter_balance),
        voter,
        support,
        quadratic,
        claims,
    )
}

/// The power that a vote adds to the side voted for: the sum of the amounts
/// of the ballots that it creates.
pub open spec fn power_added(
    ballots: Seq<Ballot>,
    voter: Address,
    support: bool,
    quadratic: bool,
    voter_balance: i128,
    claims: Seq<Claim>,
) -> int {
    amount_cast(ballots_after(ballots, voter, support, quadratic, voter_balance, claims), support)
        - amount_cast(ballots, support)
}

/// Counts `address` under `caster` unless it has been counted before, and
/// returns the power that this added.
pub fn cast_ballot(
    ballots: &mut Vec<Ballot>,
    address: Address,
    caster: Address,
    support: bool,
    use_quadratic: bool,
    balance: i128,
) -> (credited: i128)
    requires
        balance >= 0,
    ensures
        final(ballots)@ == cast(old(ballots)@, address, caster, support, use_quadratic, balance),
        credited == if record_of(old(ballots)@, address) is Some {
            0
        } else {
            power_of(balance as int, use_quadratic)
        },
{
    match find_record(ballots, address) {
        Some(_) => 0,
        None => {
            let power = voting_power(balance, use_quadratic);
            proof {
                lemma_power_bounds(balance as int, use_quadratic);
            }
            ballots.push(
                Ballot {
                    address,
                    record: VoteRecord {
                        voter: caster,
                        support,
                        amount: power,
                        is_quadratic: use_quadratic,
                    },
                },
            );
            power
        },
    }
}

/// Counts the vote of `voter` and of each claimed delegator that has not
/// been counted before, each under `voter`, and returns the power added to
/// the side voted for; `None` where that power exceeds 128 bits.
pub fn cast_votes(
    ballots: &mut Vec<Ballot>,
    voter: Address,
    support: bool,
    use_quadratic: bool,
    voter_balance: i128,
    claims: &Vec<Claim>,
) -> (power: Option<i128>)
    requires
        voter_balance >= 0,
        balances_non_negative(claims@),
    ensures
        final(ballots)@ == ballots_after(
            old(ballots)@,
            voter,
            support,
            use_quadratic,
            voter_balance,
            claims@,
        ),
        distinct(old(ballots)@) ==> distinct(final(ballots)@),
        non_negative(old(ballots)@) ==> non_negative(final(ballots)@),
        amount_cast(final(ballots)@, !support) == amount_cast(old(ballots)@, !support),
        power_added(old(ballots)@, voter, support, use_quadratic, voter_balance, claims@) >= 0,
        power == if power_added(
            old(ballots)@,
            voter,
            support,
            use_quadratic,
            voter_balance,
            claims@,
        ) <= i128::MAX {
            Some(
                power_added(
                    old(ballots)@,
                    voter,
                    support,
                    use_quadratic,
                    voter_balance,
                    claims@,
                ) as i128,
            )
        } else {
            None
        },
{
    let ghost before = ballots@;
    proof {
        lemma_cast(before, voter, voter, support, use_quadratic, voter_balance);
    }
    let mut power: i128 = cast_ballot(ballots, voter, voter, support, use_quadratic, voter_balance);
    let ghost own = ballots@;
    let mut fits: bool = true;
    let mut i: usize = 0;
    proof {
        assert(claims@.take(0).len() == 0);
    }
    while i < claims.len()
        invariant
            i <= claims.len(),
            balances_non_negative(claims@),
            ballots@ == cast_all(own, voter, support, use_quadratic, claims@.take(i as int)),
            distinct(before) ==> distinct(ballots@),
            non_negative(before) ==> non_negative(ballots@),
            amount_cast(ballots@, !support) == amount_cast(before, !support),
            amount_cast(ballots@, support) >= amount_cast(before, support),
            fits ==> power == amount_cast(ballots@, support) - amount_cast(before, support),
            !fits ==> amount_cast(ballots@, support) - amount_cast(before, support) > i128::MAX,
        decreases claims.len() - i,
    {
        proof {
            assert(claims@.take(i + 1).drop_last() =~= claims@.take(i as int));
            assert(claims@.take(i + 1).last() == claims@[i as int]);
            lemma_cast(
                ballots@,
                claims@[i as int].delegator,
                voter,
                support,
                use_quadratic,
                claims@[i as int].balance,
            );
        }
        let credited: i128 = cast_ballot(
            ballots,
            claims[i].delegator,
            voter,
            support,
            use_quadratic,
            claims[i].balance,
        );
        if fits {
            match power.checked_add(credited) {
                Some(sum) => {
                    power = sum;
                },
                None => {
                    fits = false;
                },
            }
        }
        i += 1;
    }
    proof {
        assert(claims@.take(i as int) =~= claims@);
    }
    if fits {
        Some(power)
    } else {
        None
    }
}

/// Whether a delegator whose current delegatee is `delegatee` may be
/// claimed by `voter`.
pub fn delegates_to(delegatee: Option<Address>, voter: Address) -> (valid: bool)
    ensures
        valid == (delegatee == Some(voter)),
{
    match delegatee {
        Some(delegatee) => delegatee.id == voter.id,
        None => false,
    }
}

} // verus!
