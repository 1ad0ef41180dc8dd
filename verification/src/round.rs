//! One round at the table: a batch of bets settled against one winning
//! number.

use crate::resolver::results_handler;
use crate::wager::{resolution, Bet};
use vstd::prelude::*;
use vstd::seq_lib::lemma_fold_left_permutation;

verus! {

/// What a batch of bets comes to against one winning number.
#[derive(Debug, Clone, Copy, PartialEq, Eq, Structural)]
pub struct RoundSummary {
    /// The sum of the payouts of the bets that were resolved.
    pub payout: u128,
    /// The number of bets that were turned down.
    pub rejected: usize,
}

/// What one bet adds to the payout of its round: its payout where it is
/// resolved, nothing where it is turned down.
pub open spec fn paid(number: int, bet: Bet) -> int {
    match resolution(number, bet) {
        Ok(amount) => amount,
        Err(_) => 0,
    }
}

/// The sum of what the bets of a batch pay against one winning number.
pub open spec fn total_payout(number: int, bets: Seq<Bet>) -> int
    decreases bets.len(),
{
    if bets.len() == 0 {
        0
    } else {
        total_payout(number, bets.drop_last()) + paid(number, bets.last())
    }
}

/// The number of bets of a batch that are turned down.
pub open spec fn rejected_count(number: int, bets: Seq<Bet>) -> int
    decreases bets.len(),
{
    if bets.len() == 0 {
        0
    } else {
        rejected_count(number, bets.drop_last()) + if resolution(number, bets.last()) is Err {
            1int
        } else {
            0int
        }
    }
}

/// No bet returns more than thirty-six times its stake, so none returns
/// more than thirty-six times the largest stake there is, 4 294 967 295.
pub proof fn lemma_paid_bounds(number: int, bet: Bet)
    ensures
        0 <= paid(number, bet) <= 36 * bet.bet_amount,
        paid(number, bet) <= 154_618_822_620,
{
}

/// The totals of a batch are bounded by its length: the payout by what
/// the largest stake returns on a single pocket, once for each bet.
pub proof fn lemma_total_bounds(number: int, bets: Seq<Bet>)
    ensures
        0 <= total_payout(number, bets) <= bets.len() * 154_618_822_620,
        0 <= rejected_count(number, bets) <= bets.len(),
    decreases bets.len(),
{
    if bets.len() > 0 {
        lemma_total_bounds(number, bets.drop_last());
        lemma_paid_bounds(number, bets.last());
    }
}

/// The payout of a round does not depend on the order in which its bets
/// were placed: two batches that hold the same bets, each as often in one
/// as in the other, come to the same totals against one winning number.
pub proof fn lemma_total_payout_any_order(number: int, first: Seq<Bet>, second: Seq<Bet>)
    requires
        first.to_multiset() == second.to_multiset(),
    ensures
        total_payout(number, first) == total_payout(number, second),
        rejected_count(number, first) == rejected_count(number, second),
{
    let pay = |sum: int, bet: Bet| sum + paid(number, bet);
    let count = |sum: int, bet: Bet|
        sum + if resolution(number, bet) is Err {
            1int
        } else {
            0int
        };
    lemma_totals_are_folds(number, first);
    lemma_totals_are_folds(number, second);
    lemma_fold_left_permutation(first, second, pay, 0int);
    lemma_fold_left_permutation(first, second, count, 0int);
}

/// The totals, written as folds over the batch.
proof fn lemma_totals_are_folds(number: int, bets: Seq<Bet>)
    ensures
        total_payout(number, bets) == bets.fold_left(
            0int,
            |sum: int, bet: Bet| sum + paid(number, bet),
        ),
        rejected_count(number, bets) == bets.fold_left(
            0int,
            |sum: int, bet: Bet|
                sum + if resolution(number, bet) is Err {
                    1int
                } else {
                    0int
                },
        ),
    decreases bets.len(),
{
    if bets.len() > 0 {
        lemma_totals_are_folds(number, bets.drop_last());
    }
}

/// Settles a batch of bets against one winning number. Every bet is
/// resolved on its own: one that is turned down is counted and adds
/// nothing, and the bets after it are settled all the same.
pub fn settle_round(number: i32, bets: &Vec<Bet>) -> (summary: RoundSummary)
    ensures
        summary.payout == total_payout(number as int, bets@),
        summary.rejected == rejected_count(number as int, bets@),
{
    let mut payout: u128 = 0;
    let mut rejected: usize = 0;
    let mut settled: usize = 0;
    while settled < bets.len()
        invariant
            settled <= bets.len(),
            payout == total_payout(number as int, bets@.take(settled as int)),
            rejected == rejected_count(number as int, bets@.take(settled as int)),
        decreases bets.len() - settled,
    {
        let bet: Bet = bets[settled];
        proof {
            let before = bets@.take(settled as int);
            let after = bets@.take(settled + 1);
            assert(after.drop_last() == before);
            assert(after.last() == bet);
            lemma_total_bounds(number as int, before);
            lemma_paid_bounds(number as int, bet);
        }
        match results_handler(number, bet) {
            Ok(amount) => {
                payout = payout + amount as u128;
            },
            Err(_) => {
                rejected = rejected + 1;
            },
        }
        settled = settled + 1;
    }
    proof {
        assert(bets@.take(settled as int) == bets@);
    }
    RoundSummary { payout, rejected }
}

} // verus!
