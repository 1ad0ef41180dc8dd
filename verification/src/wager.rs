//! Wagers: what can be bet on, which pockets each bet covers, what it pays,
//! and when a wager is turned down.

use crate::board::{
    adjacent, in_basket, in_column, in_dozen, in_high_half, in_low_half, is_trio, on_layout,
    on_wheel, valid_index, valid_number, valid_split, valid_trio,
};
use crate::classifier::{colour_of, parity_of, OddEven, RedBlack};
use vstd::prelude::*;

verus! {

/// The kinds of bet the table takes, each with the numbers or the group
/// that it names.
#[derive(Debug, Clone, Copy, PartialEq, Eq, Structural)]
pub enum BetType {
    /// One pocket, zero included.
    Single(i32),
    /// Two layout numbers that share an edge.
    Split(i32, i32),
    /// Three numbers around zero: 0-1-2 or 0-2-3, in any order.
    Trio(i32, i32, i32),
    /// Zero and the first row.
    Basket,
    /// 1 to 18.
    LowPass,
    /// 19 to 36.
    HighPass,
    /// The eighteen pockets of one colour.
    RedorBlack(RedBlack),
    /// The eighteen layout numbers of one parity.
    OddorEven(OddEven),
    /// The first, second or third dozen.
    DozenBet(i32),
    /// The first, second or third column.
    ColumnBet(i32),
}

/// A bet placed for one spin: what is bet on, and how many chips.
#[derive(Debug, Clone, Copy, PartialEq, Eq, Structural)]
pub struct Bet {
    pub bet_type: BetType,
    pub bet_amount: u32,
}

/// Why a wager, or a spin, is turned down.
#[derive(Debug, Clone, Copy, PartialEq, Eq, Structural)]
pub enum WagerError {
    /// A split whose numbers share no edge, or a trio that is neither
    /// 0-1-2 nor 0-2-3.
    InvalidWagerShape,
    /// A dozen or a column other than 1, 2 or 3.
    InvalidWagerIndex,
    /// A winning number, or the number of a single bet, that is no pocket
    /// of the wheel.
    InvalidNumber,
}

/// The pockets on which a bet wins. A split or a trio of the wrong shape
/// covers nothing. Zero is covered by a single bet on it, by the two trios
/// and by the basket, and by nothing else: it has no colour, and no bet on
/// a parity, a half, a dozen or a column reaches it.
pub open spec fn covers(bet_type: BetType, number: int) -> bool {
    match bet_type {
        BetType::Single(value) => number == value,
        BetType::Split(first, second) => adjacent(first as int, second as int) && (number == first
            || number == second),
        BetType::Trio(first, second, third) => is_trio(first as int, second as int, third as int)
            && (number == first || number == second || number == third),
        BetType::Basket => in_basket(number),
        BetType::LowPass => in_low_half(number),
        BetType::HighPass => in_high_half(number),
        BetType::RedorBlack(colour) => on_layout(number) && colour_of(number) == Some(colour),
        BetType::OddorEven(parity) => on_layout(number) && parity_of(number) == parity,
        BetType::DozenBet(dozen) => in_dozen(dozen as int, number),
        BetType::ColumnBet(column) => in_column(column as int, number),
    }
}

/// The fixed odds of a bet: net winnings per chip staked.
pub open spec fn odds(bet_type: BetType) -> int {
    match bet_type {
        BetType::Single(_) => 35,
        BetType::Split(_, _) => 17,
        BetType::Trio(_, _, _) => 11,
        BetType::Basket => 8,
        BetType::LowPass => 1,
        BetType::HighPass => 1,
        BetType::RedorBlack(_) => 1,
        BetType::OddorEven(_) => 1,
        BetType::DozenBet(_) => 2,
        BetType::ColumnBet(_) => 2,
    }
}

/// What a winning bet returns on a stake: the stake itself and the net
/// winnings at the odds of its kind, that is `stake * (odds + 1)`.
pub open spec fn stake_and_winnings(bet_type: BetType, stake: int) -> int {
    match bet_type {
        BetType::Single(_) => 36 * stake,
        BetType::Split(_, _) => 18 * stake,
        BetType::Trio(_, _, _) => 12 * stake,
        BetType::Basket => 9 * stake,
        BetType::LowPass => 2 * stake,
        BetType::HighPass => 2 * stake,
        BetType::RedorBlack(_) => 2 * stake,
        BetType::OddorEven(_) => 2 * stake,
        BetType::DozenBet(_) => 3 * stake,
        BetType::ColumnBet(_) => 3 * stake,
    }
}

/// What a bet returns against a winning number: the stake and the net
/// winnings when it wins, nothing when it loses.
pub open spec fn payout(number: int, bet: Bet) -> int {
    if covers(bet.bet_type, number) {
        stake_and_winnings(bet.bet_type, bet.bet_amount as int)
    } else {
        0
    }
}

/// What is wrong with a bet as it is placed, if anything.
pub open spec fn flaw(bet_type: BetType) -> Option<WagerError> {
    match bet_type {
        BetType::Single(value) => if on_wheel(value as int) {
            None
        } else {
            Some(WagerError::InvalidNumber)
        },
        BetType::Split(first, second) => if adjacent(first as int, second as int) {
            None
        } else {
            Some(WagerError::InvalidWagerShape)
        },
        BetType::Trio(first, second, third) => if is_trio(
            first as int,
            second as int,
            third as int,
        ) {
            None
        } else {
            Some(WagerError::InvalidWagerShape)
        },
        BetType::DozenBet(dozen) => if valid_index(dozen as int) {
            None
        } else {
            Some(WagerError::InvalidWagerIndex)
        },
        BetType::ColumnBet(column) => if valid_index(column as int) {
            None
        } else {
            Some(WagerError::InvalidWagerIndex)
        },
        _ => None,
    }
}

/// Why a bet cannot be resolved against a winning number, if it cannot: the
/// winning number is off the wheel, or else the bet names a pocket, a dozen
/// or a column that does not exist. A split or a trio of the wrong shape is
/// resolved, as a loss.
pub open spec fn refusal(number: int, bet_type: BetType) -> Option<WagerError> {
    if !on_wheel(number) {
        Some(WagerError::InvalidNumber)
    } else if flaw(bet_type) == Some(WagerError::InvalidWagerShape) {
        None
    } else {
        flaw(bet_type)
    }
}

/// The outcome of resolving a bet against a winning number: the reason for
/// which it is turned down, or else its payout.
pub open spec fn resolution(number: int, bet: Bet) -> Result<int, WagerError> {
    match refusal(number, bet.bet_type) {
        Some(error) => Err(error),
        None => Ok(payout(number, bet)),
    }
}

/// A winning bet returns its stake and, on top, the stake times the odds
/// of its kind.
pub proof fn lemma_winnings_by_odds(bet_type: BetType, stake: int)
    ensures
        stake_and_winnings(bet_type, stake) == stake * (odds(bet_type) + 1),
        stake_and_winnings(bet_type, stake) == stake + stake * odds(bet_type),
{
    let bet_odds = odds(bet_type);
    assert(stake * (bet_odds + 1) == stake + stake * bet_odds) by (nonlinear_arith);
    assert(stake * bet_odds == if bet_odds == 35 {
        35 * stake
    } else if bet_odds == 17 {
        17 * stake
    } else if bet_odds == 11 {
        11 * stake
    } else if bet_odds == 8 {
        8 * stake
    } else if bet_odds == 2 {
        2 * stake
    } else {
        stake
    }) by (nonlinear_arith)
        requires
            bet_odds == 35 || bet_odds == 17 || bet_odds == 11 || bet_odds == 8 || bet_odds == 2
                || bet_odds == 1,
    ;
}

impl BetType {
    /// Checks a bet as it is placed: the pocket of a single bet, the shape
    /// of a split or a trio, the index of a dozen or a column.
    pub fn check(&self) -> (checked: Result<(), WagerError>)
        ensures
            checked is Ok <==> flaw(*self) is None,
            checked matches Err(error) ==> flaw(*self) == Some(error),
    {
        match *self {
            BetType::Single(value) => {
                if valid_number(value) {
                    Ok(())
                } else {
                    Err(WagerError::InvalidNumber)
                }
            },
            BetType::Split(first, second) => {
                if valid_split(first, second) {
                    Ok(())
                } else {
                    Err(WagerError::InvalidWagerShape)
                }
            },
            BetType::Trio(first, second, third) => {
                if valid_trio(first, second, third) {
                    Ok(())
                } else {
                    Err(WagerError::InvalidWagerShape)
                }
            },
            BetType::DozenBet(index) | BetType::ColumnBet(index) => {
                if 1 <= index && index <= 3 {
                    Ok(())
                } else {
                    Err(WagerError::InvalidWagerIndex)
                }
            },
            _ => Ok(()),
        }
    }
}

impl Bet {
    /// Places `bet_amount` chips on `bet_type`, or turns the bet down for
    /// what is wrong with it.
    pub fn new(bet_type: BetType, bet_amount: u32) -> (placed: Result<Bet, WagerError>)
        ensures
            placed is Ok <==> flaw(bet_type) is None,
            placed matches Ok(bet) ==> bet.bet_type == bet_type && bet.bet_amount == bet_amount,
            placed matches Err(error) ==> flaw(bet_type) == Some(error),
    {
        match bet_type.check() {
            Ok(()) => Ok(Bet { bet_type, bet_amount }),
            Err(error) => Err(error),
        }
    }
}

} // verus!
