//! The payout resolver: one handler for each kind of bet, and the entry
//! point that picks the handler for a wager.
//!
//! A handler settles its kind of bet against any spin number; the entry
//! point first makes sure that the number is a pocket of the wheel. What is
//! returned for a winning bet holds the stake: a chip on a single pocket
//! comes back as thirty-six.

use crate::board::{on_wheel, valid_index, valid_number, valid_split, valid_trio};
use crate::classifier::{number_odd_or_even, number_red_or_black, OddEven, RedBlack};
use crate::wager::{
    covers, flaw, lemma_winnings_by_odds, odds, payout, resolution, Bet, BetType, WagerError,
};
use vstd::prelude::*;

verus! {

/// Handles the results of a spin for one bet.
///
/// The bet is resolved whenever the number is a pocket of the wheel and the
/// bet names only pockets, dozens and columns that exist; it then returns
/// its payout, which is zero for a lost bet and for a split or a trio of
/// the wrong shape. Otherwise nothing is paid and the error says why.
pub fn results_handler(number: i32, bet: Bet) -> (winnings: Result<u64, WagerError>)
    ensures
        match winnings {
            Ok(amount) => resolution(number as int, bet) == Ok::<int, WagerError>(amount as int),
            Err(error) => resolution(number as int, bet) == Err::<int, WagerError>(error),
        },
{
    if !valid_number(number) {
        return Err(WagerError::InvalidNumber);
    }
    match bet.bet_type {
        BetType::Single(value) => single_handler(number, bet.bet_amount, value),
        BetType::Split(first_value, second_value) => Ok(
            split_handler(number, bet.bet_amount, first_value, second_value),
        ),
        BetType::Trio(first_value, second_value, third_value) => Ok(
            trio_handler(number, bet.bet_amount, first_value, second_value, third_value),
        ),
        BetType::Basket => Ok(basket_handler(number, bet.bet_amount)),
        BetType::LowPass => Ok(low_pass_handler(number, bet.bet_amount)),
        BetType::HighPass => Ok(high_pass_handler(number, bet.bet_amount)),
        BetType::RedorBlack(colour) => Ok(red_or_black_handler(number, bet.bet_amount, colour)),
        BetType::OddorEven(odd_even) => Ok(odd_or_even_handler(number, bet.bet_amount, odd_even)),
        BetType::DozenBet(dozen) => dozen_handler(number, bet.bet_amount, dozen),
        BetType::ColumnBet(column) => column_handler(number, bet.bet_amount, column),
    }
}

/// Handles a dozen bet. A dozen other than 1, 2 or 3 is an error.
pub fn dozen_handler(spin_number: i32, bet_amount: u32, bet_dozen: i32) -> (winnings: Result<
    u64,
    WagerError,
>)
    ensures
        winnings is Ok <==> valid_index(bet_dozen as int),
        winnings matches Ok(amount) ==> amount == payout(
            spin_number as int,
            (Bet { bet_type: BetType::DozenBet(bet_dozen), bet_amount }),
        ),
        winnings matches Err(error) ==> error == WagerError::InvalidWagerIndex,
{
    if bet_dozen < 1 || bet_dozen > 3 {
        return Err(WagerError::InvalidWagerIndex);
    }
    let mut winnings: u64 = 0;
    let last: i32 = 12 * bet_dozen;
    if last - 12 < spin_number && spin_number <= last {
        winnings = (bet_amount as u64 * 2) + bet_amount as u64;
    }
    Ok(winnings)
}

/// Handles a column bet. A column other than 1, 2 or 3 is an error.
pub fn column_handler(spin_number: i32, bet_amount: u32, bet_column: i32) -> (winnings: Result<
    u64,
    WagerError,
>)
    ensures
        winnings is Ok <==> valid_index(bet_column as int),
        winnings matches Ok(amount) ==> amount == payout(
            spin_number as int,
            (Bet { bet_type: BetType::ColumnBet(bet_column), bet_amount }),
        ),
        winnings matches Err(error) ==> error == WagerError::InvalidWagerIndex,
{
    if bet_column < 1 || bet_column > 3 {
        return Err(WagerError::InvalidWagerIndex);
    }
    let mut winnings: u64 = 0;
    if 1 <= spin_number && spin_number <= 36 && spin_number % 3 == bet_column % 3 {
        winnings = (bet_amount as u64 * 2) + bet_amount as u64;
    }
    Ok(winnings)
}

/// Handles a trio bet. Three numbers that form no trio win nothing.
pub fn trio_handler(
    spin_number: i32,
    bet_amount: u32,
    first_bet_number: i32,
    second_bet_number: i32,
    third_bet_number: i32,
) -> (winnings: u64)
    ensures
        winnings == payout(
            spin_number as int,
            (Bet {
                bet_type: BetType::Trio(first_bet_number, second_bet_number, third_bet_number),
                bet_amount,
            }),
        ),
{
    let mut winnings: u64 = 0;
    // The shape comes first: three numbers that form no trio cover nothing.
    if valid_trio(first_bet_number, second_bet_number, third_bet_number) {
        if spin_number == first_bet_number || spin_number == second_bet_number || spin_number
            == third_bet_number {
            winnings = (bet_amount as u64 * 11) + bet_amount as u64;
        }
    }
    winnings
}

/// Handles a low pass bet: 1 to 18.
pub fn low_pass_handler(spin_number: i32, bet_amount: u32) -> (winnings: u64)
    ensures
        winnings == payout(spin_number as int, (Bet { bet_type: BetType::LowPass, bet_amount })),
{
    let mut winnings: u64 = 0;
    if 1 <= spin_number && spin_number <= 18 {
        winnings = (bet_amount as u64 * 1) + bet_amount as u64;
    }
    winnings
}

/// Handles a high pass bet: 19 to 36.
pub fn high_pass_handler(spin_number: i32, bet_amount: u32) -> (winnings: u64)
    ensures
        winnings == payout(spin_number as int, (Bet { bet_type: BetType::HighPass, bet_amount })),
{
    let mut winnings: u64 = 0;
    if 19 <= spin_number && spin_number <= 36 {
        winnings = (bet_amount as u64 * 1) + bet_amount as u64;
    }
    winnings
}

/// Handles a split bet. Two numbers that form no split win nothing.
pub fn split_handler(
    spin_number: i32,
    bet_amount: u32,
    first_bet_number: i32,
    second_bet_number: i32,
) -> (winnings: u64)
    ensures
        winnings == payout(
            spin_number as int,
            (Bet { bet_type: BetType::Split(first_bet_number, second_bet_number), bet_amount }),
        ),
{
    let mut winnings: u64 = 0;
    if valid_split(first_bet_number, second_bet_number) {
        if spin_number == first_bet_number || spin_number == second_bet_number {
            winnings = (bet_amount as u64 * 17) + bet_amount as u64;
        }
    }
    winnings
}

/// Handles a basket bet: 0 to 3.
pub fn basket_handler(spin_number: i32, bet_amount: u32) -> (winnings: u64)
    ensures
        winnings == payout(spin_number as int, (Bet { bet_type: BetType::Basket, bet_amount })),
{
    let mut winnings: u64 = 0;
    if 0 <= spin_number && spin_number <= 3 {
        winnings = (bet_amount as u64 * 8) + bet_amount as u64;
    }
    winnings
}

/// Handles a red/black bet. Zero has no colour, so the bet loses on it.
pub fn red_or_black_handler(spin_number: i32, bet_amount: u32, bet_colour: RedBlack) -> (winnings:
    u64)
    ensures
        winnings == payout(
            spin_number as int,
            (Bet { bet_type: BetType::RedorBlack(bet_colour), bet_amount }),
        ),
{
    let mut winnings: u64 = 0;
    if 1 <= spin_number && spin_number <= 36 {
        match number_red_or_black(spin_number) {
            Some(spin_colour) => {
                if spin_colour == bet_colour {
                    winnings = (bet_amount as u64 * 1) + bet_amount as u64;
                }
            },
            None => {},
        }
    }
    winnings
}

/// Handles an odd/even bet. Zero is even as a number, but the bet loses on
/// it: only the thirty-six layout numbers are bet on.
pub fn odd_or_even_handler(spin_number: i32, bet_amount: u32, bet_odd_even: OddEven) -> (winnings:
    u64)
    ensures
        winnings == payout(
            spin_number as int,
            (Bet { bet_type: BetType::OddorEven(bet_odd_even), bet_amount }),
        ),
{
    let mut winnings: u64 = 0;
    if 1 <= spin_number && spin_number <= 36 {
        let spin_odd_even = number_odd_or_even(spin_number);
        if spin_odd_even == bet_odd_even {
            winnings = (bet_amount as u64 * 1) + bet_amount as u64;
        }
    }
    winnings
}

/// Handles a single bet. A bet on a number that is no pocket of the wheel
/// is an error.
pub fn single_handler(spin_number: i32, bet_amount: u32, bet_number: i32) -> (winnings: Result<
    u64,
    WagerError,
>)
    ensures
        winnings is Ok <==> on_wheel(bet_number as int),
        winnings matches Ok(amount) ==> amount == payout(
            spin_number as int,
            (Bet { bet_type: BetType::Single(bet_number), bet_amount }),
        ),
        winnings matches Err(error) ==> error == WagerError::InvalidNumber,
{
    if !valid_number(bet_number) {
        return Err(WagerError::InvalidNumber);
    }
    let mut winnings: u64 = 0;
    if spin_number == bet_number {
        winnings = (bet_amount as u64 * 35) + bet_amount as u64;
    }
    Ok(winnings)
}

/// A single bet on a pocket of the wheel returns thirty-six times its
/// stake when that pocket wins, and nothing when any other pocket does.
pub proof fn lemma_single_round_trip(bet_number: i32, bet_amount: u32, number: i32)
    requires
        on_wheel(bet_number as int),
        on_wheel(number as int),
    ensures
        resolution(
            bet_number as int,
            (Bet { bet_type: BetType::Single(bet_number), bet_amount }),
        ) == Ok::<int, WagerError>(36 * bet_amount),
        number != bet_number ==> resolution(
            number as int,
            (Bet { bet_type: BetType::Single(bet_number), bet_amount }),
        ) == Ok::<int, WagerError>(0),
{
}

/// A split or a trio of the wrong shape is no error when it is resolved:
/// it loses on every pocket of the wheel.
pub proof fn lemma_wrong_shape_loses(number: i32, bet: Bet)
    requires
        on_wheel(number as int),
        flaw(bet.bet_type) == Some(WagerError::InvalidWagerShape),
    ensures
        resolution(number as int, bet) == Ok::<int, WagerError>(0),
{
}

/// A flawless bet is resolved on every pocket of the wheel, and returns
/// either nothing or its stake with the net winnings at its odds.
pub proof fn lemma_flawless_bet_resolves(number: i32, bet: Bet)
    requires
        on_wheel(number as int),
        flaw(bet.bet_type) is None,
    ensures
        resolution(number as int, bet) == Ok::<int, WagerError>(
            if covers(bet.bet_type, number as int) {
                bet.bet_amount + bet.bet_amount * odds(bet.bet_type)
            } else {
                0
            },
        ),
{
    lemma_winnings_by_odds(bet.bet_type, bet.bet_amount as int);
}

} // verus!
