//! The target set of a bet: the pockets on which it wins, and the laws
//! that tie the size of that set to the odds.

use crate::board::{lemma_trio_numbers, on_wheel, valid_index};
use crate::classifier::{OddEven, RedBlack};
use crate::wager::{covers, flaw, odds, BetType};
use vstd::prelude::*;
use vstd::set_lib::{lemma_int_range, set_int_range};

verus! {

/// The pockets on which a bet wins.
pub open spec fn targets(bet_type: BetType) -> Set<int> {
    Set::new(|number: int| covers(bet_type, number))
}

/// How many pockets a flawless bet of each kind covers.
pub open spec fn target_count(bet_type: BetType) -> nat {
    match bet_type {
        BetType::Single(_) => 1,
        BetType::Split(_, _) => 2,
        BetType::Trio(_, _, _) => 3,
        BetType::Basket => 4,
        BetType::LowPass => 18,
        BetType::HighPass => 18,
        BetType::RedorBlack(_) => 18,
        BetType::OddorEven(_) => 18,
        BetType::DozenBet(_) => 12,
        BetType::ColumnBet(_) => 12,
    }
}

/// A flawless bet wins on pockets of the wheel only.
pub proof fn lemma_targets_on_wheel(bet_type: BetType, number: int)
    requires
        flaw(bet_type) is None,
        covers(bet_type, number),
    ensures
        on_wheel(number),
{
    match bet_type {
        BetType::Trio(first, second, third) => {
            lemma_trio_numbers(first as int, second as int, third as int);
        },
        _ => {},
    }
}

/// The eighteen pockets of each colour.
proof fn lemma_colour_targets(colour: RedBlack)
    ensures
        targets(BetType::RedorBlack(colour)).finite(),
        targets(BetType::RedorBlack(colour)).len() == 18,
{
    let red = set![1int, 3, 5, 7, 9, 12, 14, 16, 18, 19, 21, 23, 25, 27, 30, 32, 34, 36];
    let black = set![2int, 4, 6, 8, 10, 11, 13, 15, 17, 20, 22, 24, 26, 28, 29, 31, 33, 35];
    match colour {
        RedBlack::Red => {
            assert(targets(BetType::RedorBlack(colour)) =~= red);
        },
        RedBlack::Black => {
            assert(targets(BetType::RedorBlack(colour)) =~= black);
        },
    }
}

/// The eighteen layout numbers of each parity.
proof fn lemma_parity_targets(parity: OddEven)
    ensures
        targets(BetType::OddorEven(parity)).finite(),
        targets(BetType::OddorEven(parity)).len() == 18,
{
    let odd = set![1int, 3, 5, 7, 9, 11, 13, 15, 17, 19, 21, 23, 25, 27, 29, 31, 33, 35];
    let even = set![2int, 4, 6, 8, 10, 12, 14, 16, 18, 20, 22, 24, 26, 28, 30, 32, 34, 36];
    match parity {
        OddEven::Odd => {
            assert(targets(BetType::OddorEven(parity)) =~= odd);
        },
        OddEven::Even => {
            assert(targets(BetType::OddorEven(parity)) =~= even);
        },
    }
}

/// The twelve numbers of each column.
proof fn lemma_column_targets(column: i32)
    requires
        valid_index(column as int),
    ensures
        targets(BetType::ColumnBet(column)).finite(),
        targets(BetType::ColumnBet(column)).len() == 12,
{
    let first = set![1int, 4, 7, 10, 13, 16, 19, 22, 25, 28, 31, 34];
    let second = set![2int, 5, 8, 11, 14, 17, 20, 23, 26, 29, 32, 35];
    let third = set![3int, 6, 9, 12, 15, 18, 21, 24, 27, 30, 33, 36];
    if column == 1 {
        assert(targets(BetType::ColumnBet(column)) =~= first);
    } else if column == 2 {
        assert(targets(BetType::ColumnBet(column)) =~= second);
    } else {
        assert(targets(BetType::ColumnBet(column)) =~= third);
    }
}

/// The target set of a flawless bet is a set of wheel pockets of the size
/// that goes with its kind, and the size times what a winning chip returns
/// is thirty-six for every kind: the fewer pockets a bet covers, the more
/// it pays.
pub proof fn lemma_target_set(bet_type: BetType)
    requires
        flaw(bet_type) is None,
    ensures
        targets(bet_type).finite(),
        forall|number: int| targets(bet_type).contains(number) ==> on_wheel(number),
        targets(bet_type).len() == target_count(bet_type),
        targets(bet_type).len() * (odds(bet_type) + 1) == 36,
{
    assert forall|number: int| targets(bet_type).contains(number) implies on_wheel(number) by {
        lemma_targets_on_wheel(bet_type, number);
    }
    match bet_type {
        BetType::Single(value) => {
            assert(targets(bet_type) =~= set![value as int]);
        },
        BetType::Split(first, second) => {
            assert(targets(bet_type) =~= set![first as int, second as int]);
        },
        BetType::Trio(first, second, third) => {
            lemma_trio_numbers(first as int, second as int, third as int);
            assert(targets(bet_type) =~= set![first as int, second as int, third as int]);
        },
        BetType::Basket => {
            lemma_int_range(0, 4);
            assert(targets(bet_type) =~= set_int_range(0, 4));
        },
        BetType::LowPass => {
            lemma_int_range(1, 19);
            assert(targets(bet_type) =~= set_int_range(1, 19));
        },
        BetType::HighPass => {
            lemma_int_range(19, 37);
            assert(targets(bet_type) =~= set_int_range(19, 37));
        },
        BetType::RedorBlack(colour) => {
            lemma_colour_targets(colour);
        },
        BetType::OddorEven(parity) => {
            lemma_parity_targets(parity);
        },
        BetType::DozenBet(dozen) => {
            lemma_int_range(12 * dozen - 11, 12 * dozen + 1);
            assert(targets(bet_type) =~= set_int_range(12 * dozen - 11, 12 * dozen + 1));
        },
        BetType::ColumnBet(column) => {
            lemma_column_targets(column);
        },
    }
    let size = targets(bet_type).len() as int;
    let returned = odds(bet_type) + 1;
    assert(size * returned == 36) by (nonlinear_arith)
        requires
            (size == 1 && returned == 36) || (size == 2 && returned == 18) || (size == 3
                && returned == 12) || (size == 4 && returned == 9) || (size == 18 && returned
                == 2) || (size == 12 && returned == 3),
    ;
}

} // verus!
