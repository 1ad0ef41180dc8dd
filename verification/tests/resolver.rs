use roulette::{
    basket_handler, column_handler, dozen_handler, high_pass_handler, low_pass_handler,
    odd_or_even_handler, red_or_black_handler, results_handler, single_handler, split_handler,
    trio_handler, Bet, BetType, OddEven, RedBlack, WagerError,
};

fn bet(bet_type: BetType, bet_amount: u32) -> Bet {
    Bet { bet_type, bet_amount }
}

/// How many pockets of the wheel a bet wins on, and what is paid on them.
fn winning_pockets(bet_type: BetType, paid_per_chip: u64) -> usize {
    let mut count = 0;
    for number in 0..=36 {
        let winnings = results_handler(number, bet(bet_type, 1)).unwrap();
        assert!(winnings == 0 || winnings == paid_per_chip);
        if winnings != 0 {
            count += 1;
        }
    }
    count
}

#[test]
fn single_round_trip() {
    for n in 0..=36 {
        assert_eq!(results_handler(n, bet(BetType::Single(n), 1)), Ok(36));
        for m in 0..=36 {
            if m != n {
                assert_eq!(results_handler(m, bet(BetType::Single(n), 1)), Ok(0));
            }
        }
    }
}

#[test]
fn low_pass_pays_even_money() {
    assert_eq!(results_handler(1, bet(BetType::LowPass, 1)), Ok(2));
    assert_eq!(results_handler(19, bet(BetType::LowPass, 1)), Ok(0));
    assert_eq!(results_handler(18, bet(BetType::LowPass, 1)), Ok(2));
    assert_eq!(results_handler(0, bet(BetType::LowPass, 1)), Ok(0));
}

#[test]
fn high_pass_pays_even_money() {
    assert_eq!(results_handler(19, bet(BetType::HighPass, 1)), Ok(2));
    assert_eq!(results_handler(36, bet(BetType::HighPass, 1)), Ok(2));
    assert_eq!(results_handler(18, bet(BetType::HighPass, 1)), Ok(0));
    assert_eq!(results_handler(0, bet(BetType::HighPass, 1)), Ok(0));
}

#[test]
fn dozen_pays_two_to_one() {
    assert_eq!(results_handler(1, bet(BetType::DozenBet(1), 1)), Ok(3));
    assert_eq!(results_handler(13, bet(BetType::DozenBet(1), 1)), Ok(0));
    assert_eq!(results_handler(12, bet(BetType::DozenBet(1), 1)), Ok(3));
    assert_eq!(results_handler(13, bet(BetType::DozenBet(2), 1)), Ok(3));
    assert_eq!(results_handler(24, bet(BetType::DozenBet(2), 1)), Ok(3));
    assert_eq!(results_handler(25, bet(BetType::DozenBet(3), 1)), Ok(3));
    assert_eq!(results_handler(36, bet(BetType::DozenBet(3), 1)), Ok(3));
    assert_eq!(results_handler(24, bet(BetType::DozenBet(3), 1)), Ok(0));
    assert_eq!(results_handler(0, bet(BetType::DozenBet(1), 1)), Ok(0));
}

#[test]
fn column_pays_two_to_one() {
    assert_eq!(results_handler(1, bet(BetType::ColumnBet(1), 1)), Ok(3));
    assert_eq!(results_handler(34, bet(BetType::ColumnBet(1), 1)), Ok(3));
    assert_eq!(results_handler(2, bet(BetType::ColumnBet(2), 1)), Ok(3));
    assert_eq!(results_handler(35, bet(BetType::ColumnBet(2), 1)), Ok(3));
    assert_eq!(results_handler(3, bet(BetType::ColumnBet(3), 1)), Ok(3));
    assert_eq!(results_handler(36, bet(BetType::ColumnBet(3), 1)), Ok(3));
    assert_eq!(results_handler(3, bet(BetType::ColumnBet(1), 1)), Ok(0));
    assert_eq!(results_handler(0, bet(BetType::ColumnBet(3), 1)), Ok(0));
}

#[test]
fn columns_hold_the_numbers_of_one_remainder() {
    let columns = [
        [1, 4, 7, 10, 13, 16, 19, 22, 25, 28, 31, 34],
        [2, 5, 8, 11, 14, 17, 20, 23, 26, 29, 32, 35],
        [3, 6, 9, 12, 15, 18, 21, 24, 27, 30, 33, 36],
    ];
    for column in 1..=3 {
        for number in 0..=36 {
            let expected = if columns[(column - 1) as usize].contains(&number) { 3 } else { 0 };
            assert_eq!(column_handler(number, 1, column), Ok(expected));
        }
    }
}

#[test]
fn dozens_hold_twelve_numbers_in_a_row() {
    for dozen in 1..=3 {
        for number in 0..=36 {
            let expected = if 12 * (dozen - 1) < number && number <= 12 * dozen { 3 } else { 0 };
            assert_eq!(dozen_handler(number, 1, dozen), Ok(expected));
        }
    }
}

#[test]
fn split_pays_seventeen_to_one() {
    assert_eq!(results_handler(8, bet(BetType::Split(8, 9), 1)), Ok(18));
    assert_eq!(results_handler(9, bet(BetType::Split(8, 9), 1)), Ok(18));
    assert_eq!(results_handler(10, bet(BetType::Split(8, 9), 1)), Ok(0));
    assert_eq!(results_handler(11, bet(BetType::Split(11, 8), 2)), Ok(36));
}

#[test]
fn split_of_the_wrong_shape_loses() {
    assert_eq!(results_handler(9, bet(BetType::Split(9, 10), 1)), Ok(0));
    assert_eq!(results_handler(10, bet(BetType::Split(9, 10), 1)), Ok(0));
    assert_eq!(results_handler(0, bet(BetType::Split(0, 1), 1)), Ok(0));
    assert_eq!(results_handler(1, bet(BetType::Split(0, 1), 1)), Ok(0));
    assert_eq!(results_handler(36, bet(BetType::Split(36, 37), 1)), Ok(0));
    assert_eq!(split_handler(5, 1, 5, 5), 0);
}

#[test]
fn trio_pays_eleven_to_one() {
    assert_eq!(results_handler(0, bet(BetType::Trio(0, 2, 1), 1)), Ok(12));
    assert_eq!(results_handler(1, bet(BetType::Trio(0, 2, 1), 1)), Ok(12));
    assert_eq!(results_handler(2, bet(BetType::Trio(0, 2, 1), 1)), Ok(12));
    assert_eq!(results_handler(3, bet(BetType::Trio(0, 2, 1), 1)), Ok(0));
    assert_eq!(results_handler(3, bet(BetType::Trio(3, 0, 2), 10)), Ok(120));
}

#[test]
fn trio_of_the_wrong_shape_loses() {
    assert_eq!(results_handler(1, bet(BetType::Trio(1, 2, 3), 1)), Ok(0));
    assert_eq!(results_handler(2, bet(BetType::Trio(1, 2, 3), 1)), Ok(0));
    assert_eq!(results_handler(0, bet(BetType::Trio(0, 0, 1), 1)), Ok(0));
    assert_eq!(trio_handler(4, 1, 4, 5, 6), 0);
}

#[test]
fn basket_pays_eight_to_one() {
    for number in 0..=3 {
        assert_eq!(results_handler(number, bet(BetType::Basket, 1)), Ok(9));
    }
    assert_eq!(results_handler(4, bet(BetType::Basket, 1)), Ok(0));
    assert_eq!(results_handler(36, bet(BetType::Basket, 1)), Ok(0));
}

#[test]
fn colour_pays_even_money() {
    assert_eq!(results_handler(1, bet(BetType::RedorBlack(RedBlack::Red), 1)), Ok(2));
    assert_eq!(results_handler(1, bet(BetType::RedorBlack(RedBlack::Black), 1)), Ok(0));
    assert_eq!(results_handler(2, bet(BetType::RedorBlack(RedBlack::Black), 1)), Ok(2));
    assert_eq!(results_handler(2, bet(BetType::RedorBlack(RedBlack::Red), 1)), Ok(0));
    assert_eq!(results_handler(36, bet(BetType::RedorBlack(RedBlack::Red), 3)), Ok(6));
}

#[test]
fn no_colour_wins_on_zero() {
    assert_eq!(results_handler(0, bet(BetType::RedorBlack(RedBlack::Red), 1)), Ok(0));
    assert_eq!(results_handler(0, bet(BetType::RedorBlack(RedBlack::Black), 1)), Ok(0));
    assert_eq!(red_or_black_handler(0, 1, RedBlack::Black), 0);
}

#[test]
fn parity_pays_even_money() {
    assert_eq!(results_handler(7, bet(BetType::OddorEven(OddEven::Odd), 1)), Ok(2));
    assert_eq!(results_handler(7, bet(BetType::OddorEven(OddEven::Even), 1)), Ok(0));
    assert_eq!(results_handler(36, bet(BetType::OddorEven(OddEven::Even), 1)), Ok(2));
    assert_eq!(results_handler(36, bet(BetType::OddorEven(OddEven::Odd), 1)), Ok(0));
}

#[test]
fn no_parity_wins_on_zero() {
    assert_eq!(results_handler(0, bet(BetType::OddorEven(OddEven::Even), 1)), Ok(0));
    assert_eq!(results_handler(0, bet(BetType::OddorEven(OddEven::Odd), 1)), Ok(0));
    assert_eq!(odd_or_even_handler(0, 1, OddEven::Even), 0);
}

#[test]
fn every_kind_covers_its_share_of_the_wheel() {
    assert_eq!(winning_pockets(BetType::Single(0), 36), 1);
    assert_eq!(winning_pockets(BetType::Single(36), 36), 1);
    assert_eq!(winning_pockets(BetType::Split(8, 9), 18), 2);
    assert_eq!(winning_pockets(BetType::Trio(0, 1, 2), 12), 3);
    assert_eq!(winning_pockets(BetType::Trio(3, 2, 0), 12), 3);
    assert_eq!(winning_pockets(BetType::Basket, 9), 4);
    assert_eq!(winning_pockets(BetType::LowPass, 2), 18);
    assert_eq!(winning_pockets(BetType::HighPass, 2), 18);
    assert_eq!(winning_pockets(BetType::RedorBlack(RedBlack::Red), 2), 18);
    assert_eq!(winning_pockets(BetType::RedorBlack(RedBlack::Black), 2), 18);
    assert_eq!(winning_pockets(BetType::OddorEven(OddEven::Odd), 2), 18);
    assert_eq!(winning_pockets(BetType::OddorEven(OddEven::Even), 2), 18);
    for index in 1..=3 {
        assert_eq!(winning_pockets(BetType::DozenBet(index), 3), 12);
        assert_eq!(winning_pockets(BetType::ColumnBet(index), 3), 12);
    }
    assert_eq!(winning_pockets(BetType::Split(9, 10), 18), 0);
    assert_eq!(winning_pockets(BetType::Trio(1, 2, 3), 12), 0);
}

#[test]
fn payout_grows_with_the_stake() {
    assert_eq!(results_handler(5, bet(BetType::Single(5), 0)), Ok(0));
    assert_eq!(results_handler(5, bet(BetType::Single(5), 25)), Ok(900));
    assert_eq!(results_handler(5, bet(BetType::LowPass, 25)), Ok(50));
    assert_eq!(results_handler(5, bet(BetType::DozenBet(1), 25)), Ok(75));
    assert_eq!(results_handler(2, bet(BetType::Basket, 25)), Ok(225));
}

#[test]
fn the_largest_stake_is_paid_in_full() {
    let most = u32::MAX;
    assert_eq!(
        results_handler(5, bet(BetType::Single(5), most)),
        Ok(36 * most as u64)
    );
    assert_eq!(single_handler(5, most, 5), Ok(154_618_822_620));
    assert_eq!(basket_handler(0, most), 9 * most as u64);
    assert_eq!(low_pass_handler(1, most), 2 * most as u64);
    assert_eq!(high_pass_handler(36, most), 2 * most as u64);
}

#[test]
fn dozen_or_column_that_does_not_exist_is_an_error() {
    for index in [0, 4, -1, i32::MIN, i32::MAX] {
        assert_eq!(
            results_handler(1, bet(BetType::DozenBet(index), 1)),
            Err(WagerError::InvalidWagerIndex)
        );
        assert_eq!(
            results_handler(1, bet(BetType::ColumnBet(index), 1)),
            Err(WagerError::InvalidWagerIndex)
        );
        assert_eq!(dozen_handler(1, 1, index), Err(WagerError::InvalidWagerIndex));
        assert_eq!(column_handler(1, 1, index), Err(WagerError::InvalidWagerIndex));
    }
}

#[test]
fn single_bet_off_the_wheel_is_an_error() {
    for number in [37, -1, 100, i32::MIN, i32::MAX] {
        assert_eq!(
            results_handler(1, bet(BetType::Single(number), 1)),
            Err(WagerError::InvalidNumber)
        );
        assert_eq!(single_handler(1, 1, number), Err(WagerError::InvalidNumber));
    }
}

#[test]
fn winning_number_off_the_wheel_is_an_error() {
    let kinds = [
        BetType::Single(1),
        BetType::Split(8, 9),
        BetType::Trio(0, 1, 2),
        BetType::Basket,
        BetType::LowPass,
        BetType::HighPass,
        BetType::RedorBlack(RedBlack::Black),
        BetType::OddorEven(OddEven::Odd),
        BetType::DozenBet(1),
        BetType::ColumnBet(1),
        BetType::DozenBet(9),
    ];
    for number in [37, -1, 38, i32::MIN, i32::MAX] {
        for kind in kinds {
            assert_eq!(results_handler(number, bet(kind, 1)), Err(WagerError::InvalidNumber));
        }
    }
}

#[test]
fn handlers_lose_on_numbers_off_the_wheel() {
    assert_eq!(red_or_black_handler(37, 1, RedBlack::Black), 0);
    assert_eq!(odd_or_even_handler(38, 1, OddEven::Even), 0);
    assert_eq!(odd_or_even_handler(-1, 1, OddEven::Odd), 0);
    assert_eq!(column_handler(37, 1, 1), Ok(0));
    assert_eq!(column_handler(-2, 1, 1), Ok(0));
    assert_eq!(dozen_handler(37, 1, 3), Ok(0));
    assert_eq!(basket_handler(-1, 1), 0);
    assert_eq!(low_pass_handler(-1, 1), 0);
    assert_eq!(high_pass_handler(37, 1), 0);
}
