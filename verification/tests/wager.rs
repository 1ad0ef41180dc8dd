use roulette::{Bet, BetType, OddEven, RedBlack, WagerError};

#[test]
fn a_flawless_bet_is_placed() {
    let kinds = [
        BetType::Single(0),
        BetType::Single(36),
        BetType::Split(8, 9),
        BetType::Split(11, 8),
        BetType::Trio(0, 2, 1),
        BetType::Trio(3, 0, 2),
        BetType::Basket,
        BetType::LowPass,
        BetType::HighPass,
        BetType::RedorBlack(RedBlack::Red),
        BetType::OddorEven(OddEven::Even),
        BetType::DozenBet(1),
        BetType::DozenBet(3),
        BetType::ColumnBet(1),
        BetType::ColumnBet(3),
    ];
    for kind in kinds {
        assert_eq!(kind.check(), Ok(()));
        assert_eq!(Bet::new(kind, 7), Ok(Bet { bet_type: kind, bet_amount: 7 }));
    }
}

#[test]
fn a_split_that_shares_no_edge_is_turned_down() {
    assert_eq!(BetType::Split(9, 10).check(), Err(WagerError::InvalidWagerShape));
    assert_eq!(BetType::Split(0, 1).check(), Err(WagerError::InvalidWagerShape));
    assert_eq!(BetType::Split(4, 4).check(), Err(WagerError::InvalidWagerShape));
    assert_eq!(Bet::new(BetType::Split(3, 4), 1), Err(WagerError::InvalidWagerShape));
}

#[test]
fn a_trio_away_from_zero_is_turned_down() {
    assert_eq!(BetType::Trio(1, 2, 3).check(), Err(WagerError::InvalidWagerShape));
    assert_eq!(BetType::Trio(0, 1, 3).check(), Err(WagerError::InvalidWagerShape));
    assert_eq!(Bet::new(BetType::Trio(0, 0, 1), 1), Err(WagerError::InvalidWagerShape));
}

#[test]
fn a_dozen_or_column_that_does_not_exist_is_turned_down() {
    assert_eq!(BetType::DozenBet(0).check(), Err(WagerError::InvalidWagerIndex));
    assert_eq!(BetType::DozenBet(4).check(), Err(WagerError::InvalidWagerIndex));
    assert_eq!(BetType::ColumnBet(0).check(), Err(WagerError::InvalidWagerIndex));
    assert_eq!(BetType::ColumnBet(4).check(), Err(WagerError::InvalidWagerIndex));
    assert_eq!(Bet::new(BetType::ColumnBet(-1), 1), Err(WagerError::InvalidWagerIndex));
}

#[test]
fn a_single_bet_off_the_wheel_is_turned_down() {
    assert_eq!(BetType::Single(37).check(), Err(WagerError::InvalidNumber));
    assert_eq!(BetType::Single(-1).check(), Err(WagerError::InvalidNumber));
    assert_eq!(Bet::new(BetType::Single(100), 1), Err(WagerError::InvalidNumber));
}
