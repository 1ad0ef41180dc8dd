use roulette::{results_handler, spin, Bet, BetType, Wheel};

#[test]
fn the_ball_lands_on_the_wheel() {
    for _ in 0..2000 {
        let number = spin(Wheel::single_zero());
        assert!(0 <= number && number <= 36);
        assert!(results_handler(number, Bet { bet_type: BetType::Basket, bet_amount: 1 }).is_ok());
    }
}

#[test]
fn the_ball_does_not_always_land_in_one_pocket() {
    let mut seen = [false; 37];
    for _ in 0..5000 {
        seen[spin(Wheel::single_zero()) as usize] = true;
    }
    assert!(seen.iter().filter(|&&pocket| pocket).count() > 1);
    // The two ends of the range are pockets like the others.
    assert!(seen[0]);
    assert!(seen[36]);
}

#[test]
fn a_wheel_keeps_to_its_own_pockets() {
    let mut seen = [false; 4];
    for _ in 0..500 {
        let number = spin(Wheel::new(-1, 2).unwrap());
        assert!(-1 <= number && number <= 2);
        seen[(number + 1) as usize] = true;
    }
    assert_eq!(seen, [true; 4]);
}

#[test]
fn a_wheel_of_one_pocket() {
    for _ in 0..20 {
        assert_eq!(spin(Wheel::new(7, 7).unwrap()), 7);
    }
}

#[test]
fn a_wheel_over_every_number() {
    let number = spin(Wheel::new(i32::MIN, i32::MAX).unwrap());
    assert!(i32::MIN <= number);
}

#[test]
fn a_wheel_needs_a_pocket() {
    assert!(Wheel::new(1, 0).is_none());
    assert!(Wheel::new(36, 0).is_none());
    assert!(Wheel::new(0, 0).is_some());
}
