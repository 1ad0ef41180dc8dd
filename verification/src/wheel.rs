//! The wheel: the source of winning numbers.

use crate::board::{on_wheel, LAST_NUMBER};
use rand::distributions::{Distribution, Uniform};
use vstd::prelude::*;

verus! {

/// A wheel whose pockets are numbered from a lowest to a highest number,
/// both included.
#[derive(Debug, Clone, Copy)]
pub struct Wheel {
    lowest: i32,
    highest: i32,
}

impl Wheel {
    /// A wheel has at least one pocket.
    #[verifier::type_invariant]
    spec fn has_pockets(self) -> bool {
        self.lowest <= self.highest
    }

    /// The lowest pocket.
    pub closed spec fn lowest(self) -> int {
        self.lowest as int
    }

    /// The highest pocket.
    pub closed spec fn highest(self) -> int {
        self.highest as int
    }

    /// The pockets of the wheel.
    pub open spec fn has(self, number: int) -> bool {
        self.lowest() <= number <= self.highest()
    }

    /// A wheel with the pockets `lowest` to `highest`, or `None` where
    /// that range is empty.
    pub fn new(lowest: i32, highest: i32) -> (wheel: Option<Wheel>)
        ensures
            wheel is Some <==> lowest <= highest,
            wheel matches Some(made) ==> made.lowest() == lowest && made.highest() == highest,
    {
        if lowest <= highest {
            Some(Wheel { lowest, highest })
        } else {
            None
        }
    }

    /// The single-zero wheel: pockets 0 to 36.
    pub fn single_zero() -> (wheel: Wheel)
        ensures
            wheel.lowest() == 0,
            wheel.highest() == 36,
            forall|number: int| wheel.has(number) <==> on_wheel(number),
    {
        Wheel { lowest: 0, highest: LAST_NUMBER }
    }
}

/// Draws a number between `lowest` and `highest`, both included.
///
/// Trusted, not proved: the body builds the distribution
/// `rand::distributions::Uniform::new_inclusive` over the two bounds and
/// draws once from it, with `Distribution::sample`, on the generator that
/// `rand::thread_rng` hands out. The contract claims of the number drawn
/// only that it lies within the bounds, which is what the distribution is
/// documented to sample from; which number comes is left open, and two
/// draws need not agree. `new_inclusive` panics on an empty range, which
/// the precondition rules out; `thread_rng` panics where the system cannot
/// seed it, which no precondition can.
#[verifier::external_body]
fn draw_between(lowest: i32, highest: i32) -> (number: i32)
    requires
        lowest <= highest,
    ensures
        lowest <= number <= highest,
{
    let pockets = Uniform::new_inclusive(lowest, highest);
    let mut rng = rand::thread_rng();
    pockets.sample(&mut rng)
}

/// Spins the wheel: the ball lands in one of its pockets.
pub fn spin(wheel: Wheel) -> (number: i32)
    ensures
        wheel.has(number as int),
{
    proof {
        use_type_invariant(&wheel);
    }
    draw_between(wheel.lowest, wheel.highest)
}

} // verus!
