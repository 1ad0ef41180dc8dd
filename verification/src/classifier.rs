//! Secondary attributes of a wheel outcome: its parity and its colour.

use vstd::prelude::*;

verus! {

/// Parity of a number.
#[derive(Debug, Clone, Copy, PartialEq, Eq, Structural)]
pub enum OddEven {
    Odd,
    Even,
}

/// Colour of a coloured pocket. The zero pocket is green and has neither.
#[derive(Debug, Clone, Copy, PartialEq, Eq, Structural)]
pub enum RedBlack {
    Red,
    Black,
}

/// Bit `n` is set exactly when pocket `n` is red.
pub const RED_POCKETS: u64 = 0x0000_0015_4AAD_52AA;

/// The parity of `number`: zero and every other multiple of two are even.
pub open spec fn parity_of(number: int) -> OddEven {
    if number % 2 == 0 {
        OddEven::Even
    } else {
        OddEven::Odd
    }
}

/// Membership in the fixed set of the eighteen red pockets.
pub open spec fn is_red(number: int) -> bool {
    ||| number == 1
    ||| number == 3
    ||| number == 5
    ||| number == 7
    ||| number == 9
    ||| number == 12
    ||| number == 14
    ||| number == 16
    ||| number == 18
    ||| number == 19
    ||| number == 21
    ||| number == 23
    ||| number == 25
    ||| number == 27
    ||| number == 30
    ||| number == 32
    ||| number == 34
    ||| number == 36
}

/// The colour of `number`: red for the red pockets, none for zero, and
/// black for every other number.
pub open spec fn colour_of(number: int) -> Option<RedBlack> {
    if is_red(number) {
        Some(RedBlack::Red)
    } else if number == 0 {
        None
    } else {
        Some(RedBlack::Black)
    }
}

/// The red-pocket bitset agrees with the red set on every index a `u64`
/// shift can take.
proof fn lemma_red_pockets_bitset(n: u64)
    requires
        n < 64,
    ensures
        ((RED_POCKETS >> n) & 1 == 1) <==> is_red(n as int),
{
    assert(((0x0000_0015_4AAD_52AAu64 >> n) & 1 == 1) <==> (n == 1 || n == 3 || n == 5 || n == 7
        || n == 9 || n == 12 || n == 14 || n == 16 || n == 18 || n == 19 || n == 21 || n == 23
        || n == 25 || n == 27 || n == 30 || n == 32 || n == 34 || n == 36)) by (bit_vector)
        requires
            n < 64,
    ;
}

/// Tells whether `number` is odd or even. Defined for every integer.
pub fn number_odd_or_even(number: i32) -> (parity: OddEven)
    ensures
        parity == parity_of(number as int),
        parity == OddEven::Even <==> number as int % 2 == 0,
{
    if number % 2 == 0 {
        OddEven::Even
    } else {
        OddEven::Odd
    }
}

/// Tells the colour of `number`, or `None` where it has none (zero).
pub fn number_red_or_black(number: i32) -> (colour: Option<RedBlack>)
    ensures
        colour == colour_of(number as int),
{
    if number == 0 {
        None
    } else if 0 < number && number < 64 {
        let index: u64 = number as u64;
        proof {
            lemma_red_pockets_bitset(index);
        }
        if (RED_POCKETS >> index) & 1 == 1 {
            Some(RedBlack::Red)
        } else {
            Some(RedBlack::Black)
        }
    } else {
        Some(RedBlack::Black)
    }
}

} // verus!
