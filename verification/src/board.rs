//! Geometry of the betting layout: twelve rows of three numbers, 1 to 36
//! from left to right and top to bottom, with zero above the first row.

use vstd::prelude::*;
use vstd::seq_lib::{to_multiset_contains, to_multiset_update};

verus! {

/// The highest number on the wheel and on the layout.
pub const LAST_NUMBER: i32 = 36;

/// The pockets of the wheel: zero and the thirty-six layout numbers.
pub open spec fn on_wheel(number: int) -> bool {
    0 <= number <= 36
}

/// The numbers laid out in the grid (every pocket but zero).
pub open spec fn on_layout(number: int) -> bool {
    1 <= number <= 36
}

/// Row of a layout number, counted from 0 at the top.
pub open spec fn row_of(number: int) -> int {
    (number - 1) / 3
}

/// Position of a layout number within its row, counted from 0 at the left.
pub open spec fn place_of(number: int) -> int {
    (number - 1) % 3
}

/// Two layout numbers share an edge: side by side in one row, or one
/// directly above the other.
pub open spec fn adjacent(a: int, b: int) -> bool {
    &&& on_layout(a)
    &&& on_layout(b)
    &&& {
        ||| row_of(a) == row_of(b) && (place_of(a) - place_of(b) == 1 || place_of(b) - place_of(a)
            == 1)
        ||| place_of(a) == place_of(b) && (row_of(a) - row_of(b) == 1 || row_of(b) - row_of(a)
            == 1)
    }
}

/// The first three numbers are the last three in some order.
pub open spec fn same_three(a: int, b: int, c: int, x: int, y: int, z: int) -> bool {
    ||| a == x && b == y && c == z
    ||| a == x && b == z && c == y
    ||| a == y && b == x && c == z
    ||| a == y && b == z && c == x
    ||| a == z && b == x && c == y
    ||| a == z && b == y && c == x
}

/// The three numbers are, in some order, one of the two corner groups that
/// touch zero: 0-1-2 or 0-2-3.
pub open spec fn is_trio(a: int, b: int, c: int) -> bool {
    same_three(a, b, c, 0, 1, 2) || same_three(a, b, c, 0, 2, 3)
}

/// The four numbers of the basket: zero and the first row.
pub open spec fn in_basket(number: int) -> bool {
    0 <= number <= 3
}

/// The low half of the layout, 1 to 18.
pub open spec fn in_low_half(number: int) -> bool {
    1 <= number <= 18
}

/// The high half of the layout, 19 to 36.
pub open spec fn in_high_half(number: int) -> bool {
    19 <= number <= 36
}

/// A dozen is named by 1, 2 or 3.
pub open spec fn valid_index(index: int) -> bool {
    1 <= index <= 3
}

/// Dozen `dozen` holds the twelve numbers that end at `12 * dozen`.
pub open spec fn in_dozen(dozen: int, number: int) -> bool {
    valid_index(dozen) && 12 * (dozen - 1) < number <= 12 * dozen
}

/// Column `column` holds the layout numbers whose remainder by three is
/// that of `column`: 1, 4, 7, ... for the first, 3, 6, 9, ... for the third.
pub open spec fn in_column(column: int, number: int) -> bool {
    valid_index(column) && on_layout(number) && number % 3 == column % 3
}

/// No element is followed by a smaller one.
pub open spec fn ascending(s: Seq<i32>) -> bool {
    forall|i: int, j: int| 0 <= i <= j < s.len() ==> s[i] <= s[j]
}

/// Exchanging two elements of a sequence rearranges it.
proof fn lemma_exchange_rearranges(s: Seq<i32>, i: int, j: int)
    requires
        0 <= i < s.len(),
        0 <= j < s.len(),
    ensures
        s.update(i, s[j]).update(j, s[i]).to_multiset() == s.to_multiset(),
{
    let once = s.update(i, s[j]);
    to_multiset_update(s, i, s[j]);
    to_multiset_update(once, j, s[i]);
    to_multiset_contains(s, s[i]);
    to_multiset_contains(s, s[j]);
    assert(s.contains(s[i]));
    assert(s.contains(s[j]));
    assert(once[j] == s[j]);
    assert(once.update(j, s[i]).to_multiset() =~= s.to_multiset());
}

/// A triple is a trio exactly when its ascending rearrangement is 0, 1, 2
/// or 0, 2, 3.
proof fn lemma_trio_of_sorted(given: Seq<i32>, sorted: Seq<i32>)
    requires
        given.len() == 3,
        sorted.len() == 3,
        ascending(sorted),
        forall|value: i32| sorted.contains(value) <==> given.contains(value),
    ensures
        is_trio(given[0] as int, given[1] as int, given[2] as int) <==> {
            ||| sorted[0] == 0 && sorted[1] == 1 && sorted[2] == 2
            ||| sorted[0] == 0 && sorted[1] == 2 && sorted[2] == 3
        },
{
    assert(given.contains(given[0]) && given.contains(given[1]) && given.contains(given[2]));
    assert(sorted.contains(sorted[0]) && sorted.contains(sorted[1]) && sorted.contains(sorted[2]));
}

/// The numbers of a trio are 0, 1, 2 or 0, 2, 3: three different pockets
/// of the wheel.
pub proof fn lemma_trio_numbers(a: int, b: int, c: int)
    requires
        is_trio(a, b, c),
    ensures
        0 <= a <= 3,
        0 <= b <= 3,
        0 <= c <= 3,
        a != b,
        a != c,
        b != c,
        a + b + c == 3 || a + b + c == 5,
{
}

/// Whether two numbers form a split does not depend on their order, and
/// the numbers of a split differ by one within a row, or by three.
pub proof fn lemma_split_numbers(a: int, b: int)
    ensures
        adjacent(a, b) == adjacent(b, a),
        adjacent(a, b) && a < b <==> on_layout(a) && on_layout(b) && ((b - a == 1 && a % 3 != 0)
            || b - a == 3),
        adjacent(a, b) ==> a != b,
{
}

/// The column of a layout number is one more than its place in the row.
pub proof fn lemma_column_is_place(column: int, number: int)
    requires
        on_layout(number),
    ensures
        in_column(column, number) <==> column == place_of(number) + 1,
{
}

/// Tells whether a pocket number lies on the wheel.
pub fn valid_number(number: i32) -> (valid: bool)
    ensures
        valid == on_wheel(number as int),
{
    0 <= number && number <= LAST_NUMBER
}

/// Tells whether two numbers form a split: two layout numbers that share an
/// edge. A pair that differs by one but straddles the end of a row (3 and
/// 4, say) is no split, nor is any pair with zero or with a number off the
/// layout.
pub fn valid_split(first_number: i32, second_number: i32) -> (valid: bool)
    ensures
        valid == adjacent(first_number as int, second_number as int),
{
    let lowest_number: i32;
    let highest_number: i32;
    if first_number < second_number {
        lowest_number = first_number;
        highest_number = second_number;
    } else {
        lowest_number = second_number;
        highest_number = first_number;
    }
    if lowest_number < 1 || highest_number > LAST_NUMBER {
        return false;
    }
    let gap: i32 = highest_number - lowest_number;
    // To the right of the lowest number, unless that one ends its row; or
    // directly below it, rows being three numbers wide.
    (gap == 1 && lowest_number % 3 != 0) || gap == 3
}

/// Sorts an array in ascending order: the result holds the same numbers,
/// each as often as the argument does.
pub fn sort<const N: usize>(array: [i32; N]) -> (sorted: [i32; N])
    ensures
        ascending(sorted@),
        sorted@.to_multiset() == array@.to_multiset(),
        forall|value: i32| sorted@.contains(value) <==> array@.contains(value),
{
    let mut sorted: [i32; N] = array;
    let mut done: usize = 0;
    while done < N
        invariant
            done <= N,
            sorted@.to_multiset() == array@.to_multiset(),
            forall|i: int, j: int| 0 <= i <= j < done ==> sorted@[i] <= sorted@[j],
        decreases N - done,
    {
        // Sink the next number into the sorted prefix.
        let mut hole: usize = done;
        while hole > 0 && sorted[hole - 1] > sorted[hole]
            invariant
                hole <= done < N,
                sorted@.to_multiset() == array@.to_multiset(),
                forall|i: int, j: int|
                    0 <= i <= j <= done && i != hole && j != hole ==> sorted@[i] <= sorted@[j],
                forall|j: int| hole < j <= done ==> sorted@[hole as int] <= sorted@[j],
            decreases hole,
        {
            let ghost before = sorted@;
            let upper: i32 = sorted[hole];
            let lower: i32 = sorted[hole - 1];
            sorted[hole] = lower;
            sorted[hole - 1] = upper;
            proof {
                assert(sorted@ =~= before.update(hole as int, before[hole - 1]).update(
                    hole - 1,
                    before[hole as int],
                ));
                lemma_exchange_rearranges(before, hole as int, hole - 1);
            }
            hole = hole - 1;
        }
        done = done + 1;
    }
    proof {
        assert forall|value: i32| sorted@.contains(value) <==> array@.contains(value) by {
            to_multiset_contains(sorted@, value);
            to_multiset_contains(array@, value);
        }
    }
    sorted
}

/// Tells whether three numbers, in any order, form a trio: 0-1-2 or 0-2-3.
pub fn valid_trio(first_number: i32, second_number: i32, third_number: i32) -> (valid: bool)
    ensures
        valid == is_trio(first_number as int, second_number as int, third_number as int),
{
    let given: [i32; 3] = [first_number, second_number, third_number];
    let trio: [i32; 3] = sort(given);
    proof {
        lemma_trio_of_sorted(given@, trio@);
    }
    (trio[0] == 0 && trio[1] == 1 && trio[2] == 2) || (trio[0] == 0 && trio[1] == 2 && trio[2]
        == 3)
}

} // verus!
