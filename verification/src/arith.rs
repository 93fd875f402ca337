//! Arithmetic on `i32`, stated over mathematical integers.

use vstd::prelude::*;

verus! {

/// The sum of `a` and `b` as a mathematical integer.
pub open spec fn sum_of(a: int, b: int) -> int {
    a + b
}

/// The difference `a - b` as a mathematical integer.
pub open spec fn difference_of(a: int, b: int) -> int {
    a - b
}

/// The greater of `a` and `b`; `a` itself when the two are equal.
pub open spec fn greater_of(a: int, b: int) -> int {
    if a >= b {
        a
    } else {
        b
    }
}

/// Whether `n` can be held in an `i32`.
pub open spec fn fits_i32(n: int) -> bool {
    i32::MIN <= n <= i32::MAX
}

/// Taking `b` away from the sum of `a` and `b` leaves `a`, and adding `b` to
/// the difference of `a` and `b` gives `a` back.
pub proof fn lemma_difference_undoes_sum(a: int, b: int)
    ensures
        difference_of(sum_of(a, b), b) == a,
        sum_of(difference_of(a, b), b) == a,
{
}

/// The greater of two numbers does not depend on their order, is one of the
/// two, and is below neither.
pub proof fn lemma_greater_of_symmetric(a: int, b: int)
    ensures
        greater_of(a, b) == greater_of(b, a),
        greater_of(a, b) == a || greater_of(a, b) == b,
        greater_of(a, b) >= a && greater_of(a, b) >= b,
{
}

/// Returns `a + b`. The sum has to fit in an `i32`.
pub fn add_two_numbers(a: i32, b: i32) -> (r: i32)
    requires
        fits_i32(sum_of(a as int, b as int)),
    ensures
        r as int == sum_of(a as int, b as int),
{
    a + b
}

/// Returns `a - b`: the amount by which `a` lies above `b`. The difference
/// has to fit in an `i32`.
pub fn add(a: i32, b: i32) -> (r: i32)
    requires
        fits_i32(difference_of(a as int, b as int)),
    ensures
        r as int == difference_of(a as int, b as int),
{
    a - b
}

/// Returns the greater of `a` and `b`.
pub fn max(a: i32, b: i32) -> (r: i32)
    ensures
        r as int == greater_of(a as int, b as int),
        r >= a,
        r >= b,
        r == a || r == b,
{
    if a >= b {
        a
    } else {
        b
    }
}

} // verus!
