use vstd::prelude::*;

use crate::num::BigInt;

verus! {

pub open spec fn min_of(a: int, b: int) -> int {
    if a <= b {
        a
    } else {
        b
    }
}

pub open spec fn max_of(a: int, b: int) -> int {
    if a >= b {
        a
    } else {
        b
    }
}

/// Smallest of the four corner products of `[min1, max1] * [min2, max2]`.
pub open spec fn spec_mul_min(min1: int, max1: int, min2: int, max2: int) -> int {
    min_of(min1 * min2, min_of(min1 * max2, min_of(max1 * min2, max1 * max2)))
}

/// Largest of the four corner products of `[min1, max1] * [min2, max2]`.
pub open spec fn spec_mul_max(min1: int, max1: int, min2: int, max2: int) -> int {
    max_of(min1 * min2, max_of(min1 * max2, max_of(max1 * min2, max1 * max2)))
}

pub open spec fn fits_big(v: int) -> bool {
    i128::MIN <= v <= i128::MAX
}

/// All four corner products can be computed in the wide domain.
pub open spec fn corners_fit(min1: int, max1: int, min2: int, max2: int) -> bool {
    &&& fits_big(min1 * min2)
    &&& fits_big(min1 * max2)
    &&& fits_big(max1 * min2)
    &&& fits_big(max1 * max2)
}

fn min(a: BigInt, b: BigInt) -> (r: BigInt)
    ensures
        r == min_of(a as int, b as int),
{
    if a <= b {
        a
    } else {
        b
    }
}

fn max(a: BigInt, b: BigInt) -> (r: BigInt)
    ensures
        r == max_of(a as int, b as int),
{
    if a >= b {
        a
    } else {
        b
    }
}

/// Lower bound of the product of a value in `[min1, max1]` and a value in
/// `[min2, max2]`.
pub fn mul_min(min1: BigInt, max1: BigInt, min2: BigInt, max2: BigInt) -> (r: BigInt)
    requires
        corners_fit(min1 as int, max1 as int, min2 as int, max2 as int),
    ensures
        r == spec_mul_min(min1 as int, max1 as int, min2 as int, max2 as int),
{
    let a = min1 * min2;
    let b = min1 * max2;
    let c = max1 * min2;
    let d = max1 * max2;
    min(a, min(b, min(c, d)))
}

/// Upper bound of the product of a value in `[min1, max1]` and a value in
/// `[min2, max2]`.
pub fn mul_max(min1: BigInt, max1: BigInt, min2: BigInt, max2: BigInt) -> (r: BigInt)
    requires
        corners_fit(min1 as int, max1 as int, min2 as int, max2 as int),
    ensures
        r == spec_mul_max(min1 as int, max1 as int, min2 as int, max2 as int),
{
    let a = min1 * min2;
    let b = min1 * max2;
    let c = max1 * min2;
    let d = max1 * max2;
    max(a, max(b, max(c, d)))
}

/// Addition of ranges is sound: the sum of a value of `[min1, max1]` and a
/// value of `[min2, max2]` lies in `[min1 + min2, max1 + max2]`.
pub proof fn lemma_add_sound(min1: int, max1: int, min2: int, max2: int, a: int, b: int)
    requires
        min1 <= a <= max1,
        min2 <= b <= max2,
    ensures
        min1 + min2 <= a + b <= max1 + max2,
{
}

/// Subtraction of ranges is sound: the difference of a value of
/// `[min1, max1]` and a value of `[min2, max2]` lies in
/// `[min1 - max2, max1 - min2]`.
pub proof fn lemma_sub_sound(min1: int, max1: int, min2: int, max2: int, a: int, b: int)
    requires
        min1 <= a <= max1,
        min2 <= b <= max2,
    ensures
        min1 - max2 <= a - b <= max1 - min2,
{
}

proof fn lemma_mul_between(lo: int, hi: int, x: int, y: int)
    requires
        lo <= x <= hi,
    ensures
        min_of(lo * y, hi * y) <= x * y <= max_of(lo * y, hi * y),
        min_of(y * lo, y * hi) <= y * x <= max_of(y * lo, y * hi),
{
    if y >= 0 {
        assert(lo * y <= x * y <= hi * y) by (nonlinear_arith)
            requires
                lo <= x <= hi,
                y >= 0,
        ;
    } else {
        assert(hi * y <= x * y <= lo * y) by (nonlinear_arith)
            requires
                lo <= x <= hi,
                y < 0,
        ;
    }
    assert(y * lo == lo * y && y * hi == hi * y && y * x == x * y) by (nonlinear_arith);
}

/// Multiplication of ranges is sound: the product of a value of
/// `[min1, max1]` and a value of `[min2, max2]` lies between the smallest and
/// the largest of the four corner products.
pub proof fn lemma_mul_sound(min1: int, max1: int, min2: int, max2: int, a: int, b: int)
    requires
        min1 <= a <= max1,
        min2 <= b <= max2,
    ensures
        spec_mul_min(min1, max1, min2, max2) <= a * b <= spec_mul_max(min1, max1, min2, max2),
{
    lemma_mul_between(min1, max1, a, b);
    lemma_mul_between(min2, max2, b, min1);
    lemma_mul_between(min2, max2, b, max1);
}

} // verus!
