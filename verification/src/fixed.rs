//! Fixed-point scalars.
//!
//! Every quantity of the rig (a length, an angle, a blend factor, a time) is
//! an integer that counts millionths of its unit: an `i64`, or a `u64` where
//! it cannot be negative.

use vstd::prelude::*;

verus! {

/// The fixed-point representation of 1.
pub const ONE: i64 = 1_000_000;

/// `v` brought into the range of `i64`: values beyond an end stay at that end.
pub open spec fn saturated(v: int) -> int {
    if v < i64::MIN {
        i64::MIN as int
    } else if v > i64::MAX {
        i64::MAX as int
    } else {
        v
    }
}

/// The fixed-point product of `a` and `b`, rounded down.
pub open spec fn product(a: int, b: int) -> int {
    (a * b) / (ONE as int)
}

/// Narrows `v` to `i64`, saturating at the ends of the range.
pub fn saturate(v: i128) -> (r: i64)
    ensures
        r == saturated(v as int),
{
    if v < i64::MIN as i128 {
        i64::MIN
    } else if v > i64::MAX as i128 {
        i64::MAX
    } else {
        v as i64
    }
}

/// The sum of `a` and `b`, saturating at the ends of the range of `i64`.
pub fn saturating_sum(a: i64, b: i64) -> (r: i64)
    ensures
        r == saturated(a + b),
{
    saturate(a as i128 + b as i128)
}

/// The fixed-point product of `a` and `b`, rounded down.
pub fn scaled_product(a: i64, b: i64) -> (r: i128)
    ensures
        r == product(a as int, b as int),
{
    assert(-0x4000_0000_0000_0000_0000_0000_0000_0000 <= a * b
        <= 0x4000_0000_0000_0000_0000_0000_0000_0000) by (nonlinear_arith)
        requires
            -0x8000_0000_0000_0000 <= a <= 0x8000_0000_0000_0000,
            -0x8000_0000_0000_0000 <= b <= 0x8000_0000_0000_0000,
    ;
    let p: i128 = a as i128 * b as i128;
    let q: i128 = p / (ONE as i128);
    let m: i128 = p % (ONE as i128);
    if m < 0 { q - 1 } else { q }
}

} // verus!
