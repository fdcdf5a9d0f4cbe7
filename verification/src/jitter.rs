//! Sampling a direction inside a cone, in polar coordinates.

use vstd::prelude::*;

use crate::fixed::{product, ONE};

verus! {

/// A full circle, 2 pi, in millionths of a radian, rounded down.
pub const FULL_CIRCLE: u64 = 6_283_185;

/// The number of values that a uniform sample can take.
pub const SAMPLE_STEPS: u64 = 0x100_0000;

/// A point of the unit disc scaled by the cone's range: `radius` in
/// millionths of a unit, `theta` in millionths of a radian.
#[derive(Clone, Copy, Debug, PartialEq, Eq)]
pub struct PolarOffset {
    pub radius: u64,
    pub theta: u64,
}

/// The uniform sample in the half-open range from 0 to 1 that 32 random bits
/// stand for: their upper 24 bits, counted in steps of `1 / SAMPLE_STEPS`,
/// as a fixed-point scalar rounded down.
pub open spec fn unit_sample(bits: u32) -> int {
    ((bits as int / 256) * ONE) / (SAMPLE_STEPS as int)
}

/// `root` is the square root of `n`, rounded down.
pub open spec fn is_floor_sqrt(n: int, root: int) -> bool {
    &&& 0 <= root
    &&& root * root <= n
    &&& n < (root + 1) * (root + 1)
}

/// The square root of `n`, rounded down.
pub open spec fn floor_sqrt(n: int) -> int {
    choose|root: int| is_floor_sqrt(n, root)
}

/// The polar offset that two draws of random bits give in a cone of the
/// given range: the radius is the square root of the range times the first
/// sample, the angle is the second sample's share of a full circle. Both are
/// rounded down. (The root of the product of two counts of millionths is
/// itself a count of millionths.)
pub open spec fn polar_offset_of(range: u64, radial_bits: u32, angular_bits: u32) -> PolarOffset {
    PolarOffset {
        radius: floor_sqrt(range * unit_sample(radial_bits)) as u64,
        theta: product(FULL_CIRCLE as int, unit_sample(angular_bits)) as u64,
    }
}

/// A number has at most one rounded-down square root.
pub proof fn lemma_floor_sqrt_unique(n: int, a: int, b: int)
    requires
        is_floor_sqrt(n, a),
        is_floor_sqrt(n, b),
    ensures
        a == b,
{
    if a < b {
        assert((a + 1) * (a + 1) <= b * b) by (nonlinear_arith)
            requires
                0 <= a,
                a + 1 <= b,
        ;
    }
    if b < a {
        assert((b + 1) * (b + 1) <= a * a) by (nonlinear_arith)
            requires
                0 <= b,
                b + 1 <= a,
        ;
    }
}

/// Every number from 0 on has a rounded-down square root.
pub proof fn lemma_floor_sqrt_exists(n: int)
    requires
        0 <= n,
    ensures
        is_floor_sqrt(n, floor_sqrt(n)),
    decreases n,
{
    if n == 0 {
        assert(is_floor_sqrt(0, 0));
    } else {
        lemma_floor_sqrt_exists(n - 1);
        let below = floor_sqrt(n - 1);
        if n < (below + 1) * (below + 1) {
            assert(is_floor_sqrt(n, below));
        } else {
            assert((below + 1) * (below + 1) == n);
            assert(n < (below + 2) * (below + 2)) by (nonlinear_arith)
                requires
                    0 <= below,
                    (below + 1) * (below + 1) == n,
            ;
            assert(is_floor_sqrt(n, below + 1));
        }
    }
}

/// The square root of `n`, rounded down.
pub fn integer_sqrt(n: u128) -> (root: u64)
    ensures
        is_floor_sqrt(n as int, root as int),
        root == floor_sqrt(n as int),
{
    let mut low: u128 = 0;
    let mut high: u128 = 0x1_0000_0000_0000_0000;
    assert(0x1_0000_0000_0000_0000int * 0x1_0000_0000_0000_0000int
        == 0x1_0000_0000_0000_0000_0000_0000_0000_0000int) by (nonlinear_arith);
    while high - low > 1
        invariant
            low < high <= 0x1_0000_0000_0000_0000,
            low * low <= n,
            n < high * high,
        decreases high - low,
    {
        let middle: u128 = low + (high - low) / 2;
        assert(middle * middle <= 0xffff_ffff_ffff_ffff * 0xffff_ffff_ffff_ffff) by (nonlinear_arith)
            requires
                0 <= middle <= 0xffff_ffff_ffff_ffff,
        ;
        assert(0xffff_ffff_ffff_ffffint * 0xffff_ffff_ffff_ffffint
            < 0x1_0000_0000_0000_0000_0000_0000_0000_0000int) by (nonlinear_arith);
        if middle * middle <= n {
            low = middle;
        } else {
            high = middle;
        }
    }
    proof {
        lemma_floor_sqrt_unique(n as int, low as int, floor_sqrt(n as int));
    }
    low as u64
}

/// The uniform sample that `bits` stand for.
pub fn sample_unit(bits: u32) -> (sample: u64)
    ensures
        sample == unit_sample(bits),
        sample < ONE,
{
    let steps: u64 = (bits / 256) as u64;
    let unit: u64 = ONE as u64;
    assert(steps * unit <= 0xff_ffff * 1_000_000) by (nonlinear_arith)
        requires
            0 <= steps <= 0xff_ffff,
            unit == 1_000_000,
    ;
    (steps * unit) / SAMPLE_STEPS
}

/// The polar offset that two draws of random bits give in a cone of the
/// given range.
pub fn polar_offset(range: u64, radial_bits: u32, angular_bits: u32) -> (offset: PolarOffset)
    ensures
        offset == polar_offset_of(range, radial_bits, angular_bits),
{
    let radial: u64 = sample_unit(radial_bits);
    let angular: u64 = sample_unit(angular_bits);
    assert(0 <= range * radial <= 0xffff_ffff_ffff_ffff * 1_000_000) by (nonlinear_arith)
        requires
            0 <= range <= 0xffff_ffff_ffff_ffff,
            0 <= radial <= 1_000_000,
    ;
    let spread: u128 = range as u128 * radial as u128;
    assert(0 <= FULL_CIRCLE * angular <= 6_283_185 * 1_000_000) by (nonlinear_arith)
        requires
            FULL_CIRCLE == 6_283_185,
            0 <= angular <= 1_000_000,
    ;
    let theta: u64 = (FULL_CIRCLE * angular) / (ONE as u64);
    PolarOffset { radius: integer_sqrt(spread), theta }
}

/// A cone of range 0 gives the radius 0, whatever the draws: the direction
/// is then turned by nothing.
pub proof fn lemma_zero_range_zero_radius(radial_bits: u32, angular_bits: u32)
    ensures
        polar_offset_of(0, radial_bits, angular_bits).radius == 0,
{
    assert(is_floor_sqrt(0, 0));
    lemma_floor_sqrt_unique(0, 0, floor_sqrt(0));
}

/// The radius of a polar offset is at most the square root of the range,
/// and its angle lies within the full circle.
pub proof fn lemma_polar_offset_in_cone(range: u64, radial_bits: u32, angular_bits: u32)
    ensures
        polar_offset_of(range, radial_bits, angular_bits).radius * polar_offset_of(
            range,
            radial_bits,
            angular_bits,
        ).radius <= range * ONE,
        polar_offset_of(range, radial_bits, angular_bits).theta < FULL_CIRCLE,
{
    let sample = unit_sample(radial_bits);
    let steps = radial_bits as int / 256;
    assert(0 <= sample < 1_000_000) by (nonlinear_arith)
        requires
            0 <= steps < 0x100_0000,
            sample == (steps * 1_000_000) / 0x100_0000,
    ;
    let spread = range * sample;
    assert(0 <= spread <= range * 1_000_000) by (nonlinear_arith)
        requires
            0 <= range,
            0 <= sample < 1_000_000,
            spread == range * sample,
    ;
    lemma_floor_sqrt_exists(spread);
    let radius = floor_sqrt(spread);
    assert(radius < 0x1_0000_0000_0000_0000) by (nonlinear_arith)
        requires
            0 <= radius,
            radius * radius <= range * 1_000_000,
            range < 0x1_0000_0000_0000_0000,
    ;
    let angle = unit_sample(angular_bits);
    let angle_steps = angular_bits as int / 256;
    assert(0 <= angle < 1_000_000) by (nonlinear_arith)
        requires
            0 <= angle_steps < 0x100_0000,
            angle == (angle_steps * 1_000_000) / 0x100_0000,
    ;
    let theta = product(FULL_CIRCLE as int, angle);
    assert(0 <= theta < 6_283_185) by (nonlinear_arith)
        requires
            0 <= angle < 1_000_000,
            theta == (6_283_185 * angle) / 1_000_000,
    ;
}

} // verus!
