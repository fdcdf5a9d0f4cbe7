//! Three-component vectors of fixed-point scalars.

use vstd::prelude::*;

use crate::fixed::{product, saturate, saturated, ONE};

verus! {

/// A point or a direction in space. Each component counts millionths, so a
/// unit direction has length `ONE`.
#[derive(Clone, Copy, Debug, PartialEq, Eq)]
pub struct Vec3 {
    pub x: i64,
    pub y: i64,
    pub z: i64,
}

/// The scalar that lies the fraction `factor` of the way from `from` to `to`,
/// rounded down: `from` at factor 0, `to` at factor 1, and a point on the
/// line through both beyond them for a factor outside of 0 to 1.
pub open spec fn blend(from: int, to: int, factor: int) -> int {
    from + product(to - from, factor)
}

/// A blend by a factor between 0 and 1 lies between its two ends, and the
/// factors 0 and 1 give the ends themselves.
pub proof fn lemma_blend_between(from: int, to: int, factor: int)
    requires
        0 <= factor <= ONE,
    ensures
        from <= to ==> from <= blend(from, to, factor) <= to,
        to <= from ==> to <= blend(from, to, factor) <= from,
        blend(from, to, 0) == from,
        blend(from, to, ONE as int) == to,
{
    let d = to - from;
    let one = ONE as int;
    assert((d * one) / one == d) by (nonlinear_arith)
        requires
            one == 1_000_000,
    ;
    if d >= 0 {
        assert(0 <= (d * factor) / one <= d) by (nonlinear_arith)
            requires
                d >= 0,
                0 <= factor <= one,
                one == 1_000_000,
        ;
    } else {
        assert(d <= (d * factor) / one <= 0) by (nonlinear_arith)
            requires
                d < 0,
                0 <= factor <= one,
                one == 1_000_000,
        ;
    }
}

/// The scalar that lies the fraction `factor` of the way from `from` to `to`,
/// saturating at the ends of the range of `i64`.
fn blend_scalar(from: i64, to: i64, factor: i64) -> (r: i64)
    ensures
        r == saturated(blend(from as int, to as int, factor as int)),
{
    let d: i128 = to as i128 - from as i128;
    assert(-0x7fff_ffff_ffff_ffff_8000_0000_0000_0000 <= d * factor
        <= 0x7fff_ffff_ffff_ffff_8000_0000_0000_0000) by (nonlinear_arith)
        requires
            -0xffff_ffff_ffff_ffff <= d <= 0xffff_ffff_ffff_ffff,
            -0x8000_0000_0000_0000 <= factor <= 0x8000_0000_0000_0000,
    ;
    let p: i128 = d * (factor as i128);
    let q: i128 = p / (ONE as i128);
    let m: i128 = p % (ONE as i128);
    let step: i128 = if m < 0 {
        q - 1
    } else {
        q
    };
    saturate(from as i128 + step)
}

impl Vec3 {
    /// The vector whose components are all 0.
    pub open spec fn zero() -> Vec3 {
        Vec3 { x: 0, y: 0, z: 0 }
    }

    /// `self` with its vertical component replaced by 0.
    pub open spec fn flattened(self) -> Vec3 {
        Vec3 { x: self.x, y: 0, z: self.z }
    }

    /// The point that lies the fraction `factor` of the way from `self` to
    /// `toward`, component by component. A coordinate beyond the range of
    /// `i64` saturates.
    pub open spec fn blended(self, toward: Vec3, factor: int) -> Vec3 {
        Vec3 {
            x: saturated(blend(self.x as int, toward.x as int, factor)) as i64,
            y: saturated(blend(self.y as int, toward.y as int, factor)) as i64,
            z: saturated(blend(self.z as int, toward.z as int, factor)) as i64,
        }
    }

    pub fn new(x: i64, y: i64, z: i64) -> (v: Vec3)
        ensures
            v == (Vec3 { x, y, z }),
    {
        Vec3 { x, y, z }
    }

    /// `self` projected onto the ground plane.
    pub fn flat(self) -> (v: Vec3)
        ensures
            v == self.flattened(),
    {
        Vec3 { x: self.x, y: 0, z: self.z }
    }

    /// Linear interpolation from `self` (at factor 0) to `rhs` (at factor 1);
    /// a factor outside of 0 to 1 extrapolates.
    pub fn lerp(self, rhs: Vec3, factor: i64) -> (v: Vec3)
        ensures
            v == self.blended(rhs, factor as int),
    {
        Vec3 {
            x: blend_scalar(self.x, rhs.x, factor),
            y: blend_scalar(self.y, rhs.y, factor),
            z: blend_scalar(self.z, rhs.z, factor),
        }
    }
}

} // verus!
