//! Limit policies for the orbit angles.

use vstd::prelude::*;

verus! {

/// A full turn, 360 degrees, in millionths of a degree.
pub const FULL_TURN: i64 = 360_000_000;

/// Brings an angle back toward the range of one turn by a single correction.
pub trait Wrap: Sized {
    /// What `wrap` returns for `self`.
    spec fn wrapped(&self) -> Self;

    fn wrap(&self) -> (r: Self)
        ensures
            r == self.wrapped(),
    ;
}

/// Angles in millionths of a degree. An angle above a full turn is lowered by
/// one turn and an angle below 0 is raised by one turn, once and not
/// repeatedly; an angle of exactly a full turn stays as it is.
impl Wrap for i64 {
    open spec fn wrapped(&self) -> i64 {
        if *self > FULL_TURN {
            (*self - FULL_TURN) as i64
        } else if *self < 0 {
            (*self + FULL_TURN) as i64
        } else {
            *self
        }
    }

    fn wrap(&self) -> (r: i64) {
        if *self > FULL_TURN {
            return *self - FULL_TURN;
        }
        if *self < 0 {
            return *self + FULL_TURN;
        }
        *self
    }
}

/// How one orbit angle is kept within bounds.
#[derive(Clone, Copy, Debug, PartialEq, Eq)]
pub enum CameraAxisLimit {
    /// The angle stays within `min` and `max`, both in millionths of a degree.
    Clamp { min: i64, max: i64 },
    /// The angle is wrapped by one turn.
    Wrap,
}

impl CameraAxisLimit {
    /// A clamp has its bounds in order.
    pub open spec fn well_formed(self) -> bool {
        match self {
            CameraAxisLimit::Clamp { min, max } => min <= max,
            CameraAxisLimit::Wrap => true,
        }
    }

    /// The angle that the policy makes of `angle`.
    pub open spec fn applied(self, angle: i64) -> i64 {
        match self {
            CameraAxisLimit::Clamp { min, max } => if angle < min {
                min
            } else if angle > max {
                max
            } else {
                angle
            },
            CameraAxisLimit::Wrap => angle.wrapped(),
        }
    }

    /// Whether a clamp has its bounds in order.
    pub fn is_well_formed(&self) -> (b: bool)
        ensures
            b == self.well_formed(),
    {
        match *self {
            CameraAxisLimit::Clamp { min, max } => min <= max,
            CameraAxisLimit::Wrap => true,
        }
    }

    /// Applies the policy to `angle`.
    pub fn apply(&self, angle: i64) -> (r: i64)
        requires
            self.well_formed(),
        ensures
            r == self.applied(angle),
    {
        match *self {
            CameraAxisLimit::Clamp { min, max } => {
                if angle < min {
                    min
                } else if angle > max {
                    max
                } else {
                    angle
                }
            },
            CameraAxisLimit::Wrap => angle.wrap(),
        }
    }
}

/// The limit policy of each axis. Only `x` and `y` govern an orbit angle.
#[derive(Clone, Copy, Debug, PartialEq, Eq)]
pub struct CameraLimits {
    pub x: CameraAxisLimit,
    pub y: CameraAxisLimit,
    pub z: CameraAxisLimit,
}

impl CameraLimits {
    pub open spec fn well_formed(self) -> bool {
        &&& self.x.well_formed()
        &&& self.y.well_formed()
        &&& self.z.well_formed()
    }

    /// Whether every clamp has its bounds in order.
    pub fn is_well_formed(&self) -> (b: bool)
        ensures
            b == self.well_formed(),
    {
        self.x.is_well_formed() && self.y.is_well_formed() && self.z.is_well_formed()
    }
}

} // verus!
