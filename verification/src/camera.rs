//! The orbit parameters of the primary camera.

use vstd::prelude::*;

use crate::fixed::{saturated, saturating_sum};
use crate::limits::{CameraAxisLimit, CameraLimits, FULL_TURN};
use crate::vector::Vec3;

verus! {

/// Where the camera sits relative to its target.
#[derive(Clone, Copy, Debug, PartialEq, Eq)]
pub enum CameraMode {
    /// The camera orbits the target at the whole offset.
    ThirdPersonOrbit,
    /// The camera sits at the target, raised by the vertical offset alone.
    FirstPerson,
}

/// The axis that a rotation turns about: `X` for pitch, `Y` for yaw.
#[derive(Clone, Copy, Debug, PartialEq, Eq)]
pub enum Axis {
    X,
    Y,
}

/// One rotation for the host to apply to a transform, by `degrees`
/// millionths of a degree. Where several are given, the host applies them in
/// the order given.
#[derive(Clone, Copy, Debug, PartialEq, Eq)]
pub struct Rotation {
    pub axis: Axis,
    pub degrees: i64,
}

/// The orbit parameters of one camera. Lengths count millionths of a unit,
/// angles millionths of a degree.
#[derive(Clone, Copy, Debug, PartialEq, Eq)]
pub struct PrimaryCamera {
    /// Offset in the camera's own axes: `x` to the side, `y` upward, `z`
    /// along the viewing direction.
    pub offset: Vec3,
    /// Pitch.
    pub x_angle: i64,
    /// Yaw.
    pub y_angle: i64,
    /// The point that the camera orbits and looks toward.
    pub target: Vec3,
    pub mode: CameraMode,
    /// Field of view, handed on to rendering.
    pub fov_degrees: i64,
    pub limits: CameraLimits,
}

impl PrimaryCamera {
    /// Every clamp among the limits has its bounds in order.
    pub open spec fn well_formed(self) -> bool {
        self.limits.well_formed()
    }

    /// The rotations that turn the basis at the target: yaw first, then
    /// pitch.
    pub open spec fn basis_plan(self) -> (Rotation, Rotation) {
        (
            Rotation { axis: Axis::Y, degrees: self.y_angle },
            Rotation { axis: Axis::X, degrees: self.x_angle },
        )
    }

    /// The rotations that build the desired orientation from the identity:
    /// pitch first, then yaw.
    pub open spec fn orientation_plan(self) -> (Rotation, Rotation) {
        (
            Rotation { axis: Axis::X, degrees: self.x_angle },
            Rotation { axis: Axis::Y, degrees: self.y_angle },
        )
    }

    /// The camera after its pitch has been adjusted by `increase`: the limit
    /// of the x axis applied to the sum of the two, which saturates first
    /// where it lies beyond the range of `i64`.
    pub open spec fn x_adjusted(self, increase: i64) -> PrimaryCamera {
        PrimaryCamera {
            x_angle: self.limits.x.applied(saturated(self.x_angle + increase) as i64),
            ..self
        }
    }

    /// The camera after its yaw has been adjusted by `increase`: the limit of
    /// the y axis applied to the yaw plus twice the increase, a sum that
    /// saturates first where it lies beyond the range of `i64`.
    pub open spec fn y_adjusted(self, increase: i64) -> PrimaryCamera {
        PrimaryCamera {
            y_angle: self.limits.y.applied(saturated(self.y_angle + 2 * increase) as i64),
            ..self
        }
    }

    /// The camera after its pitch has been adjusted by each of `increases`
    /// in turn.
    pub open spec fn x_adjusted_by_each(self, increases: Seq<i64>) -> PrimaryCamera
        decreases increases.len(),
    {
        if increases.len() == 0 {
            self
        } else {
            self.x_adjusted_by_each(increases.drop_last()).x_adjusted(increases.last())
        }
    }

    /// Adds `increase` to the pitch and applies the limit of the x axis to
    /// the sum.
    pub fn adjust_x_angle(&mut self, increase: i64)
        requires
            old(self).limits.x.well_formed(),
        ensures
            *final(self) == old(self).x_adjusted(increase),
    {
        let sum = saturating_sum(self.x_angle, increase);
        self.x_angle = self.limits.x.apply(sum);
    }

    /// Adds `increase` to the yaw, then applies the limit of the y axis to
    /// that sum and `increase` once more: the increase counts twice.
    pub fn adjust_y_angle(&mut self, increase: i64)
        requires
            old(self).limits.y.well_formed(),
        ensures
            *final(self) == old(self).y_adjusted(increase),
    {
        self.y_angle = saturating_sum(self.y_angle, increase);
        let sum = saturating_sum(self.y_angle, increase);
        self.y_angle = self.limits.y.apply(sum);
    }

    /// The rotations for the host to apply, in order, to a basis placed at
    /// the target: yaw first, then pitch. The directions of that basis go
    /// into the placement.
    pub fn basis_rotations(&self) -> (plan: (Rotation, Rotation))
        ensures
            plan == self.basis_plan(),
    {
        (
            Rotation { axis: Axis::Y, degrees: self.y_angle },
            Rotation { axis: Axis::X, degrees: self.x_angle },
        )
    }
}

impl Default for PrimaryCamera {
    /// A third-person camera half a unit above and six units behind a target
    /// at the origin, with a field of view of 45 degrees, its pitch clamped
    /// to -2..20 degrees and its yaw wrapped.
    fn default() -> (camera: PrimaryCamera)
        ensures
            camera.offset == (Vec3 { x: 0, y: 500_000, z: -6_000_000i64 }),
            camera.x_angle == 0,
            camera.y_angle == 0,
            camera.target == Vec3::zero(),
            camera.mode == CameraMode::ThirdPersonOrbit,
            camera.fov_degrees == 45_000_000,
            camera.limits == (CameraLimits {
                x: CameraAxisLimit::Clamp { min: -2_000_000i64, max: 20_000_000 },
                y: CameraAxisLimit::Wrap,
                z: CameraAxisLimit::Wrap,
            }),
            camera.well_formed(),
    {
        PrimaryCamera {
            offset: Vec3::new(0, 500_000, -6_000_000),
            x_angle: 0,
            y_angle: 0,
            target: Vec3::new(0, 0, 0),
            mode: CameraMode::ThirdPersonOrbit,
            fov_degrees: 45_000_000,
            limits: CameraLimits {
                x: CameraAxisLimit::Clamp { min: -2_000_000, max: 20_000_000 },
                y: CameraAxisLimit::Wrap,
                z: CameraAxisLimit::Wrap,
            },
        }
    }
}

/// However often and by whatever amounts the pitch is adjusted, a clamp on
/// the x axis keeps it within the clamp's bounds.
pub proof fn lemma_clamped_pitch_stays_in_bounds(camera: PrimaryCamera, increases: Seq<i64>)
    requires
        camera.limits.x.well_formed(),
        increases.len() > 0,
    ensures
        camera.x_adjusted_by_each(increases).limits == camera.limits,
        camera.limits.x matches CameraAxisLimit::Clamp { min, max } ==> min
            <= camera.x_adjusted_by_each(increases).x_angle <= max,
    decreases increases.len(),
{
    if increases.len() > 1 {
        lemma_clamped_pitch_stays_in_bounds(camera, increases.drop_last());
    } else {
        assert(camera.x_adjusted_by_each(increases.drop_last()) == camera);
    }
}

/// One adjustment of a wrapped pitch, from an angle within the turn and by
/// at most a full turn either way, gives an angle within the turn again,
/// except where the sum is exactly a full turn, which stays as it is.
pub proof fn lemma_wrapped_pitch_stays_in_turn(camera: PrimaryCamera, increase: i64)
    requires
        camera.limits.x == CameraAxisLimit::Wrap,
        0 <= camera.x_angle < FULL_TURN,
        -FULL_TURN <= increase <= FULL_TURN,
    ensures
        0 <= camera.x_adjusted(increase).x_angle < FULL_TURN <==> camera.x_angle + increase
            != FULL_TURN,
{
}

/// One adjustment of a wrapped yaw, from an angle within the turn and by at
/// most a full turn either way, gives an angle within the turn again exactly
/// where the yaw plus twice the increase lies less than a full turn outside
/// the turn and is not exactly a full turn.
pub proof fn lemma_wrapped_yaw_stays_in_turn(camera: PrimaryCamera, increase: i64)
    requires
        camera.limits.y == CameraAxisLimit::Wrap,
        0 <= camera.y_angle < FULL_TURN,
        -FULL_TURN <= increase <= FULL_TURN,
    ensures
        0 <= camera.y_adjusted(increase).y_angle < FULL_TURN <==> {
            &&& -FULL_TURN <= camera.y_angle + 2 * increase < 2 * FULL_TURN
            &&& camera.y_angle + 2 * increase != FULL_TURN
        },
{
}

} // verus!
