//! Placing the camera: where it should be, and how far it moves there in
//! one frame.

use vstd::prelude::*;

use crate::camera::{Axis, CameraMode, PrimaryCamera, Rotation};
use crate::fixed::{product, saturate, saturated, scaled_product, ONE};
use crate::vector::{lemma_blend_between, Vec3};

verus! {

/// How much of the remaining way the camera covers per second.
pub const BLEND_RATE: u64 = 20;

/// The unit directions of a turned basis, as the host derives them from its
/// orientation.
#[derive(Clone, Copy, Debug, PartialEq, Eq)]
pub struct Basis {
    pub forward: Vec3,
    pub right: Vec3,
}

/// What one frame does to the camera.
#[derive(Clone, Copy, Debug, PartialEq, Eq)]
pub struct Placement {
    /// The camera's new position.
    pub position: Vec3,
    /// The rotations that build the desired orientation from the identity,
    /// in the order in which the host applies them: pitch first, then yaw.
    pub orientation: (Rotation, Rotation),
    /// How far the host turns the camera from its current orientation to
    /// the desired one, by spherical interpolation: 0 leaves it, `ONE`
    /// reaches it.
    pub factor: i64,
}

/// The fraction of the remaining way that is covered in `elapsed_micros`
/// microseconds: `BLEND_RATE` times the seconds elapsed, and never above 1.
pub open spec fn blend_factor_of(elapsed_micros: u64) -> int {
    if BLEND_RATE * elapsed_micros >= ONE {
        ONE as int
    } else {
        BLEND_RATE * elapsed_micros
    }
}

/// Where the camera should be. In third-person orbit it is the target moved
/// by the offset along the basis: offset `z` along `forward`, `x` along
/// `right`, `y` straight up. In first person it is the target raised by
/// offset `y`. A coordinate beyond the range of `i64` saturates.
pub open spec fn desired_position_of(camera: PrimaryCamera, basis: Basis) -> Vec3 {
    match camera.mode {
        CameraMode::ThirdPersonOrbit => Vec3 {
            x: saturated(
                camera.target.x + product(basis.forward.x as int, camera.offset.z as int) + product(
                    basis.right.x as int,
                    camera.offset.x as int,
                ),
            ) as i64,
            y: saturated(
                camera.target.y + product(basis.forward.y as int, camera.offset.z as int) + product(
                    basis.right.y as int,
                    camera.offset.x as int,
                ) + camera.offset.y,
            ) as i64,
            z: saturated(
                camera.target.z + product(basis.forward.z as int, camera.offset.z as int) + product(
                    basis.right.z as int,
                    camera.offset.x as int,
                ),
            ) as i64,
        },
        CameraMode::FirstPerson => Vec3 {
            x: camera.target.x,
            y: saturated(camera.target.y + camera.offset.y) as i64,
            z: camera.target.z,
        },
    }
}

/// The placement of a camera that stands at `position`, `elapsed_micros`
/// microseconds after the last one.
pub open spec fn placement_of(
    position: Vec3,
    camera: PrimaryCamera,
    basis: Basis,
    elapsed_micros: u64,
) -> Placement {
    Placement {
        position: position.blended(
            desired_position_of(camera, basis),
            blend_factor_of(elapsed_micros),
        ),
        orientation: camera.orientation_plan(),
        factor: blend_factor_of(elapsed_micros) as i64,
    }
}

/// The blend factor for a frame that took `elapsed_micros` microseconds.
pub fn blend_factor(elapsed_micros: u64) -> (factor: i64)
    ensures
        factor == blend_factor_of(elapsed_micros),
        0 <= factor <= ONE,
{
    if elapsed_micros >= 50_000 {
        ONE
    } else {
        (BLEND_RATE * elapsed_micros) as i64
    }
}

/// One coordinate of the orbit position: `origin` moved by `along_forward`
/// along a forward coordinate and by `along_right` along a right coordinate,
/// then by `lift`.
fn orbit_coordinate(
    origin: i64,
    forward: i64,
    along_forward: i64,
    right: i64,
    along_right: i64,
    lift: i64,
) -> (r: i64)
    ensures
        r == saturated(
            origin + product(forward as int, along_forward as int) + product(
                right as int,
                along_right as int,
            ) + lift,
        ),
{
    let f: i128 = scaled_product(forward, along_forward);
    let s: i128 = scaled_product(right, along_right);
    assert(-0x4000_0000_0000_0000_0000_0000_0000_0000 <= forward * along_forward
        <= 0x4000_0000_0000_0000_0000_0000_0000_0000) by (nonlinear_arith)
        requires
            -0x8000_0000_0000_0000 <= forward <= 0x8000_0000_0000_0000,
            -0x8000_0000_0000_0000 <= along_forward <= 0x8000_0000_0000_0000,
    ;
    assert(-0x4000_0000_0000_0000_0000_0000_0000_0000 <= right * along_right
        <= 0x4000_0000_0000_0000_0000_0000_0000_0000) by (nonlinear_arith)
        requires
            -0x8000_0000_0000_0000 <= right <= 0x8000_0000_0000_0000,
            -0x8000_0000_0000_0000 <= along_right <= 0x8000_0000_0000_0000,
    ;
    saturate(origin as i128 + f + s + lift as i128)
}

/// Where the camera should be, given the directions of the basis that the
/// host has turned at the target.
pub fn desired_position(camera: &PrimaryCamera, basis: &Basis) -> (position: Vec3)
    ensures
        position == desired_position_of(*camera, *basis),
{
    match camera.mode {
        CameraMode::ThirdPersonOrbit => Vec3 {
            x: orbit_coordinate(
                camera.target.x,
                basis.forward.x,
                camera.offset.z,
                basis.right.x,
                camera.offset.x,
                0,
            ),
            y: orbit_coordinate(
                camera.target.y,
                basis.forward.y,
                camera.offset.z,
                basis.right.y,
                camera.offset.x,
                camera.offset.y,
            ),
            z: orbit_coordinate(
                camera.target.z,
                basis.forward.z,
                camera.offset.z,
                basis.right.z,
                camera.offset.x,
                0,
            ),
        },
        CameraMode::FirstPerson => Vec3 {
            x: camera.target.x,
            y: saturate(camera.target.y as i128 + camera.offset.y as i128),
            z: camera.target.z,
        },
    }
}

/// Moves the camera from `position` toward its desired position by the
/// blend factor of the frame, and tells the host how to turn it: toward the
/// orientation that the pitch and then the yaw build, by the same factor.
///
/// `basis` holds the directions of the basis that the host has turned at the
/// target as `camera.basis_rotations()` says.
pub fn position_and_rotate_camera(
    position: Vec3,
    camera: &PrimaryCamera,
    basis: &Basis,
    elapsed_micros: u64,
) -> (placement: Placement)
    ensures
        placement == placement_of(position, *camera, *basis, elapsed_micros),
{
    let desired = desired_position(camera, basis);
    let factor = blend_factor(elapsed_micros);
    Placement {
        position: position.lerp(desired, factor),
        orientation: (
            Rotation { axis: Axis::X, degrees: camera.x_angle },
            Rotation { axis: Axis::Y, degrees: camera.y_angle },
        ),
        factor,
    }
}

/// A frame that took no time leaves the camera where it stands and asks for
/// no turn.
pub proof fn lemma_no_time_no_move(position: Vec3, camera: PrimaryCamera, basis: Basis)
    ensures
        placement_of(position, camera, basis, 0).position == position,
        placement_of(position, camera, basis, 0).factor == 0,
{
    let desired = desired_position_of(camera, basis);
    lemma_blend_between(position.x as int, desired.x as int, 0);
    lemma_blend_between(position.y as int, desired.y as int, 0);
    lemma_blend_between(position.z as int, desired.z as int, 0);
}

/// A frame long enough for the blend factor to reach 1 puts the camera
/// exactly at its desired position and asks for the whole turn. A camera
/// that stands at its desired position stays there, whatever time the next
/// frame takes.
pub proof fn lemma_long_frame_arrives(
    position: Vec3,
    camera: PrimaryCamera,
    basis: Basis,
    elapsed_micros: u64,
    next_elapsed_micros: u64,
)
    requires
        BLEND_RATE * elapsed_micros >= ONE,
    ensures
        placement_of(position, camera, basis, elapsed_micros).position
            == desired_position_of(camera, basis),
        placement_of(position, camera, basis, elapsed_micros).factor == ONE,
        placement_of(
            desired_position_of(camera, basis),
            camera,
            basis,
            next_elapsed_micros,
        ).position == desired_position_of(camera, basis),
{
    let desired = desired_position_of(camera, basis);
    lemma_blend_between(position.x as int, desired.x as int, ONE as int);
    lemma_blend_between(position.y as int, desired.y as int, ONE as int);
    lemma_blend_between(position.z as int, desired.z as int, ONE as int);
    let next = blend_factor_of(next_elapsed_micros);
    lemma_blend_between(desired.x as int, desired.x as int, next);
    lemma_blend_between(desired.y as int, desired.y as int, next);
    lemma_blend_between(desired.z as int, desired.z as int, next);
}

/// In first person the desired position is the target raised by the
/// vertical offset: neither the offset to the side, nor the offset along the
/// viewing direction, nor the basis has a part in it.
pub proof fn lemma_first_person_ignores_orbit(
    camera: PrimaryCamera,
    basis: Basis,
    other_x: i64,
    other_z: i64,
    other_basis: Basis,
)
    requires
        camera.mode == CameraMode::FirstPerson,
    ensures
        desired_position_of(camera, basis) == (Vec3 {
            x: camera.target.x,
            y: saturated(camera.target.y + camera.offset.y) as i64,
            z: camera.target.z,
        }),
        desired_position_of(
            PrimaryCamera {
                offset: Vec3 { x: other_x, y: camera.offset.y, z: other_z },
                ..camera
            },
            other_basis,
        ) == desired_position_of(camera, basis),
{
}

/// A frame never carries the camera past its desired position: each
/// coordinate of the new position lies between the current and the desired
/// one.
pub proof fn lemma_never_past_the_desired_position(
    position: Vec3,
    camera: PrimaryCamera,
    basis: Basis,
    elapsed_micros: u64,
)
    ensures
        ({
            let desired = desired_position_of(camera, basis);
            let placed = placement_of(position, camera, basis, elapsed_micros).position;
            &&& position.x <= placed.x <= desired.x || desired.x <= placed.x <= position.x
            &&& position.y <= placed.y <= desired.y || desired.y <= placed.y <= position.y
            &&& position.z <= placed.z <= desired.z || desired.z <= placed.z <= position.z
        }),
{
    let desired = desired_position_of(camera, basis);
    let factor = blend_factor_of(elapsed_micros);
    lemma_blend_between(position.x as int, desired.x as int, factor);
    lemma_blend_between(position.y as int, desired.y as int, factor);
    lemma_blend_between(position.z as int, desired.z as int, factor);
}

} // verus!
