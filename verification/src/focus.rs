//! The shared snapshot of where the camera is and where it looks.

use vstd::prelude::*;

use crate::jitter::{polar_offset, polar_offset_of, PolarOffset};
use crate::vector::Vec3;

verus! {

/// The camera's transform as far as the focus reads it: its position and the
/// unit directions that the host derives from its orientation.
#[derive(Clone, Copy, Debug, PartialEq, Eq)]
pub struct CameraTransform {
    pub position: Vec3,
    pub forward: Vec3,
    pub right: Vec3,
}

/// What a `CameraFocus` holds.
#[derive(Clone, Copy, Debug, PartialEq, Eq)]
pub struct FocusSnapshot {
    pub origin: Vec3,
    pub forward: Vec3,
    pub right: Vec3,
}

/// A direction to jitter and the polar offset to jitter it by. The host turns
/// the direction by the offset's two Cartesian coordinates, read as degrees.
#[derive(Clone, Copy, Debug, PartialEq, Eq)]
pub struct ForwardJitter {
    pub forward: Vec3,
    pub offset: PolarOffset,
}

/// The snapshot of the most recently placed camera: all zero until the first
/// frame with a camera.
#[derive(Clone, Copy, Debug, PartialEq, Eq)]
pub struct CameraFocus {
    origin: Vec3,
    forward: Vec3,
    right: Vec3,
}

impl View for CameraFocus {
    type V = FocusSnapshot;

    closed spec fn view(&self) -> FocusSnapshot {
        FocusSnapshot { origin: self.origin, forward: self.forward, right: self.right }
    }
}

/// The snapshot after a frame: that of the camera's transform where there is
/// a camera, the one before where there is none.
pub open spec fn updated(before: FocusSnapshot, camera: Option<CameraTransform>) -> FocusSnapshot {
    match camera {
        Some(transform) => FocusSnapshot {
            origin: transform.position,
            forward: transform.forward,
            right: transform.right,
        },
        None => before,
    }
}

impl CameraFocus {
    pub fn origin(&self) -> (v: Vec3)
        ensures
            v == self@.origin,
    {
        self.origin
    }

    pub fn forward(&self) -> (v: Vec3)
        ensures
            v == self@.forward,
    {
        self.forward
    }

    pub fn right(&self) -> (v: Vec3)
        ensures
            v == self@.right,
    {
        self.right
    }

    /// The right direction with its vertical component set to 0.
    pub fn forward_flat(&self) -> (v: Vec3)
        ensures
            v == self@.right.flattened(),
    {
        self.right.flat()
    }

    /// The right direction with its vertical component set to 0.
    pub fn right_flat(&self) -> (v: Vec3)
        ensures
            v == self@.right.flattened(),
    {
        self.right.flat()
    }

    /// The jitter of the forward direction that two given draws of random
    /// bits make in a cone of the given range.
    pub fn forward_jittered(&self, range: u64, radial_bits: u32, angular_bits: u32) -> (jitter:
        ForwardJitter)
        ensures
            jitter == (ForwardJitter {
                forward: self@.forward,
                offset: polar_offset_of(range, radial_bits, angular_bits),
            }),
    {
        ForwardJitter { forward: self.forward, offset: polar_offset(range, radial_bits, angular_bits) }
    }

    /// A random jitter of the forward direction in a cone of the given
    /// range, each call with two fresh draws: the first for the radius, the
    /// second for the angle.
    pub fn forward_randomized(&self, range: u64) -> (jitter: ForwardJitter)
        ensures
            jitter.forward == self@.forward,
            exists|radial_bits: u32, angular_bits: u32|
                jitter.offset == polar_offset_of(range, radial_bits, angular_bits),
    {
        let radial_bits = random_bits();
        let angular_bits = random_bits();
        self.forward_jittered(range, radial_bits, angular_bits)
    }
}

impl Default for CameraFocus {
    fn default() -> (focus: CameraFocus)
        ensures
            focus@ == (FocusSnapshot {
                origin: Vec3::zero(),
                forward: Vec3::zero(),
                right: Vec3::zero(),
            }),
    {
        CameraFocus { origin: Vec3::new(0, 0, 0), forward: Vec3::new(0, 0, 0), right: Vec3::new(0, 0, 0) }
    }
}

/// Takes the snapshot of the camera's transform, as it is after placement.
/// In a frame without a camera the snapshot stays as it was.
pub fn update_camera_focus(camera_focus: &mut CameraFocus, camera: Option<CameraTransform>)
    ensures
        final(camera_focus)@ == updated(old(camera_focus)@, camera),
{
    if let Some(transform) = camera {
        camera_focus.origin = transform.position;
        camera_focus.forward = transform.forward;
        camera_focus.right = transform.right;
    }
}

/// Draws 32 random bits with `rand::random::<u32>()`, from the generator of
/// the calling thread. Nothing is claimed of the bits: two calls may differ.
/// The generator panics where the system cannot seed it.
#[verifier::external_body]
fn random_bits() -> u32 {
    rand::random::<u32>()
}

/// After a frame with a camera the snapshot is the camera's transform:
/// its position, its forward direction and its right direction.
pub proof fn lemma_snapshot_follows_camera(before: FocusSnapshot, transform: CameraTransform)
    ensures
        updated(before, Some(transform)).origin == transform.position,
        updated(before, Some(transform)).forward == transform.forward,
        updated(before, Some(transform)).right == transform.right,
{
}

} // verus!
