//! Camera rig for a single orbiting viewpoint, in fixed-point arithmetic.
//!
//! The rig keeps the orbit parameters of one camera, decides each frame where
//! the camera moves and how it turns, and keeps a snapshot of where it looks
//! for the rest of the application. Every scalar is an integer that counts
//! millionths of its unit, so that each decision has an exact statement; the
//! host carries out the rotations that the rig asks for.

pub mod camera;
pub mod fixed;
pub mod focus;
pub mod jitter;
pub mod limits;
pub mod placement;
pub mod prelude;
pub mod vector;

pub use crate::camera::{Axis, CameraMode, PrimaryCamera, Rotation};
pub use crate::focus::{
    update_camera_focus, CameraFocus, CameraTransform, FocusSnapshot, ForwardJitter,
};
pub use crate::jitter::PolarOffset;
pub use crate::limits::{CameraAxisLimit, CameraLimits, Wrap};
pub use crate::placement::{position_and_rotate_camera, Basis, Placement};
pub use crate::vector::Vec3;
