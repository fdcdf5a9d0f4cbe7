//! The names that most users of the rig need.

pub use crate::{CameraAxisLimit, CameraFocus, CameraLimits, CameraMode, PrimaryCamera, Wrap};
