//! Keyframe motion playback for a legged robot: timed curves between poses,
//! a playback machine that walks through condition-gated phases one control
//! cycle at a time, and the stand-up behavior that drives it.

pub mod behavior;
pub mod condition;
pub mod motion_file;
pub mod motion_interpolator;
pub mod playback;
pub mod stand_up_front;
pub mod timed_spline;
pub mod types;
