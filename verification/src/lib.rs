//! Kinematic core of a single-vehicle driving simulation.
//!
//! All physical quantities are held in signed 64-bit fixed-point form with a
//! scale of one million: one unit (a metre, a radian, a second, a metre per
//! second) is `SCALE` ticks. The crate covers the angle primitives, the
//! throttle/brake/steering response curves, the bicycle-model integrator, the
//! wheel roll/steer derivation, the camera-follow state machine and the audio
//! state selection; rendering, input polling and audio playback are left to
//! the surrounding program.

pub mod camera;
pub mod car_dynamics;
pub mod session;
pub mod fixed;
pub mod input;
pub mod logistic;
pub mod sound;
pub mod trig;
pub mod utils;
