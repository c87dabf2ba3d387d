//! Audio state selection: which engine sound the current control and speed
//! call for. Playback itself is the audio layer's business.

use crate::car_dynamics::EgoControl;
use vstd::prelude::*;

verus! {

/// Speed above which braking is audible, in metres per second.
pub const BRAKE_SOUND_SPEED: i64 = 5_000_000;

/// Pedal fraction past which a pedal drives the sound state.
pub const SOUND_PEDAL_THRESHOLD: i64 = 500_000;

/// The three audio states of the engine.
#[derive(Clone, Copy, Debug, PartialEq, Eq, Structural)]
pub enum SoundState {
    Normal,
    Throttle,
    Brake,
}

/// Sound called for by the control and speed: throttle past half pedal
/// first, else audible braking past half pedal at speed, else normal.
pub open spec fn spec_sound_state(throttle: int, brake: int, v: int) -> SoundState {
    if throttle > SOUND_PEDAL_THRESHOLD {
        SoundState::Throttle
    } else if brake > SOUND_PEDAL_THRESHOLD && v > BRAKE_SOUND_SPEED {
        SoundState::Brake
    } else {
        SoundState::Normal
    }
}

/// Selects the next audio state from the control snapshot and speed.
pub fn change_sound_state(control: &EgoControl, v: i64) -> (r: SoundState)
    ensures
        r == spec_sound_state(control.throttle as int, control.brake as int, v as int),
{
    if control.throttle > SOUND_PEDAL_THRESHOLD {
        SoundState::Throttle
    } else if control.brake > SOUND_PEDAL_THRESHOLD && v > BRAKE_SOUND_SPEED {
        SoundState::Brake
    } else {
        SoundState::Normal
    }
}

} // verus!
