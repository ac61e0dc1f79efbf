//! Camera orientation as yaw and pitch.
//!
//! Both angles are whole micro-radians. Yaw turns about the world's up axis
//! and is never wrapped: the direction is periodic in it. Pitch tilts about
//! the camera's right axis and is kept short of straight up or down, where
//! the view direction would line up with the world's up axis.
use vstd::prelude::*;

verus! {

/// A quarter turn (pi / 2 radians), rounded to micro-radians.
pub const QUARTER_TURN: i64 = 1_570_796;

/// The largest pitch that mouse input may reach: a tenth of a milliradian
/// short of a quarter turn.
pub const SAFE_PITCH: i64 = 1_570_696;

/// `v` limited to what an `i64` can hold.
pub open spec fn saturate(v: int) -> int {
    if v > i64::MAX {
        i64::MAX as int
    } else if v < i64::MIN {
        i64::MIN as int
    } else {
        v
    }
}

/// `p` limited to the pitch range `[-SAFE_PITCH, SAFE_PITCH]`.
pub open spec fn clamped_pitch(p: int) -> int {
    if p > SAFE_PITCH {
        SAFE_PITCH as int
    } else if p < -SAFE_PITCH {
        -SAFE_PITCH as int
    } else {
        p
    }
}

/// The direction a camera looks in, in micro-radians.
#[derive(Clone, Copy, Debug, PartialEq, Eq, Structural)]
pub struct Orientation {
    pub yaw: i64,
    pub pitch: i64,
}

impl Orientation {
    /// Whether the pitch lies within the range that mouse input keeps it in.
    pub open spec fn pitch_in_range(&self) -> bool {
        -SAFE_PITCH <= self.pitch <= SAFE_PITCH
    }

    /// Level, facing a quarter turn round from the x axis (towards +z).
    pub fn new() -> (r: Orientation)
        ensures
            r.yaw == QUARTER_TURN,
            r.pitch == 0,
            r.pitch_in_range(),
    {
        Orientation { yaw: QUARTER_TURN, pitch: 0 }
    }
}

/// Limits a wide pitch value to `[-SAFE_PITCH, SAFE_PITCH]`.
pub fn clamp_pitch(p: i128) -> (r: i64)
    ensures
        r == clamped_pitch(p as int),
        -SAFE_PITCH <= r <= SAFE_PITCH,
{
    if p > SAFE_PITCH as i128 {
        SAFE_PITCH
    } else if p < -(SAFE_PITCH as i128) {
        -SAFE_PITCH
    } else {
        p as i64
    }
}

/// Limits a wide value to the `i64` range.
pub fn saturate_i64(v: i128) -> (r: i64)
    ensures
        r == saturate(v as int),
{
    if v > i64::MAX as i128 {
        i64::MAX
    } else if v < i64::MIN as i128 {
        i64::MIN
    } else {
        v as i64
    }
}

} // verus!
