//! A text-mode heads-up display: flight telemetry projected onto a fixed
//! character grid with integer arithmetic only.
use vstd::prelude::*;

pub mod arith;
pub mod grid;
pub mod text;
pub mod symbol;
pub mod telemetry;
pub mod drawable;
pub mod line;
pub mod pitch_ladder;
pub mod heading_tape;
pub mod projector;
pub mod speed_vector;
pub mod steerpoint_vector;
pub mod altitude;
pub mod aoa;
pub mod battery;
pub mod g_force;
pub mod height;
pub mod rssi;
pub mod speed;
pub mod vario;
pub mod steerpoint;
pub mod note;
pub mod hud;
pub mod laws;

verus! {

/// Pixel aspect ratio of one character cell, as width : height.
#[derive(Copy, Clone, PartialEq, Eq, Structural, Debug)]
pub struct PixelRatio(pub u8, pub u8);

/// Screen aspect ratio, as width : height.
#[derive(Copy, Clone, PartialEq, Eq, Structural, Debug)]
pub struct AspectRatio(pub u8, pub u8);

impl From<(u8, u8)> for PixelRatio {
    fn from(tuple: (u8, u8)) -> (r: Self)
        ensures
            r == PixelRatio(tuple.0, tuple.1),
    {
        PixelRatio(tuple.0, tuple.1)
    }
}

impl vstd::std_specs::convert::FromSpecImpl<(u8, u8)> for PixelRatio {
    open spec fn obeys_from_spec() -> bool {
        true
    }

    open spec fn from_spec(tuple: (u8, u8)) -> Self {
        PixelRatio(tuple.0, tuple.1)
    }
}

impl From<(u8, u8)> for AspectRatio {
    fn from(tuple: (u8, u8)) -> (r: Self)
        ensures
            r == AspectRatio(tuple.0, tuple.1),
    {
        AspectRatio(tuple.0, tuple.1)
    }
}

impl vstd::std_specs::convert::FromSpecImpl<(u8, u8)> for AspectRatio {
    open spec fn obeys_from_spec() -> bool {
        true
    }

    open spec fn from_spec(tuple: (u8, u8)) -> Self {
        AspectRatio(tuple.0, tuple.1)
    }
}

/// Largest diagonal field of view, in degrees, that the ratio conversions accept.
pub const MAX_DIAGONAL: usize = 1_000_000;

/// Horizontal span of a diagonal field of view: 16:9 and 4:3 use their own
/// proportions, any other ratio the square one.
pub open spec fn fov_width(aspect: AspectRatio, diagonal: nat) -> nat {
    if aspect == AspectRatio(16, 9) {
        diagonal * 1600 / 1835
    } else if aspect == AspectRatio(4, 3) {
        diagonal * 4 / 5
    } else {
        diagonal * 1000 / 1414
    }
}

/// Vertical span of a diagonal field of view.
pub open spec fn fov_height(aspect: AspectRatio, diagonal: nat) -> nat {
    if aspect == AspectRatio(16, 9) {
        diagonal * 900 / 1835
    } else if aspect == AspectRatio(4, 3) {
        diagonal * 3 / 5
    } else {
        diagonal * 1000 / 1414
    }
}

impl AspectRatio {
    pub fn diagonal_to_width(&self, diagonal: usize) -> (r: usize)
        requires
            diagonal <= MAX_DIAGONAL,
        ensures
            r == fov_width(*self, diagonal as nat),
    {
        if *self == AspectRatio(16, 9) {
            diagonal * 1600 / 1835
        } else if *self == AspectRatio(4, 3) {
            diagonal * 4 / 5
        } else {
            diagonal * 1000 / 1414
        }
    }

    pub fn diagonal_to_height(&self, diagonal: usize) -> (r: usize)
        requires
            diagonal <= MAX_DIAGONAL,
        ensures
            r == fov_height(*self, diagonal as nat),
    {
        if *self == AspectRatio(16, 9) {
            diagonal * 900 / 1835
        } else if *self == AspectRatio(4, 3) {
            diagonal * 3 / 5
        } else {
            diagonal * 1000 / 1414
        }
    }
}

} // verus!
