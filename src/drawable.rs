//! Layout vocabulary shared by the widgets and the compositor.
use vstd::prelude::*;

verus! {

pub enum Layer {
    Top,
    Bottom,
}

/// A layout slot: each names how rows are handed out, not a coordinate.
#[derive(Copy, Clone, PartialEq, Eq, Structural, Debug)]
pub enum Align {
    Top,
    TopLeft,
    TopRight,
    Left,
    Center,
    Right,
    BottomLeft,
    Bottom,
    BottomRight,
}

/// Rows a widget used in its slot.
pub type NumOfLine = usize;

} // verus!
