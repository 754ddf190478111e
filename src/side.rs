//! The six faces of a cube.

use vstd::prelude::*;

verus! {

/// One of the six faces of a cube, named by the direction it faces.
#[derive(Clone, Copy, Debug, PartialEq, Eq, Structural)]
pub enum Side {
    Front,
    Back,
    RightSide,
    LeftSide,
    Top,
    Bottom,
}

} // verus!
