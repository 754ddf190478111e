//! Voxel sector storage, visible-face mesh generation and the
//! bookkeeping around background sector generation.

use vstd::prelude::*;

pub mod block;
pub mod side;
pub mod sector;
pub mod vertexattrib;
pub mod util;
pub mod maths;
pub mod timing;

verus! {

} // verus!
