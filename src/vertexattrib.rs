//! The vertex format of sector meshes.

use vstd::prelude::*;

verus! {

/// The attributes a vertex carries to the shaders.
#[derive(Clone, Copy, Debug, PartialEq, Eq, Structural)]
pub enum Semantic {
    /// The position of the vertex, in sector space.
    Pos,
    /// The texture coordinate of the vertex.
    Color,
}

/// One vertex of a sector mesh.
///
/// `pos` is the vertex position in sector space, in whole voxel units.
/// `uv` holds the numerators of the texture coordinate; the denominators
/// are the `uv_denominators` of the `PreGeometry` that holds the vertex.
#[derive(Clone, Copy, Debug, PartialEq, Eq)]
pub struct VoxelVertex {
    pub pos: (u32, u32, u32),
    pub uv: (u32, u32),
}

} // verus!
