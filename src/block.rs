//! The kinds of voxels and their per-face attributes.

use vstd::prelude::*;
use crate::side::Side;

verus! {

/// Index of a tile in the texture atlas, counted from zero at the upper
/// left corner, left to right, wrapping onto the next row.
pub type BlockTextureID = u32;

/// All kinds of voxels.
#[derive(Clone, Copy, Debug, PartialEq, Eq, Structural)]
pub enum Block {
    Air,
    TestBlock,
    Stone,
    Soil,
    Grass,
}

/// The atlas tile of a side of a visible block.
pub open spec fn texture_of(blk: Block, side: Side) -> BlockTextureID
    recommends
        blk != Block::Air,
{
    match blk {
        Block::TestBlock => 16,
        Block::Stone => 0,
        Block::Soil => 1,
        Block::Grass => match side {
            Side::Top => 2,
            Side::Bottom => 1,
            _ => 3,
        },
        Block::Air => 0,
    }
}

/// Whether light (and sight) passes through a block.
pub open spec fn transparent(blk: Block) -> bool {
    blk == Block::Air
}

impl Block {
    /// Returns the texture ID for the given side of this block.
    ///
    /// Air is never drawn, so it has no texture.
    pub fn texture_id(self, side: Side) -> (r: BlockTextureID)
        requires
            self != Block::Air,
        ensures
            r == texture_of(self, side),
    {
        match self {
            Block::TestBlock => 16,
            Block::Stone => 0,
            Block::Soil => 1,
            Block::Grass => match side {
                Side::Top => 2,
                Side::Bottom => 1,
                _ => 3,
            },
            Block::Air => 0,
        }
    }

    /// Returns `true` if the block is transparent.
    pub fn is_transparent(self) -> (r: bool)
        ensures
            r == transparent(self),
    {
        match self {
            Block::Air => true,
            _ => false,
        }
    }
}

impl Default for Block {
    fn default() -> (r: Block)
        ensures
            r == Block::Air,
    {
        Block::Air
    }
}

} // verus!
