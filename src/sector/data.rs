//! The storage format for the voxels of one sector.

use vstd::prelude::*;
use crate::block::Block;
use crate::side::Side;

verus! {

/// The number of voxels along one edge of a sector.
pub const SECTOR_DIM: usize = 16;

/// The number of voxels in one sector.
pub const SECTOR_LEN: usize = SECTOR_DIM * SECTOR_DIM * SECTOR_DIM;

/// The smallest component of a coordinate inside a sector.
pub const SECTOR_MIN: usize = 0;

/// The largest component of a coordinate inside a sector.
pub const SECTOR_MAX: usize = SECTOR_DIM - 1;

/// A position relative to the back lower left corner of a sector; each
/// triplet names one voxel.
#[derive(Clone, Copy, Debug, PartialEq, Eq, Structural)]
pub struct SectorCoords(pub usize, pub usize, pub usize);

/// The three components lie inside the sector.
pub open spec fn in_sector(c: SectorCoords) -> bool {
    c.0 < SECTOR_DIM && c.1 < SECTOR_DIM && c.2 < SECTOR_DIM
}

/// The position of a voxel in the linear storage order: x varies fastest,
/// then y, then z.
pub open spec fn index_of(c: SectorCoords) -> int {
    c.0 + c.1 * SECTOR_DIM + c.2 * (SECTOR_DIM * SECTOR_DIM)
}

/// The voxel stored at a linear position; the inverse of `index_of`.
pub open spec fn coords_at(i: int) -> SectorCoords {
    SectorCoords(
        (i % 256 % 16) as usize,
        (i % 256 / 16) as usize,
        (i / 256) as usize,
    )
}

/// The coordinates one step from `c` towards `side`, or `None` where the
/// step leaves the sector along that axis.
pub open spec fn neighbor_of(c: SectorCoords, side: Side) -> Option<SectorCoords> {
    match side {
        Side::Front => if c.2 < SECTOR_MAX { Some(SectorCoords(c.0, c.1, (c.2 + 1) as usize)) } else { None },
        Side::Back => if c.2 > SECTOR_MIN { Some(SectorCoords(c.0, c.1, (c.2 - 1) as usize)) } else { None },
        Side::RightSide => if c.0 < SECTOR_MAX { Some(SectorCoords((c.0 + 1) as usize, c.1, c.2)) } else { None },
        Side::LeftSide => if c.0 > SECTOR_MIN { Some(SectorCoords((c.0 - 1) as usize, c.1, c.2)) } else { None },
        Side::Top => if c.1 < SECTOR_MAX { Some(SectorCoords(c.0, (c.1 + 1) as usize, c.2)) } else { None },
        Side::Bottom => if c.1 > SECTOR_MIN { Some(SectorCoords(c.0, (c.1 - 1) as usize, c.2)) } else { None },
    }
}

/// The voxel of the half-stone fixture at `c`: stone below half height,
/// air above.
pub open spec fn half_stone(c: SectorCoords) -> Block {
    if c.1 < SECTOR_DIM / 2 {
        Block::Stone
    } else {
        Block::Air
    }
}

/// Going from a linear position to coordinates and back gives the position.
pub proof fn lemma_index_coords(i: int)
    requires
        0 <= i < SECTOR_LEN,
    ensures
        in_sector(coords_at(i)),
        index_of(coords_at(i)) == i,
{
}

/// Going from coordinates inside the sector to a linear position and back
/// gives the coordinates; the position lies in the storage.
pub proof fn lemma_coords_index(c: SectorCoords)
    requires
        in_sector(c),
    ensures
        0 <= index_of(c) < SECTOR_LEN,
        coords_at(index_of(c)) == c,
{
}

impl SectorCoords {
    /// Returns the coordinates of the neighbouring voxel towards `neighbor`,
    /// or `None` when `self` lies on the sector boundary on that side.
    pub fn neighbor(self, neighbor: Side) -> (r: Option<SectorCoords>)
        ensures
            r == neighbor_of(self, neighbor),
    {
        let SectorCoords(x, y, z) = self;
        match neighbor {
            Side::Front => if z < SECTOR_MAX { Some(SectorCoords(x, y, z + 1)) } else { None },
            Side::Back => if z > SECTOR_MIN { Some(SectorCoords(x, y, z - 1)) } else { None },
            Side::RightSide => if x < SECTOR_MAX { Some(SectorCoords(x + 1, y, z)) } else { None },
            Side::LeftSide => if x > SECTOR_MIN { Some(SectorCoords(x - 1, y, z)) } else { None },
            Side::Top => if y < SECTOR_MAX { Some(SectorCoords(x, y + 1, z)) } else { None },
            Side::Bottom => if y > SECTOR_MIN { Some(SectorCoords(x, y - 1, z)) } else { None },
        }
    }
}

/// The voxels of one sector.
pub struct SectorData {
    blocks: [Block; SECTOR_LEN],
}

impl View for SectorData {
    type V = Seq<Block>;

    closed spec fn view(&self) -> Seq<Block> {
        self.blocks@
    }
}

/// A sector holds exactly one block per voxel.
pub broadcast proof fn lemma_sector_len(d: &SectorData)
    ensures
        #[trigger] d@.len() == SECTOR_LEN,
{
}

impl SectorData {
    /// Creates a sector filled with air.
    pub fn new() -> (r: SectorData)
        ensures
            r@.len() == SECTOR_LEN,
            forall|i: int| 0 <= i < SECTOR_LEN ==> r@[i] == Block::Air,
    {
        SectorData { blocks: [Block::Air; 4096] }
    }

    /// Creates a sector whose lower half is stone and whose upper half is
    /// air.
    pub fn test() -> (r: SectorData)
        ensures
            forall|i: int| 0 <= i < SECTOR_LEN ==> r@[i] == half_stone(coords_at(i)),
    {
        let mut data = SectorData::new();
        let mut entries = data.iter_mut();
        loop
            invariant
                entries.current <= SECTOR_LEN,
                entries.data@.len() == SECTOR_LEN,
                forall|j: int| 0 <= j < entries.current ==> entries.data@[j] == half_stone(coords_at(j)),
                after_borrow(data)@ == (*final(entries.data))@,
            ensures
                forall|j: int| 0 <= j < SECTOR_LEN ==> entries.data@[j] == half_stone(coords_at(j)),
                after_borrow(data)@ == (*final(entries.data))@,
            decreases SECTOR_LEN - entries.current,
        {
            match entries.next() {
                Some((coords, blk)) => {
                    let SectorCoords(_x, y, _z) = coords;
                    if y < SECTOR_DIM / 2 {
                        *blk = Block::Stone;
                    } else {
                        *blk = Block::Air;
                    }
                },
                None => break,
            }
        }
        data
    }

    /// Returns a reference to the block at the given position.
    pub fn block(&self, sector_coords: SectorCoords) -> (r: &Block)
        requires
            in_sector(sector_coords),
        ensures
            *r == self@[index_of(sector_coords)],
    {
        let idx = Self::index(sector_coords);
        &self.blocks[idx]
    }

    /// Returns a mutable reference to the block at the given position.
    pub fn block_mut(&mut self, sector_coords: SectorCoords) -> (r: &mut Block)
        requires
            in_sector(sector_coords),
        ensures
            *r == old(self)@[index_of(sector_coords)],
            final(self)@ == old(self)@.update(index_of(sector_coords), *final(r)),
    {
        let idx = Self::index(sector_coords);
        &mut self.blocks[idx]
    }

    /// Iterates over the voxels in storage order.
    pub fn iter(&self) -> (r: SectorIter<'_>)
        ensures
            r.data() == self,
            r.position() == 0,
    {
        SectorIter { data: self, current: 0 }
    }

    /// Iterates over the voxels in storage order, with write access.
    pub fn iter_mut(&mut self) -> (r: SectorIterMut<'_>)
        ensures
            r.position() == 0,
            r.blocks() == old(self)@,
            final(self)@ == (*final(r.data))@,
    {
        SectorIterMut { data: self, current: 0 }
    }

    /// The linear storage position of a voxel.
    pub fn index(sector_coords: SectorCoords) -> (r: usize)
        requires
            in_sector(sector_coords),
        ensures
            r == index_of(sector_coords),
            r < SECTOR_LEN,
    {
        let SectorCoords(x, y, z) = sector_coords;
        x + y * SECTOR_DIM + z * SECTOR_DIM * SECTOR_DIM
    }

    /// The voxel at a linear storage position.
    pub fn coords(idx: usize) -> (r: SectorCoords)
        ensures
            r == coords_at(idx as int),
    {
        let mut remaining = idx;
        let z = remaining / (SECTOR_DIM * SECTOR_DIM);
        remaining -= z * SECTOR_DIM * SECTOR_DIM;
        let y = remaining / SECTOR_DIM;
        remaining -= y * SECTOR_DIM;
        let x = remaining;
        SectorCoords(x, y, z)
    }
}

/// Iterates over the voxels of a sector in storage order, yielding the
/// coordinates and the block of each.
pub struct SectorIter<'a> {
    data: &'a SectorData,
    current: usize,
}

impl<'a> SectorIter<'a> {
    /// The sector iterated over.
    pub closed spec fn data(&self) -> &'a SectorData {
        self.data
    }

    /// The storage position of the next voxel.
    pub closed spec fn position(&self) -> int {
        self.current as int
    }

    /// Returns the next voxel, or `None` after the last.
    pub fn next(&mut self) -> (r: Option<(SectorCoords, &'a Block)>)
        ensures
            final(self).data() == old(self).data(),
            old(self).position() < SECTOR_LEN ==> {
                &&& r matches Some((c, b)) && c == coords_at(old(self).position())
                    && *b == old(self).data()@[old(self).position()]
                &&& final(self).position() == old(self).position() + 1
            },
            old(self).position() >= SECTOR_LEN ==> r is None && final(self).position() == old(self).position(),
    {
        if self.current < SECTOR_LEN {
            let coords = SectorData::coords(self.current);
            let item = &self.data.blocks[self.current];
            self.current += 1;
            Some((coords, item))
        } else {
            None
        }
    }
}

/// Iterates over the voxels of a sector in storage order, yielding the
/// coordinates of each and write access to its block.
pub struct SectorIterMut<'a> {
    /// The sector iterated over.
    pub data: &'a mut SectorData,
    /// The storage position of the next voxel.
    pub current: usize,
}

impl<'a> SectorIterMut<'a> {
    /// The blocks of the sector as they stand now.
    pub closed spec fn blocks(&self) -> Seq<Block> {
        self.data@
    }

    /// The storage position of the next voxel.
    pub closed spec fn position(&self) -> int {
        self.current as int
    }

    /// Returns the next voxel, or `None` after the last; what is written
    /// through the returned reference lands in the sector.
    pub fn next(&mut self) -> (r: Option<(SectorCoords, &mut Block)>)
        ensures
            *final(final(self).data) == *final(old(self).data),
            old(self).position() < SECTOR_LEN ==> {
                &&& r matches Some((c, b)) && c == coords_at(old(self).position())
                    && *b == old(self).blocks()[old(self).position()]
                    && final(self).blocks() == old(self).blocks().update(old(self).position(), *final(b))
                &&& final(self).position() == old(self).position() + 1
            },
            old(self).position() >= SECTOR_LEN ==> r is None && final(self).blocks() == old(self).blocks()
                && final(self).position() == old(self).position(),
    {
        if self.current < SECTOR_LEN {
            let coords = SectorData::coords(self.current);
            let i = self.current;
            self.current += 1;
            Some((coords, &mut self.data.blocks[i]))
        } else {
            None
        }
    }
}

/// The number of bytes of a neighbour field: one bit for each voxel of
/// the six faces of a sector.
pub const NEIGHBOR_FIELD_LEN: usize = SECTOR_DIM * SECTOR_DIM * 6 / 8;

/// For each voxel on the faces shared with the neighbouring sectors,
/// whether the block beyond it is opaque, one bit each.
pub struct NeighborData {
    opaque_blocks: [u8; NEIGHBOR_FIELD_LEN],
}

impl View for NeighborData {
    type V = Seq<u8>;

    closed spec fn view(&self) -> Seq<u8> {
        self.opaque_blocks@
    }
}

impl NeighborData {
    /// Creates neighbour data in which no block is opaque.
    pub fn test() -> (r: NeighborData)
        ensures
            r@.len() == NEIGHBOR_FIELD_LEN,
            forall|i: int| 0 <= i < NEIGHBOR_FIELD_LEN ==> r@[i] == 0,
    {
        NeighborData { opaque_blocks: [0u8; 192] }
    }
}

} // verus!
