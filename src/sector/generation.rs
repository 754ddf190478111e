//! What the background generation workers compute: which sectors each
//! worker produces, in what order, and the data and mesh of each.
//!
//! The workers themselves, their threads and the channel they send on
//! are run by the application; this module decides what they do.

use vstd::prelude::*;
use crate::block::Block;
use super::SectorIndex;
use super::data::{SectorCoords, SectorData, SECTOR_LEN, SECTOR_MAX, coords_at, lemma_sector_len};
use super::meshgen::{AtlasInfo, PreGeometry, gen_terrain, mesh_vertices, mesh_indices, sector_faces, uv_denominators_of};

verus! {

/// The number of background workers that generate sectors.
pub const N_WORKERS: usize = 1;

/// The smallest x of the generated region, in sectors.
pub const REGION_X_MIN: i32 = -10;

/// The number of sectors along x in the generated region.
pub const REGION_X_LEN: usize = 21;

/// The only y of the generated region.
pub const REGION_Y: i32 = -1;

/// The smallest z of the generated region.
pub const REGION_Z_MIN: i32 = -10;

/// The number of sectors along z in the generated region.
pub const REGION_Z_LEN: usize = 21;

/// The number of sectors in the generated region.
pub const REGION_LEN: usize = REGION_X_LEN * REGION_Z_LEN;

/// The `k`th sector of the region in scan order: x outermost, then z.
pub open spec fn region_coord(k: int) -> SectorIndex {
    SectorIndex(
        (REGION_X_MIN + k / (REGION_Z_LEN as int)) as i32,
        REGION_Y,
        (REGION_Z_MIN + k % (REGION_Z_LEN as int)) as i32,
    )
}

/// The sector lies in the generated region.
pub open spec fn in_region(c: SectorIndex) -> bool {
    &&& REGION_X_MIN <= c.0 < REGION_X_MIN + REGION_X_LEN
    &&& c.1 == REGION_Y
    &&& REGION_Z_MIN <= c.2 < REGION_Z_MIN + REGION_Z_LEN
}

/// The scan position of a sector of the region.
pub open spec fn region_pos(c: SectorIndex) -> int {
    (c.0 - REGION_X_MIN) * REGION_Z_LEN + (c.2 - REGION_Z_MIN)
}

/// The number of sectors that worker `w` of `n` produces.
pub open spec fn worker_count(n: int, w: int) -> int {
    if w < REGION_LEN {
        (REGION_LEN - 1 - w) / n + 1
    } else {
        0
    }
}

/// The sectors that worker `w` of `n` produces, in order: every `n`th
/// sector of the region in scan order, from the `w`th on.
pub open spec fn worker_coords(n: int, w: int) -> Seq<SectorIndex> {
    Seq::new(worker_count(n, w) as nat, |j: int| region_coord(w + j * n))
}

/// The scan position and the sector correspond one to one.
pub proof fn lemma_region_pos(k: int, c: SectorIndex)
    ensures
        0 <= k < REGION_LEN ==> in_region(region_coord(k)) && region_pos(region_coord(k)) == k,
        in_region(c) ==> 0 <= region_pos(c) < REGION_LEN && region_coord(region_pos(c)) == c,
{
}

/// Every sector of the region is produced by exactly one of `n` workers,
/// and exactly once by it; no worker produces a sector outside the
/// region. So the workers together send one message per sector of the
/// region, with no duplicate and no sector left out.
pub proof fn lemma_generation_partition(n: int, c: SectorIndex)
    requires
        n >= 1,
    ensures
        in_region(c) ==> {
            let w = region_pos(c) % n;
            let j = region_pos(c) / n;
            &&& 0 <= w < n
            &&& 0 <= j < worker_count(n, w)
            &&& worker_coords(n, w)[j] == c
        },
        forall|w: int, j: int|
            0 <= w < n && 0 <= j < worker_count(n, w) && #[trigger] worker_coords(n, w)[j] == c ==> {
                &&& in_region(c)
                &&& w == region_pos(c) % n
                &&& j == region_pos(c) / n
            },
{
    if in_region(c) {
        let k = region_pos(c);
        lemma_region_pos(k, c);
        let w = k % n;
        let j = k / n;
        assert(k == j * n + w) by (nonlinear_arith)
            requires n >= 1, w == k % n, j == k / n;
        assert(0 <= w < n);
        assert(j <= (REGION_LEN - 1 - w) / n) by (nonlinear_arith)
            requires n >= 1, 0 <= w, k == j * n + w, k <= REGION_LEN - 1, j >= 0;
        assert(worker_coords(n, w)[j] == region_coord(w + j * n));
    }
    assert forall|w: int, j: int|
        0 <= w < n && 0 <= j < worker_count(n, w) && #[trigger] worker_coords(n, w)[j] == c implies {
            &&& in_region(c)
            &&& w == region_pos(c) % n
            &&& j == region_pos(c) / n
        } by {
        let k = w + j * n;
        assert(w < REGION_LEN);
        assert(j <= (REGION_LEN - 1 - w) / n);
        assert(k <= REGION_LEN - 1) by (nonlinear_arith)
            requires n >= 1, 0 <= w, 0 <= j, j <= (REGION_LEN - 1 - w) / n, k == w + j * n;
        assert(k >= 0) by (nonlinear_arith)
            requires n >= 1, 0 <= w, 0 <= j, k == w + j * n;
        lemma_region_pos(k, c);
        assert(region_coord(k) == c);
        assert(region_pos(c) == k);
        assert(k % n == w && k / n == j) by (nonlinear_arith)
            requires n >= 1, 0 <= w < n, 0 <= j, k == w + j * n;
    }
}

/// The `k`th sector of the region in scan order.
fn region_sector(k: usize) -> (r: SectorIndex)
    requires
        k < REGION_LEN,
    ensures
        r == region_coord(k as int),
{
    SectorIndex(
        REGION_X_MIN + (k / REGION_Z_LEN) as i32,
        REGION_Y,
        REGION_Z_MIN + (k % REGION_Z_LEN) as i32,
    )
}

/// The share of the region that one of several workers produces, and how
/// much of it has been handed out.
pub struct WorkerPlan {
    worker: usize,
    n_workers: usize,
    produced: usize,
}

impl WorkerPlan {
    /// The number of this worker, counted from zero.
    pub closed spec fn worker(&self) -> int {
        self.worker as int
    }

    /// The number of workers sharing the region.
    pub closed spec fn n_workers(&self) -> int {
        self.n_workers as int
    }

    /// How many sectors have been handed out so far.
    pub closed spec fn produced(&self) -> int {
        self.produced as int
    }

    /// The plan is for one of at least one worker, and has handed out no
    /// more than the worker's share.
    pub closed spec fn wf(&self) -> bool {
        &&& 1 <= self.n_workers
        &&& self.worker < self.n_workers
        &&& self.produced <= worker_count(self.n_workers as int, self.worker as int)
    }

    /// The plan of worker `worker` of `n_workers`, before anything is
    /// handed out.
    pub fn new(worker: usize, n_workers: usize) -> (r: WorkerPlan)
        requires
            1 <= n_workers,
            worker < n_workers,
        ensures
            r.wf(),
            r.worker() == worker,
            r.n_workers() == n_workers,
            r.produced() == 0,
    {
        WorkerPlan { worker, n_workers, produced: 0 }
    }

    /// Hands out the next sector of this worker's share, in scan order, or
    /// `None` once the share is exhausted.
    pub fn next_sector(&mut self) -> (r: Option<SectorIndex>)
        requires
            old(self).wf(),
        ensures
            final(self).wf(),
            final(self).worker() == old(self).worker(),
            final(self).n_workers() == old(self).n_workers(),
            old(self).produced() < worker_count(old(self).n_workers(), old(self).worker()) ==> {
                &&& r == Some(worker_coords(old(self).n_workers(), old(self).worker())[old(self).produced()])
                &&& final(self).produced() == old(self).produced() + 1
            },
            old(self).produced() >= worker_count(old(self).n_workers(), old(self).worker()) ==> {
                &&& r is None
                &&& final(self).produced() == old(self).produced()
            },
    {
        let n = self.n_workers;
        let w = self.worker;
        let count: usize = if w < REGION_LEN { (REGION_LEN - 1 - w) / n + 1 } else { 0 };
        if self.produced < count {
            let j = self.produced;
            assert(j <= (REGION_LEN - 1 - w) / (n as int));
            assert(w + j * n <= REGION_LEN - 1) by (nonlinear_arith)
                requires n >= 1, j <= (REGION_LEN - 1 - w) / (n as int), w <= REGION_LEN - 1, j >= 0;
            assert(j * n >= 0) by (nonlinear_arith)
                requires n >= 1, j >= 0;
            let k = w + j * n;
            self.produced = j + 1;
            Some(region_sector(k))
        } else {
            None
        }
    }
}

/// The block at `c` of the flat terrain sector at world position `pos`.
///
/// Only the layer of sectors at height -1 holds terrain: soil up to two
/// below the top of the sector, then a layer of grass with a marker
/// block every fourth voxel along x and z, then air.
pub open spec fn superflat_block(pos: SectorIndex, c: SectorCoords) -> Block {
    if pos.1 != -1 {
        Block::Air
    } else if c.1 < SECTOR_MAX - 1 {
        Block::Soil
    } else if c.1 == SECTOR_MAX - 1 {
        if c.0 % 4 == 0 && c.2 % 4 == 0 {
            Block::TestBlock
        } else {
            Block::Grass
        }
    } else {
        Block::Air
    }
}

/// Generates the flat terrain of the sector at `world_pos`.
pub fn superflat_sector(world_pos: SectorIndex) -> (r: SectorData)
    ensures
        forall|i: int| 0 <= i < SECTOR_LEN ==> r@[i] == superflat_block(world_pos, coords_at(i)),
{
    broadcast use lemma_sector_len;
    let mut data = SectorData::new();
    if world_pos.1 != -1 {
        return data;
    }
    for i in 0..SECTOR_LEN
        invariant
            world_pos.1 == -1,
            data@.len() == SECTOR_LEN,
            forall|j: int| 0 <= j < i ==> data@[j] == superflat_block(world_pos, coords_at(j)),
    {
        let coords = SectorData::coords(i);
        proof {
            super::data::lemma_index_coords(i as int);
        }
        let SectorCoords(x, y, z) = coords;
        let blk = if y < SECTOR_MAX - 1 {
            Block::Soil
        } else if y == SECTOR_MAX - 1 {
            if x % 4 == 0 && z % 4 == 0 {
                Block::TestBlock
            } else {
                Block::Grass
            }
        } else {
            Block::Air
        };
        *data.block_mut(coords) = blk;
    }
    data
}

/// A generated sector, as a worker sends it: its world position, its
/// voxels, and its mesh if it has any drawn face.
pub struct Message {
    pub world_pos: SectorIndex,
    pub sector_data: SectorData,
    pub pre_geometry: Option<PreGeometry>,
}

/// Generates the voxels and the mesh of the sector at `world_pos`.
pub fn generate_sector(world_pos: SectorIndex, tex_info: &AtlasInfo) -> (r: Message)
    requires
        tex_info.wf(),
    ensures
        r.world_pos == world_pos,
        forall|i: int| 0 <= i < SECTOR_LEN ==> r.sector_data@[i] == superflat_block(world_pos, coords_at(i)),
        r.pre_geometry is None <==> sector_faces(r.sector_data@).len() == 0,
        r.pre_geometry matches Some(g) ==> {
            &&& g.vertices@ == mesh_vertices(*tex_info, r.sector_data@, sector_faces(r.sector_data@))
            &&& g.indices@ == mesh_indices(sector_faces(r.sector_data@).len())
            &&& g.uv_denominators == uv_denominators_of(*tex_info)
        },
{
    let sector_data = superflat_sector(world_pos);
    let pre_geometry = gen_terrain(tex_info, &sector_data);
    Message { world_pos, sector_data, pre_geometry }
}

} // verus!
