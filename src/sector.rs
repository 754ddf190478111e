//! Sectors: the cubic chunks the voxel world is stored, meshed and
//! streamed in.

use vstd::prelude::*;
use crate::block::Block;
use data::{SectorData, SECTOR_LEN, coords_at, half_stone};
use meshgen::{AtlasInfo, PreGeometry, gen_terrain, mesh_indices, mesh_vertices, sector_faces, uv_denominators_of};

pub mod data;
pub mod meshgen;
pub mod generation;

verus! {

/// The position of a sector in the world grid, in whole sectors.
#[derive(Clone, Copy, Debug, PartialEq, Eq, Hash, Structural)]
pub struct SectorIndex(pub i32, pub i32, pub i32);

impl SectorIndex {
    /// The world position of the sector's back lower left corner, in
    /// voxels.
    pub fn origin(self) -> (r: (i64, i64, i64))
        ensures
            r.0 == self.0 * 16 && r.1 == self.1 * 16 && r.2 == self.2 * 16,
    {
        (self.0 as i64 * 16, self.1 as i64 * 16, self.2 as i64 * 16)
    }
}

/// A sector of the world: its voxels and, once its mesh has been
/// uploaded, the handle of the render-ready geometry.
pub struct Sector<G> {
    data: SectorData,
    geometry: Option<G>,
}

impl<G> Sector<G> {
    /// The voxels of the sector.
    pub closed spec fn blocks(&self) -> Seq<Block> {
        self.data@
    }

    /// The render-ready geometry, if any has been attached.
    pub closed spec fn geometry_handle(&self) -> Option<G> {
        self.geometry
    }

    /// Creates a sector of air, without geometry.
    pub fn new() -> (r: Sector<G>)
        ensures
            forall|i: int| 0 <= i < SECTOR_LEN ==> r.blocks()[i] == Block::Air,
            r.geometry_handle() is None,
    {
        Self::with_data(SectorData::new())
    }

    /// Creates a sector holding the given voxels, without geometry.
    pub fn with_data(sector_data: SectorData) -> (r: Sector<G>)
        ensures
            r.blocks() == sector_data@,
            r.geometry_handle() is None,
    {
        Sector { data: sector_data, geometry: None }
    }

    /// Creates a sector whose lower half is stone, without geometry.
    pub fn test() -> (r: Sector<G>)
        ensures
            forall|i: int| 0 <= i < SECTOR_LEN ==> r.blocks()[i] == half_stone(coords_at(i)),
            r.geometry_handle() is None,
    {
        Self::with_data(SectorData::test())
    }

    /// Generates the mesh of the sector's voxels, to be uploaded and
    /// attached with `set_geometry`.
    pub fn gen_geometry(&self, tex_info: &AtlasInfo) -> (r: Option<PreGeometry>)
        requires
            tex_info.wf(),
        ensures
            r is None <==> sector_faces(self.blocks()).len() == 0,
            r matches Some(g) ==> {
                &&& g.vertices@ == mesh_vertices(*tex_info, self.blocks(), sector_faces(self.blocks()))
                &&& g.indices@ == mesh_indices(sector_faces(self.blocks()).len())
                &&& g.uv_denominators == uv_denominators_of(*tex_info)
            },
    {
        gen_terrain(tex_info, &self.data)
    }

    /// Attaches render-ready geometry, or none for a sector without a mesh.
    pub fn set_geometry(&mut self, geometry: Option<G>)
        ensures
            final(self).blocks() == old(self).blocks(),
            final(self).geometry_handle() == geometry,
    {
        self.geometry = geometry;
    }

    /// The voxels of the sector.
    pub fn data(&self) -> (r: &SectorData)
        ensures
            r@ == self.blocks(),
    {
        &self.data
    }

    /// The render-ready geometry, if any has been attached.
    pub fn geometry(&self) -> (r: Option<&G>)
        ensures
            r matches Some(g) ==> self.geometry_handle() == Some(*g),
            r is None <==> self.geometry_handle() is None,
    {
        match &self.geometry {
            Some(g) => Some(g),
            None => None,
        }
    }

    /// The render-ready geometry of a sector that has some.
    pub fn test_force_geometry(&self) -> (r: &G)
        requires
            self.geometry_handle() is Some,
        ensures
            self.geometry_handle() == Some(*r),
    {
        self.geometry.as_ref().unwrap()
    }
}

/// The map that a sequence of (key, value) entries describes; a later
/// entry for a key replaces an earlier one.
pub open spec fn map_of<K, V>(s: Seq<(K, V)>) -> Map<K, V>
    decreases s.len(),
{
    if s.len() == 0 {
        Map::empty()
    } else {
        map_of(s.drop_last()).insert(s.last().0, s.last().1)
    }
}

/// No two entries share a key.
pub open spec fn keys_unique<K, V>(s: Seq<(K, V)>) -> bool {
    forall|i: int, j: int| 0 <= i < s.len() && 0 <= j < s.len() && i != j ==> s[i].0 != s[j].0
}

proof fn lemma_map_of_update<K, V>(s: Seq<(K, V)>, i: int, v: V)
    requires
        keys_unique(s),
        0 <= i < s.len(),
    ensures
        map_of(s.update(i, (s[i].0, v))) == map_of(s).insert(s[i].0, v),
    decreases s.len(),
{
    let k = s[i].0;
    let u = s.update(i, (k, v));
    if i == s.len() - 1 {
        assert(u.drop_last() =~= s.drop_last());
        assert(map_of(u) =~= map_of(s).insert(k, v));
    } else {
        assert(u.drop_last() =~= s.drop_last().update(i, (k, v)));
        lemma_map_of_update(s.drop_last(), i, v);
        assert(s.last().0 != k);
        assert(map_of(u) =~= map_of(s).insert(k, v));
    }
}

proof fn lemma_map_of_lookup<K, V>(s: Seq<(K, V)>, k: K)
    requires
        keys_unique(s),
    ensures
        map_of(s).contains_key(k) <==> exists|i: int| 0 <= i < s.len() && s[i].0 == k,
        forall|i: int| 0 <= i < s.len() && s[i].0 == k ==> map_of(s)[k] == s[i].1,
    decreases s.len(),
{
    if s.len() > 0 {
        let d = s.drop_last();
        assert(keys_unique(d));
        lemma_map_of_lookup(d, k);
        if map_of(s).contains_key(k) && s.last().0 != k {
            let i = choose|i: int| 0 <= i < d.len() && d[i].0 == k;
            assert(s[i].0 == k);
        }
        if exists|i: int| 0 <= i < s.len() && s[i].0 == k {
            let i = choose|i: int| 0 <= i < s.len() && s[i].0 == k;
            if i < s.len() - 1 {
                assert(d[i].0 == k);
            }
        }
    }
}

/// The world map: the loaded sectors, each under its world position.
pub struct SectorMap<G> {
    entries: Vec<(SectorIndex, Sector<G>)>,
}

impl<G> SectorMap<G> {
    /// The entries in the order they were first inserted.
    pub closed spec fn entries(&self) -> Seq<(SectorIndex, Sector<G>)> {
        self.entries@
    }

    /// No two entries share a world position.
    pub closed spec fn wf(&self) -> bool {
        keys_unique(self.entries@)
    }

    /// The sectors by world position.
    pub open spec fn view(&self) -> Map<SectorIndex, Sector<G>> {
        map_of(self.entries())
    }

    /// Creates an empty map.
    pub fn new() -> (r: SectorMap<G>)
        ensures
            r.wf(),
            r@ == Map::<SectorIndex, Sector<G>>::empty(),
            r.entries().len() == 0,
    {
        SectorMap { entries: Vec::new() }
    }

    /// The number of sectors in the map.
    pub fn len(&self) -> (r: usize)
        ensures
            r == self.entries().len(),
    {
        self.entries.len()
    }

    /// The `i`th entry, in the order the positions were first inserted.
    pub fn entry(&self, i: usize) -> (r: (&SectorIndex, &Sector<G>))
        requires
            i < self.entries().len(),
        ensures
            (*r.0, *r.1) == self.entries()[i as int],
    {
        let e = &self.entries[i];
        (&e.0, &e.1)
    }

    /// Inserts a sector under its world position, replacing the sector
    /// that was there.
    pub fn insert(&mut self, world_pos: SectorIndex, sector: Sector<G>)
        requires
            old(self).wf(),
        ensures
            final(self).wf(),
            final(self)@ == old(self)@.insert(world_pos, sector),
    {
        let ghost s = self.entries@;
        let mut i: usize = 0;
        while i < self.entries.len() && self.entries[i].0 != world_pos
            invariant
                self.entries@ == s,
                keys_unique(s),
                i <= s.len(),
                forall|j: int| 0 <= j < i ==> s[j].0 != world_pos,
            decreases s.len() - i,
        {
            i += 1;
        }
        if i < self.entries.len() {
            proof {
                lemma_map_of_update(s, i as int, sector);
            }
            self.entries[i] = (world_pos, sector);
        } else {
            self.entries.push((world_pos, sector));
            assert(self.entries@.drop_last() =~= s);
        }
    }

    /// The sector at a world position, if the map holds one.
    pub fn get(&self, world_pos: SectorIndex) -> (r: Option<&Sector<G>>)
        requires
            self.wf(),
        ensures
            r is Some <==> self@.contains_key(world_pos),
            r matches Some(sector) ==> *sector == self@[world_pos],
    {
        let mut i: usize = 0;
        while i < self.entries.len()
            invariant
                keys_unique(self.entries@),
                i <= self.entries@.len(),
                forall|j: int| 0 <= j < i ==> self.entries@[j].0 != world_pos,
            decreases self.entries@.len() - i,
        {
            if self.entries[i].0 == world_pos {
                proof {
                    lemma_map_of_lookup(self.entries@, world_pos);
                }
                return Some(&self.entries[i].1);
            }
            i += 1;
        }
        proof {
            lemma_map_of_lookup(self.entries@, world_pos);
        }
        None
    }
}

} // verus!
