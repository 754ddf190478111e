//! Mesh generation for sectors: the visible faces of a sector's voxels,
//! as vertices and triangle indices ready to be uploaded.

use vstd::prelude::*;
use crate::block::{Block, texture_of, transparent};
use crate::side::Side;
use crate::vertexattrib::VoxelVertex;
use super::data::{
    SectorCoords, SectorData, SECTOR_LEN, SECTOR_MAX, SECTOR_MIN, coords_at, in_sector,
    index_of, neighbor_of, lemma_index_coords, lemma_coords_index, lemma_sector_len,
};

verus! {

/// Edge length of one atlas tile, in pixels.
pub const TILE_SIZE: u32 = 16;

/// Resolution of tile-local texture coordinates: one tile edge is this
/// many steps, so one step is a sixteenth of a pixel.
pub const TILE_STEPS: u32 = 256;

/// The largest atlas width or height accepted, in pixels.
pub const MAX_ATLAS_DIM: u32 = 1048576;

/// The size of the texture atlas, in pixels.
#[derive(Clone, Copy, Debug, PartialEq, Eq, Structural)]
pub struct AtlasInfo {
    pub width: u32,
    pub height: u32,
}

impl AtlasInfo {
    /// Both sides are whole, non-zero numbers of tiles and within bounds.
    pub open spec fn wf(self) -> bool {
        &&& 0 < self.width <= MAX_ATLAS_DIM
        &&& 0 < self.height <= MAX_ATLAS_DIM
        &&& self.width % TILE_SIZE == 0
        &&& self.height % TILE_SIZE == 0
    }

    /// Describes an atlas of the given size, or returns `None` when a side
    /// is not a whole, non-zero number of tiles or exceeds `MAX_ATLAS_DIM`.
    pub fn new(width: u32, height: u32) -> (r: Option<AtlasInfo>)
        ensures
            r matches Some(a) ==> a.width == width && a.height == height,
            r is Some <==> (AtlasInfo { width, height }).wf(),
    {
        if 0 < width && width <= MAX_ATLAS_DIM && 0 < height && height <= MAX_ATLAS_DIM
            && width % TILE_SIZE == 0 && height % TILE_SIZE == 0 {
            Some(AtlasInfo { width, height })
        } else {
            None
        }
    }
}

/// Vertices and triangle indices of a sector mesh, before upload.
///
/// The texture coordinate of a vertex is
/// `(uv.0 / uv_denominators.0, uv.1 / uv_denominators.1)`.
pub struct PreGeometry {
    pub vertices: Vec<VoxelVertex>,
    pub indices: Vec<u32>,
    pub uv_denominators: (u32, u32),
}

/// What is drawn of one face of a cube.
#[derive(Clone, Copy, Debug)]
struct Face {
    /// The side of the cube the face lies on.
    side: Side,
    /// The face's corners, as indices into the unit cube's corners, in
    /// counter-clockwise order seen from outside.
    positions: [usize; 4],
    /// Whether the U coordinate runs against its axis.
    flip_u: bool,
    /// Whether the V coordinate runs along its axis.
    flip_v: bool,
    /// The axis (0 for x, 1 for y, 2 for z) the U coordinate follows.
    u_idx: usize,
    /// The axis the V coordinate follows.
    v_idx: usize,
}

/// The side of the `f`th face of the cube.
pub open spec fn side_of_face(f: int) -> Side {
    if f == 0 {
        Side::Front
    } else if f == 1 {
        Side::Back
    } else if f == 2 {
        Side::RightSide
    } else if f == 3 {
        Side::LeftSide
    } else if f == 4 {
        Side::Top
    } else {
        Side::Bottom
    }
}

/// The `k`th corner of the `f`th face, as an index into the unit cube's
/// corners.
pub open spec fn face_corner(f: int, k: int) -> usize {
    let t: Seq<usize> = if f == 0 {
        seq![4, 5, 6, 7]
    } else if f == 1 {
        seq![3, 2, 1, 0]
    } else if f == 2 {
        seq![2, 6, 5, 1]
    } else if f == 3 {
        seq![7, 3, 0, 4]
    } else if f == 4 {
        seq![7, 6, 2, 3]
    } else {
        seq![0, 1, 5, 4]
    };
    t[k]
}

/// Whether the `f`th face flips its U coordinate.
pub open spec fn face_flip_u(f: int) -> bool {
    f == 1 || f == 2
}

/// Whether the `f`th face flips its V coordinate.
pub open spec fn face_flip_v(f: int) -> bool {
    f == 4
}

/// The axis the U coordinate of the `f`th face follows.
pub open spec fn face_u_axis(f: int) -> usize {
    if f == 2 || f == 3 { 2 } else { 0 }
}

/// The axis the V coordinate of the `f`th face follows.
pub open spec fn face_v_axis(f: int) -> usize {
    if f == 4 || f == 5 { 2 } else { 1 }
}

/// The `p`th corner of the unit cube.
pub open spec fn corner_pos(p: usize) -> (u32, u32, u32) {
    if p == 0 {
        (0, 0, 0)
    } else if p == 1 {
        (1, 0, 0)
    } else if p == 2 {
        (1, 1, 0)
    } else if p == 3 {
        (0, 1, 0)
    } else if p == 4 {
        (0, 0, 1)
    } else if p == 5 {
        (1, 0, 1)
    } else if p == 6 {
        (1, 1, 1)
    } else {
        (0, 1, 1)
    }
}

/// The component of `p` along axis `a`.
pub open spec fn axis_of(p: (u32, u32, u32), a: usize) -> u32 {
    if a == 0 {
        p.0
    } else if a == 1 {
        p.1
    } else {
        p.2
    }
}

/// A tile-local coordinate (0 or 1 tile) in steps, pulled one step
/// towards the middle of the tile so that sampling stays inside it.
pub open spec fn biased(t: u32) -> u32 {
    if t == 0 {
        1
    } else {
        (TILE_STEPS - 1) as u32
    }
}

/// The number of tiles in one row of the atlas.
pub open spec fn tiles_per_row(info: AtlasInfo) -> u32 {
    (info.width / TILE_SIZE) as u32
}

/// The texture coordinate numerators of corner `p` of face `f` of a
/// voxel holding `blk`.
///
/// The tile-local coordinates are taken from the two axes of the face,
/// flipped where the face says so, with V running downwards; they are
/// biased inwards by one step and moved to the block's tile, whose
/// column and row follow from its index and the atlas width.
pub open spec fn uv_of(info: AtlasInfo, blk: Block, p: (u32, u32, u32), f: int) -> (u32, u32) {
    let a_u = axis_of(p, face_u_axis(f));
    let a_v = axis_of(p, face_v_axis(f));
    let tile_u: u32 = if face_flip_u(f) { (1 - a_u) as u32 } else { a_u };
    let tile_v: u32 = if face_flip_v(f) { a_v } else { (1 - a_v) as u32 };
    let id = texture_of(blk, side_of_face(f));
    let col = id % tiles_per_row(info);
    let row = id / tiles_per_row(info);
    (
        (biased(tile_u) + col * TILE_STEPS) as u32,
        (biased(tile_v) + row * TILE_STEPS) as u32,
    )
}

/// The denominators of the texture coordinates of a mesh.
pub open spec fn uv_denominators_of(info: AtlasInfo) -> (u32, u32) {
    ((info.width * TILE_SIZE) as u32, (info.height * TILE_SIZE) as u32)
}

/// The voxel lies on the outer layer of the sector.
pub open spec fn is_shell(c: SectorCoords) -> bool {
    c.0 == SECTOR_MIN || c.0 == SECTOR_MAX || c.1 == SECTOR_MIN || c.1 == SECTOR_MAX
        || c.2 == SECTOR_MIN || c.2 == SECTOR_MAX
}

/// The face of the voxel at `c` towards `side` is hidden by an opaque
/// neighbour in the same sector.
pub open spec fn occluded(data: Seq<Block>, c: SectorCoords, side: Side) -> bool {
    match neighbor_of(c, side) {
        Some(n) => !transparent(data[index_of(n)]),
        None => false,
    }
}

/// Face `f` of the voxel at linear position `i` is drawn: the voxel is
/// not on the outer layer, is not air, and the face is not occluded.
pub open spec fn face_visible(data: Seq<Block>, i: int, f: int) -> bool {
    &&& !is_shell(coords_at(i))
    &&& data[i] != Block::Air
    &&& !occluded(data, coords_at(i), side_of_face(f))
}

/// The drawn faces among the first `k` faces of the voxel at `i`, as
/// (voxel, face) pairs in face order.
pub open spec fn voxel_faces(data: Seq<Block>, i: int, k: nat) -> Seq<(int, int)>
    decreases k,
{
    if k == 0 {
        Seq::empty()
    } else {
        let prev = voxel_faces(data, i, (k - 1) as nat);
        if face_visible(data, i, k - 1) {
            prev.push((i, k - 1))
        } else {
            prev
        }
    }
}

/// The drawn faces of the first `n` voxels, in storage order.
pub open spec fn visible_faces(data: Seq<Block>, n: nat) -> Seq<(int, int)>
    decreases n,
{
    if n == 0 {
        Seq::empty()
    } else {
        visible_faces(data, (n - 1) as nat) + voxel_faces(data, n - 1, 6)
    }
}

/// All drawn faces of a sector.
pub open spec fn sector_faces(data: Seq<Block>) -> Seq<(int, int)> {
    visible_faces(data, SECTOR_LEN as nat)
}

/// The `k`th vertex of a drawn face.
pub open spec fn face_vertex(info: AtlasInfo, data: Seq<Block>, face: (int, int), k: int) -> VoxelVertex {
    let c = coords_at(face.0);
    let p = corner_pos(face_corner(face.1, k));
    VoxelVertex {
        pos: ((p.0 + c.0) as u32, (p.1 + c.1) as u32, (p.2 + c.2) as u32),
        uv: uv_of(info, data[face.0], p, face.1),
    }
}

/// The four vertices of a drawn face.
pub open spec fn face_quad(info: AtlasInfo, data: Seq<Block>, face: (int, int)) -> Seq<VoxelVertex> {
    seq![
        face_vertex(info, data, face, 0),
        face_vertex(info, data, face, 1),
        face_vertex(info, data, face, 2),
        face_vertex(info, data, face, 3),
    ]
}

/// The vertices of a sequence of drawn faces, four per face.
pub open spec fn mesh_vertices(info: AtlasInfo, data: Seq<Block>, faces: Seq<(int, int)>) -> Seq<VoxelVertex>
    decreases faces.len(),
{
    if faces.len() == 0 {
        Seq::empty()
    } else {
        mesh_vertices(info, data, faces.drop_last()) + face_quad(info, data, faces.last())
    }
}

/// The two triangles of a quad whose first vertex is `base`.
pub open spec fn quad_indices(base: int) -> Seq<u32> {
    seq![
        base as u32, (base + 1) as u32, (base + 2) as u32,
        base as u32, (base + 2) as u32, (base + 3) as u32,
    ]
}

/// The triangle indices of `n` quads, six per quad.
pub open spec fn mesh_indices(n: nat) -> Seq<u32>
    decreases n,
{
    if n == 0 {
        Seq::empty()
    } else {
        mesh_indices((n - 1) as nat) + quad_indices(4 * (n - 1))
    }
}

impl Face {
    fn new(
        side: Side,
        positions: [usize; 4],
        flip_u: bool,
        flip_v: bool,
        u_idx: usize,
        v_idx: usize,
    ) -> (r: Face)
        ensures
            r == (Face { side, positions, flip_u, flip_v, u_idx, v_idx }),
    {
        Face { side, positions, flip_u, flip_v, u_idx, v_idx }
    }
}

/// `face` is the `f`th entry of the face table.
spec fn face_is(face: Face, f: int) -> bool {
    &&& face.side == side_of_face(f)
    &&& face.flip_u == face_flip_u(f)
    &&& face.flip_v == face_flip_v(f)
    &&& face.u_idx == face_u_axis(f)
    &&& face.v_idx == face_v_axis(f)
    &&& forall|k: int| 0 <= k < 4 ==> #[trigger] face.positions@[k] == face_corner(f, k)
}

/// The `f`th face of the cube: front, back, right, left, top, bottom.
fn face(f: usize) -> (r: Face)
    requires
        f < 6,
    ensures
        face_is(r, f as int),
{
    let r = if f == 0 {
        Face::new(Side::Front, [4, 5, 6, 7], false, false, 0, 1)
    } else if f == 1 {
        Face::new(Side::Back, [3, 2, 1, 0], true, false, 0, 1)
    } else if f == 2 {
        Face::new(Side::RightSide, [2, 6, 5, 1], true, false, 2, 1)
    } else if f == 3 {
        Face::new(Side::LeftSide, [7, 3, 0, 4], false, false, 2, 1)
    } else if f == 4 {
        Face::new(Side::Top, [7, 6, 2, 3], false, true, 0, 2)
    } else {
        Face::new(Side::Bottom, [0, 1, 5, 4], false, false, 0, 2)
    };
    assert(forall|k: int| 0 <= k < 4 ==> #[trigger] r.positions@[k] == face_corner(f as int, k));
    r
}

/// The `p`th corner of the unit cube.
fn corner(p: usize) -> (r: (u32, u32, u32))
    requires
        p < 8,
    ensures
        r == corner_pos(p),
{
    match p {
        0 => (0, 0, 0),
        1 => (1, 0, 0),
        2 => (1, 1, 0),
        3 => (0, 1, 0),
        4 => (0, 0, 1),
        5 => (1, 0, 1),
        6 => (1, 1, 1),
        _ => (0, 1, 1),
    }
}

/// The component of `p` along axis `a`.
fn axis(p: (u32, u32, u32), a: usize) -> (r: u32)
    ensures
        r == axis_of(p, a),
{
    if a == 0 {
        p.0
    } else if a == 1 {
        p.1
    } else {
        p.2
    }
}

/// Moves a corner of the unit cube to the voxel whose back lower left
/// corner lies at `factors`.
fn translate3(orig: (u32, u32, u32), factors: (u32, u32, u32)) -> (r: (u32, u32, u32))
    requires
        orig.0 + factors.0 <= u32::MAX,
        orig.1 + factors.1 <= u32::MAX,
        orig.2 + factors.2 <= u32::MAX,
    ensures
        r == ((factors.0 + orig.0) as u32, (factors.1 + orig.1) as u32, (factors.2 + orig.2) as u32),
{
    (factors.0 + orig.0, factors.1 + orig.1, factors.2 + orig.2)
}

/// The texture coordinate numerators of corner `orig` of `face` on a
/// voxel holding `blk`.
fn tex_coord(tex_info: &AtlasInfo, blk: Block, orig: (u32, u32, u32), face: &Face, Ghost(f): Ghost<int>) -> (r: (u32, u32))
    requires
        tex_info.wf(),
        blk != Block::Air,
        face_is(*face, f),
        0 <= f < 6,
        orig.0 <= 1 && orig.1 <= 1 && orig.2 <= 1,
    ensures
        r == uv_of(*tex_info, blk, orig, f),
{
    let a_u = axis(orig, face.u_idx);
    let a_v = axis(orig, face.v_idx);
    // V runs downwards in the atlas and upwards in model space.
    let tile_u: u32 = if face.flip_u { 1 - a_u } else { a_u };
    let tile_v: u32 = if face.flip_v { a_v } else { 1 - a_v };
    // Keep the coordinate one step inside the tile, so that neighbouring
    // tiles never bleed into the sampled texels.
    let tile_u_adj: u32 = if tile_u == 0 { 1 } else { TILE_STEPS - 1 };
    let tile_v_adj: u32 = if tile_v == 0 { 1 } else { TILE_STEPS - 1 };
    let blk_id = blk.texture_id(face.side);
    let tiles_per_row = tex_info.width / TILE_SIZE;
    let atlas_u = blk_id % tiles_per_row;
    let atlas_v = blk_id / tiles_per_row;
    assert(atlas_u < tiles_per_row && tiles_per_row <= 65536);
    assert(blk_id <= 16);
    (tile_u_adj + atlas_u * TILE_STEPS, tile_v_adj + atlas_v * TILE_STEPS)
}

proof fn lemma_voxel_faces_len(data: Seq<Block>, i: int, k: nat)
    ensures
        voxel_faces(data, i, k).len() <= k,
    decreases k,
{
    if k > 0 {
        lemma_voxel_faces_len(data, i, (k - 1) as nat);
    }
}

proof fn lemma_voxel_faces_none(data: Seq<Block>, i: int, k: nat)
    requires
        forall|f: int| 0 <= f < k ==> !face_visible(data, i, f),
    ensures
        voxel_faces(data, i, k) == Seq::<(int, int)>::empty(),
    decreases k,
{
    if k > 0 {
        lemma_voxel_faces_none(data, i, (k - 1) as nat);
    }
}

proof fn lemma_mesh_vertices_push(info: AtlasInfo, data: Seq<Block>, faces: Seq<(int, int)>, x: (int, int))
    ensures
        mesh_vertices(info, data, faces.push(x)) == mesh_vertices(info, data, faces) + face_quad(info, data, x),
{
    assert(faces.push(x).drop_last() =~= faces);
}

proof fn lemma_mesh_vertices_len(info: AtlasInfo, data: Seq<Block>, faces: Seq<(int, int)>)
    ensures
        mesh_vertices(info, data, faces).len() == 4 * faces.len(),
    decreases faces.len(),
{
    if faces.len() > 0 {
        lemma_mesh_vertices_len(info, data, faces.drop_last());
    }
}

proof fn lemma_mesh_indices_len(n: nat)
    ensures
        mesh_indices(n).len() == 6 * n,
    decreases n,
{
    if n > 0 {
        lemma_mesh_indices_len((n - 1) as nat);
    }
}

/// Whether the face of the voxel at `coords` on `fc`'s side is hidden
/// by an opaque neighbour.
fn face_hidden(voxels: &SectorData, coords: SectorCoords, fc: &Face) -> (r: bool)
    requires
        in_sector(coords),
    ensures
        r == occluded(voxels@, coords, fc.side),
{
    broadcast use lemma_sector_len;
    if let Some(adj_coords) = coords.neighbor(fc.side) {
        proof {
            lemma_coords_index(adj_coords);
        }
        let adj_block = voxels.block(adj_coords);
        !adj_block.is_transparent()
    } else {
        false
    }
}

/// The `k`th vertex of face `fi.1` of the voxel at `fi.0`.
fn make_vertex(
    tex_info: &AtlasInfo,
    blk: Block,
    fc: &Face,
    factors: (u32, u32, u32),
    k: usize,
    Ghost(data): Ghost<Seq<Block>>,
    Ghost(fi): Ghost<(int, int)>,
) -> (r: VoxelVertex)
    requires
        tex_info.wf(),
        0 <= fi.0 < SECTOR_LEN,
        0 <= fi.1 < 6,
        k < 4,
        data.len() == SECTOR_LEN,
        blk == data[fi.0],
        blk != Block::Air,
        face_is(*fc, fi.1),
        factors == (coords_at(fi.0).0 as u32, coords_at(fi.0).1 as u32, coords_at(fi.0).2 as u32),
    ensures
        r == face_vertex(*tex_info, data, fi, k as int),
{
    proof {
        lemma_index_coords(fi.0);
        assert(fc.positions@[k as int] == face_corner(fi.1, k as int));
    }
    let p = corner(fc.positions[k]);
    VoxelVertex { pos: translate3(p, factors), uv: tex_coord(tex_info, blk, p, fc, Ghost(fi.1)) }
}

/// Appends the four vertices of a drawn face and the indices of its two
/// triangles, whose first vertex is `current_index`.
fn emit_face(
    tex_info: &AtlasInfo,
    blk: Block,
    fc: &Face,
    factors: (u32, u32, u32),
    vertices: &mut Vec<VoxelVertex>,
    indices: &mut Vec<u32>,
    current_index: u32,
    Ghost(data): Ghost<Seq<Block>>,
    Ghost(fi): Ghost<(int, int)>,
)
    requires
        tex_info.wf(),
        0 <= fi.0 < SECTOR_LEN,
        0 <= fi.1 < 6,
        data.len() == SECTOR_LEN,
        blk == data[fi.0],
        blk != Block::Air,
        face_is(*fc, fi.1),
        factors == (coords_at(fi.0).0 as u32, coords_at(fi.0).1 as u32, coords_at(fi.0).2 as u32),
        current_index + 4 <= u32::MAX,
    ensures
        final(vertices)@ == old(vertices)@ + face_quad(*tex_info, data, fi),
        final(indices)@ == old(indices)@ + quad_indices(current_index as int),
{
    let ghost old_vertices = vertices@;
    let mut k: usize = 0;
    while k < 4
        invariant
            k <= 4,
            tex_info.wf(),
            0 <= fi.0 < SECTOR_LEN,
            0 <= fi.1 < 6,
            data.len() == SECTOR_LEN,
            blk == data[fi.0],
            blk != Block::Air,
            face_is(*fc, fi.1),
            factors == (coords_at(fi.0).0 as u32, coords_at(fi.0).1 as u32, coords_at(fi.0).2 as u32),
            vertices@ == old_vertices + face_quad(*tex_info, data, fi).subrange(0, k as int),
        decreases 4 - k,
    {
        let v = make_vertex(tex_info, blk, fc, factors, k, Ghost(data), Ghost(fi));
        vertices.push(v);
        assert(face_quad(*tex_info, data, fi).subrange(0, (k + 1) as int)
            =~= face_quad(*tex_info, data, fi).subrange(0, k as int).push(v));
        k += 1;
    }
    assert(face_quad(*tex_info, data, fi).subrange(0, 4) =~= face_quad(*tex_info, data, fi));
    indices.push(current_index);
    indices.push(current_index + 1);
    indices.push(current_index + 2);
    indices.push(current_index);
    indices.push(current_index + 2);
    indices.push(current_index + 3);
    assert(indices@ =~= old(indices)@ + quad_indices(current_index as int));
}

/// Generates the mesh of a sector's voxels.
///
/// Every voxel is visited in storage order, and each of its faces in
/// face order. Voxels on the outer layer of the sector and air voxels
/// are skipped; a face is drawn unless the voxel beside it in the same
/// sector is opaque. Each drawn face adds four vertices and the six
/// indices of its two triangles. A sector without any drawn face has no
/// mesh, and `None` is returned.
pub fn gen_terrain(tex_info: &AtlasInfo, voxels: &SectorData) -> (r: Option<PreGeometry>)
    requires
        tex_info.wf(),
    ensures
        r is None <==> sector_faces(voxels@).len() == 0,
        r matches Some(g) ==> {
            &&& g.vertices@ == mesh_vertices(*tex_info, voxels@, sector_faces(voxels@))
            &&& g.indices@ == mesh_indices(sector_faces(voxels@).len())
            &&& g.uv_denominators == uv_denominators_of(*tex_info)
        },
{
    broadcast use lemma_sector_len;
    let ghost data = voxels@;
    let mut vertices: Vec<VoxelVertex> = Vec::new();
    let mut indices: Vec<u32> = Vec::new();
    let mut current_index: u32 = 0;
    let mut i: usize = 0;
    while i < SECTOR_LEN
        invariant
            i <= SECTOR_LEN,
            data == voxels@,
            data.len() == SECTOR_LEN,
            tex_info.wf(),
            visible_faces(data, i as nat).len() <= 6 * i,
            vertices@ == mesh_vertices(*tex_info, data, visible_faces(data, i as nat)),
            indices@ == mesh_indices(visible_faces(data, i as nat).len()),
            current_index == 4 * visible_faces(data, i as nat).len(),
        decreases SECTOR_LEN - i,
    {
        let ghost done = visible_faces(data, i as nat);
        proof {
            lemma_index_coords(i as int);
            assert(visible_faces(data, (i + 1) as nat) == done + voxel_faces(data, i as int, 6));
        }
        let coords = SectorData::coords(i);
        let SectorCoords(x, y, z) = coords;
        let blk = *voxels.block(coords);
        if x == SECTOR_MIN || x == SECTOR_MAX || y == SECTOR_MIN || y == SECTOR_MAX
            || z == SECTOR_MIN || z == SECTOR_MAX || blk == Block::Air {
            // Outer-layer voxels are drawn by the neighbouring sector; air
            // has no geometry.
            proof {
                lemma_voxel_faces_none(data, i as int, 6);
                assert(done + voxel_faces(data, i as int, 6) =~= done);
            }
        } else {
            let factors = (x as u32, y as u32, z as u32);
            let mut f: usize = 0;
            while f < 6
                invariant
                    f <= 6,
                    i < SECTOR_LEN,
                    data == voxels@,
                    data.len() == SECTOR_LEN,
                    tex_info.wf(),
                    blk == data[i as int],
                    blk != Block::Air,
                    coords == coords_at(i as int),
                    in_sector(coords),
                    factors == (coords.0 as u32, coords.1 as u32, coords.2 as u32),
                    done == visible_faces(data, i as nat),
                    done.len() <= 6 * i,
                    voxel_faces(data, i as int, f as nat).len() <= f,
                    !is_shell(coords),
                    vertices@ == mesh_vertices(*tex_info, data, done + voxel_faces(data, i as int, f as nat)),
                    indices@ == mesh_indices((done + voxel_faces(data, i as int, f as nat)).len()),
                    current_index == 4 * (done + voxel_faces(data, i as int, f as nat)).len(),
                decreases 6 - f,
            {
                let ghost before = done + voxel_faces(data, i as int, f as nat);
                let fc = face(f);
                let hidden = face_hidden(voxels, coords, &fc);
                if !hidden {
                    let ghost fi = (i as int, f as int);
                    proof {
                        lemma_mesh_vertices_len(*tex_info, data, before);
                        lemma_mesh_indices_len(before.len());
                    }
                    emit_face(tex_info, blk, &fc, factors, &mut vertices, &mut indices, current_index, Ghost(data), Ghost(fi));
                    current_index += 4;
                    proof {
                        assert((done + voxel_faces(data, i as int, (f + 1) as nat)) =~= before.push(fi));
                        lemma_mesh_vertices_push(*tex_info, data, before, fi);
                    }
                } else {
                    proof {
                        assert((done + voxel_faces(data, i as int, (f + 1) as nat)) =~= before);
                    }
                }
                f += 1;
            }
        }
        proof {
            lemma_voxel_faces_len(data, i as int, 6);
        }
        i += 1;
    }
    if current_index == 0 {
        return None;
    }
    Some(PreGeometry {
        vertices,
        indices,
        uv_denominators: (tex_info.width * TILE_SIZE, tex_info.height * TILE_SIZE),
    })
}

proof fn lemma_concat_contains(a: Seq<(int, int)>, b: Seq<(int, int)>, x: (int, int))
    ensures
        (a + b).contains(x) <==> a.contains(x) || b.contains(x),
{
    if a.contains(x) {
        let k = choose|k: int| 0 <= k < a.len() && a[k] == x;
        assert((a + b)[k] == x);
    }
    if b.contains(x) {
        let k = choose|k: int| 0 <= k < b.len() && b[k] == x;
        assert((a + b)[a.len() + k] == x);
    }
    if (a + b).contains(x) {
        let k = choose|k: int| 0 <= k < (a + b).len() && (a + b)[k] == x;
        if k < a.len() {
            assert(a[k] == x);
        } else {
            assert(b[k - a.len()] == x);
        }
    }
}

proof fn lemma_voxel_faces_contains(data: Seq<Block>, i: int, k: nat, x: (int, int))
    ensures
        voxel_faces(data, i, k).contains(x) <==> (x.0 == i && 0 <= x.1 < k && face_visible(data, i, x.1)),
    decreases k,
{
    if k > 0 {
        let prev = voxel_faces(data, i, (k - 1) as nat);
        lemma_voxel_faces_contains(data, i, (k - 1) as nat, x);
        if face_visible(data, i, k - 1) {
            lemma_concat_contains(prev, seq![(i, k - 1)], x);
            assert(prev.push((i, k - 1)) =~= prev + seq![(i, k - 1)]);
            if x == (i, k - 1) {
                assert(seq![(i, k - 1)][0] == x);
            }
        }
    }
}

proof fn lemma_visible_faces_contains(data: Seq<Block>, n: nat, x: (int, int))
    ensures
        visible_faces(data, n).contains(x) <==> (0 <= x.0 < n && 0 <= x.1 < 6 && face_visible(data, x.0, x.1)),
    decreases n,
{
    if n > 0 {
        lemma_visible_faces_contains(data, (n - 1) as nat, x);
        lemma_voxel_faces_contains(data, n - 1, 6, x);
        lemma_concat_contains(visible_faces(data, (n - 1) as nat), voxel_faces(data, n - 1, 6), x);
    }
}

/// A face of a voxel is in a sector's mesh exactly when it is drawn: the
/// voxel is not on the outer layer, is not air, and the voxel beside the
/// face in the same sector, if any, is transparent.
pub proof fn lemma_sector_faces_exact(data: &SectorData, i: int, f: int)
    requires
        0 <= i < SECTOR_LEN,
        0 <= f < 6,
    ensures
        sector_faces(data@).contains((i, f)) <==> face_visible(data@, i, f),
        face_visible(data@, i, f) <==> {
            &&& !is_shell(coords_at(i))
            &&& data@[i] != Block::Air
            &&& match neighbor_of(coords_at(i), side_of_face(f)) {
                Some(n) => transparent(data@[index_of(n)]),
                None => true,
            }
        },
{
    lemma_visible_faces_contains(data@, SECTOR_LEN as nat, (i, f));
}

proof fn lemma_air_prefix(data: Seq<Block>, n: nat)
    requires
        n <= SECTOR_LEN,
        forall|i: int| 0 <= i < n ==> data[i] == Block::Air,
    ensures
        visible_faces(data, n) == Seq::<(int, int)>::empty(),
    decreases n,
{
    if n > 0 {
        lemma_air_prefix(data, (n - 1) as nat);
        lemma_voxel_faces_none(data, n - 1, 6);
        assert(Seq::<(int, int)>::empty() + Seq::<(int, int)>::empty() =~= Seq::<(int, int)>::empty());
    }
}

/// A sector of air alone has no drawn face, so it has no mesh.
pub proof fn lemma_air_sector_has_no_faces(data: &SectorData)
    requires
        forall|i: int| 0 <= i < SECTOR_LEN ==> data@[i] == Block::Air,
    ensures
        sector_faces(data@).len() == 0,
{
    lemma_air_prefix(data@, SECTOR_LEN as nat);
}

proof fn lemma_lone_voxel_prefix(data: Seq<Block>, c: int, n: nat)
    requires
        n <= SECTOR_LEN,
        0 <= c < SECTOR_LEN,
        forall|i: int| 0 <= i < SECTOR_LEN && i != c ==> data[i] == Block::Air,
    ensures
        visible_faces(data, n) == if n <= c { Seq::<(int, int)>::empty() } else { voxel_faces(data, c, 6) },
    decreases n,
{
    if n > 0 {
        lemma_lone_voxel_prefix(data, c, (n - 1) as nat);
        if n - 1 != c {
            lemma_voxel_faces_none(data, n - 1, 6);
            assert(visible_faces(data, (n - 1) as nat) + Seq::<(int, int)>::empty() =~= visible_faces(data, (n - 1) as nat));
        } else {
            assert(Seq::<(int, int)>::empty() + voxel_faces(data, c, 6) =~= voxel_faces(data, c, 6));
        }
    }
}

/// A solid voxel off the outer layer, with air everywhere else, has all
/// six faces drawn: 24 vertices and 36 indices.
pub proof fn lemma_lone_voxel_six_faces(data: &SectorData, c: SectorCoords, info: AtlasInfo)
    requires
        in_sector(c),
        !is_shell(c),
        data@[index_of(c)] != Block::Air,
        forall|i: int| 0 <= i < SECTOR_LEN && i != index_of(c) ==> data@[i] == Block::Air,
    ensures
        sector_faces(data@) == seq![
            (index_of(c), 0int), (index_of(c), 1int), (index_of(c), 2int),
            (index_of(c), 3int), (index_of(c), 4int), (index_of(c), 5int),
        ],
        sector_faces(data@).len() == 6,
        mesh_vertices(info, data@, sector_faces(data@)).len() == 24,
        mesh_indices(sector_faces(data@).len()).len() == 36,
{
    broadcast use lemma_sector_len;
    let d = data@;
    let i = index_of(c);
    lemma_coords_index(c);
    lemma_lone_voxel_prefix(d, i, SECTOR_LEN as nat);
    assert forall|f: int| 0 <= f < 6 implies face_visible(d, i, f) by {
        match neighbor_of(c, side_of_face(f)) {
            Some(n) => {
                lemma_coords_index(n);
                assert(index_of(n) != i);
            },
            None => {},
        }
    }
    assert(voxel_faces(d, i, 6) =~= seq![(i, 0int), (i, 1int), (i, 2int), (i, 3int), (i, 4int), (i, 5int)]) by {
        reveal_with_fuel(voxel_faces, 7);
    }
    lemma_mesh_vertices_len(info, d, sector_faces(d));
    lemma_mesh_indices_len(6);
}

/// The index of the face on a given side.
pub open spec fn face_of_side(side: Side) -> int {
    match side {
        Side::Front => 0,
        Side::Back => 1,
        Side::RightSide => 2,
        Side::LeftSide => 3,
        Side::Top => 4,
        Side::Bottom => 5,
    }
}

/// The side facing the other way.
pub open spec fn opposite(side: Side) -> Side {
    match side {
        Side::Front => Side::Back,
        Side::Back => Side::Front,
        Side::RightSide => Side::LeftSide,
        Side::LeftSide => Side::RightSide,
        Side::Top => Side::Bottom,
        Side::Bottom => Side::Top,
    }
}

/// Where two solid voxels touch, the face between them is drawn on
/// neither side; every other face of each is drawn exactly when the
/// voxel beside it is transparent.
pub proof fn lemma_shared_face_hidden(data: &SectorData, a: SectorCoords, side: Side, b: SectorCoords)
    requires
        in_sector(a),
        !is_shell(a),
        !is_shell(b),
        neighbor_of(a, side) == Some(b),
        data@[index_of(a)] != Block::Air,
        data@[index_of(b)] != Block::Air,
    ensures
        !sector_faces(data@).contains((index_of(a), face_of_side(side))),
        !sector_faces(data@).contains((index_of(b), face_of_side(opposite(side)))),
        forall|f: int| 0 <= f < 6 ==>
            (sector_faces(data@).contains((index_of(a), f)) <==> !occluded(data@, a, side_of_face(f))),
        forall|f: int| 0 <= f < 6 ==>
            (sector_faces(data@).contains((index_of(b), f)) <==> !occluded(data@, b, side_of_face(f))),
{
    lemma_coords_index(a);
    lemma_coords_index(b);
    assert(neighbor_of(b, opposite(side)) == Some(a));
    lemma_sector_faces_exact(data, index_of(a), face_of_side(side));
    lemma_sector_faces_exact(data, index_of(b), face_of_side(opposite(side)));
    assert forall|f: int| 0 <= f < 6 implies
        (sector_faces(data@).contains((index_of(a), f)) <==> !occluded(data@, a, side_of_face(f))) by {
        lemma_sector_faces_exact(data, index_of(a), f);
    }
    assert forall|f: int| 0 <= f < 6 implies
        (sector_faces(data@).contains((index_of(b), f)) <==> !occluded(data@, b, side_of_face(f))) by {
        lemma_sector_faces_exact(data, index_of(b), f);
    }
}

/// A voxel on the outer layer of a sector has no face in the mesh,
/// whatever it holds.
pub proof fn lemma_shell_voxel_has_no_faces(data: &SectorData, c: SectorCoords, f: int)
    requires
        in_sector(c),
        is_shell(c),
        0 <= f < 6,
    ensures
        !sector_faces(data@).contains((index_of(c), f)),
{
    lemma_coords_index(c);
    lemma_sector_faces_exact(data, index_of(c), f);
}

/// Each texture coordinate of a drawn face lies inside the face's tile:
/// with `t` the tile and `n` the tiles per row, the U numerator lies one
/// step inside `[256 * (t % n), 256 * (t % n + 1)]` and the V numerator
/// one step inside `[256 * (t / n), 256 * (t / n + 1)]`, over
/// denominators of 256 steps per tile. So U lies within `1 / (16 * width)`
/// inside the tile's column span `[(t % n) / n, (t % n + 1) / n]`, and V
/// likewise inside its row span, in units of the atlas height.
pub proof fn lemma_uv_inside_tile(info: AtlasInfo, blk: Block, p: usize, f: int)
    requires
        info.wf(),
        blk != Block::Air,
        p < 8,
        0 <= f < 6,
    ensures
        ({
            let t = texture_of(blk, side_of_face(f));
            let n = tiles_per_row(info);
            let uv = uv_of(info, blk, corner_pos(p), f);
            &&& uv.0 == TILE_STEPS * (t % n) + 1 || uv.0 == TILE_STEPS * (t % n + 1) - 1
            &&& uv.1 == TILE_STEPS * (t / n) + 1 || uv.1 == TILE_STEPS * (t / n + 1) - 1
            &&& uv_denominators_of(info).0 == TILE_STEPS * n
            &&& uv_denominators_of(info).1 == TILE_STEPS * (info.height / TILE_SIZE)
        }),
{
    let t = texture_of(blk, side_of_face(f));
    let n = tiles_per_row(info);
    assert(t <= 16);
    assert(0 < n <= 65536);
    assert(t % n < n);
    assert(t / n <= 16) by (nonlinear_arith)
        requires t <= 16, n > 0;
}

} // verus!
