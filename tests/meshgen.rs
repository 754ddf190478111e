use sandbox::block::Block;
use sandbox::sector::data::{SectorCoords, SectorData};
use sandbox::sector::meshgen::{gen_terrain, AtlasInfo};
use sandbox::vertexattrib::VoxelVertex;

fn atlas(w: u32, h: u32) -> AtlasInfo {
    AtlasInfo::new(w, h).unwrap()
}

fn faces(data: &SectorData) -> usize {
    match gen_terrain(&atlas(256, 256), data) {
        None => 0,
        Some(g) => {
            assert_eq!(g.vertices.len() % 4, 0);
            assert_eq!(g.indices.len(), g.vertices.len() / 4 * 6);
            g.vertices.len() / 4
        }
    }
}

#[test]
fn atlas_info_rejects_bad_sizes() {
    assert!(AtlasInfo::new(0, 16).is_none());
    assert!(AtlasInfo::new(16, 0).is_none());
    assert!(AtlasInfo::new(24, 16).is_none());
    assert!(AtlasInfo::new(16, 40).is_none());
    assert!(AtlasInfo::new(2097152, 16).is_none());
    assert_eq!(AtlasInfo::new(1048576, 16), Some(AtlasInfo { width: 1048576, height: 16 }));
    assert_eq!(AtlasInfo::new(64, 32), Some(AtlasInfo { width: 64, height: 32 }));
}

#[test]
fn air_sector_has_no_geometry() {
    let data = SectorData::new();
    assert!(gen_terrain(&atlas(16, 16), &data).is_none());
}

#[test]
fn lone_interior_voxel_has_six_faces() {
    let mut data = SectorData::new();
    *data.block_mut(SectorCoords(5, 5, 5)) = Block::Stone;
    let g = gen_terrain(&atlas(16, 16), &data).unwrap();
    assert_eq!(g.vertices.len(), 24);
    assert_eq!(g.indices.len(), 36);
    assert_eq!(g.uv_denominators, (256, 256));
    // The front face comes first.
    assert_eq!(g.vertices[0], VoxelVertex { pos: (5, 5, 6), uv: (1, 255) });
    assert_eq!(g.vertices[1], VoxelVertex { pos: (6, 5, 6), uv: (255, 255) });
    assert_eq!(g.vertices[2], VoxelVertex { pos: (6, 6, 6), uv: (255, 1) });
    assert_eq!(g.vertices[3], VoxelVertex { pos: (5, 6, 6), uv: (1, 1) });
    assert_eq!(&g.indices[0..12], &[0, 1, 2, 0, 2, 3, 4, 5, 6, 4, 6, 7]);
    assert_eq!(g.indices[35], 23);
}

#[test]
fn shared_face_is_dropped_from_both_voxels() {
    let mut data = SectorData::new();
    *data.block_mut(SectorCoords(5, 5, 5)) = Block::Stone;
    *data.block_mut(SectorCoords(6, 5, 5)) = Block::Soil;
    assert_eq!(faces(&data), 10);
    let mut stacked = SectorData::new();
    *stacked.block_mut(SectorCoords(7, 3, 9)) = Block::Grass;
    *stacked.block_mut(SectorCoords(7, 4, 9)) = Block::Grass;
    assert_eq!(faces(&stacked), 10);
}

#[test]
fn shell_voxels_have_no_faces() {
    for c in [
        SectorCoords(0, 5, 5),
        SectorCoords(15, 5, 5),
        SectorCoords(5, 0, 5),
        SectorCoords(5, 15, 5),
        SectorCoords(5, 5, 0),
        SectorCoords(5, 5, 15),
        SectorCoords(0, 0, 0),
    ] {
        let mut data = SectorData::new();
        *data.block_mut(c) = Block::Stone;
        assert!(gen_terrain(&atlas(16, 16), &data).is_none());
    }
}

#[test]
fn voxel_next_to_shell_keeps_outward_face() {
    let mut data = SectorData::new();
    *data.block_mut(SectorCoords(1, 5, 5)) = Block::Stone;
    assert_eq!(faces(&data), 6);
    *data.block_mut(SectorCoords(0, 5, 5)) = Block::Stone;
    assert_eq!(faces(&data), 5);
}

#[test]
fn uv_lands_in_block_tile() {
    // 64 pixels wide: four tiles per row. Grass tops use tile 2.
    let mut data = SectorData::new();
    *data.block_mut(SectorCoords(3, 4, 5)) = Block::Grass;
    let g = gen_terrain(&atlas(64, 64), &data).unwrap();
    assert_eq!(g.uv_denominators, (1024, 1024));
    // The top face is the fifth face drawn.
    assert_eq!(g.vertices[16], VoxelVertex { pos: (3, 5, 6), uv: (513, 255) });
    assert_eq!(g.vertices[17], VoxelVertex { pos: (4, 5, 6), uv: (767, 255) });
    assert_eq!(g.vertices[18], VoxelVertex { pos: (4, 5, 5), uv: (767, 1) });
    assert_eq!(g.vertices[19], VoxelVertex { pos: (3, 5, 5), uv: (513, 1) });
    for v in &g.vertices[16..20] {
        let u = v.uv.0 as f64 / 1024.0;
        let w = v.uv.1 as f64 / 1024.0;
        assert!(u > 2.0 / 4.0 && u < 3.0 / 4.0);
        assert!(w > 0.0 && w < 1.0 / 4.0);
    }
    // The sides use tile 3, the bottom tile 1.
    assert_eq!(g.vertices[0].uv, (769, 255));
    assert_eq!(g.vertices[20].uv, (257, 255));
}

#[test]
fn uv_wraps_to_next_row() {
    // 64 pixels wide: tile 16 is the first tile of the fifth row.
    let mut data = SectorData::new();
    *data.block_mut(SectorCoords(8, 8, 8)) = Block::TestBlock;
    let g = gen_terrain(&atlas(64, 128), &data).unwrap();
    assert_eq!(g.uv_denominators, (1024, 2048));
    assert_eq!(g.vertices[0].uv, (1, 4 * 256 + 255));
    assert_eq!(g.vertices[2].uv, (255, 4 * 256 + 1));
}

#[test]
fn half_stone_sector_face_count() {
    let data = SectorData::test();
    let g = gen_terrain(&atlas(256, 256), &data).unwrap();
    assert_eq!(g.vertices.len(), 784);
    assert_eq!(g.indices.len(), 1176);
    assert_eq!(faces(&data), 196);
    // Only top faces, all at height 8.
    for v in &g.vertices {
        assert_eq!(v.pos.1, 8);
    }
}
