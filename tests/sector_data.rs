use sandbox::block::Block;
use sandbox::sector::data::{NeighborData, SectorCoords, SectorData, SECTOR_DIM, SECTOR_LEN};
use sandbox::side::Side;

#[test]
fn index_coords_round_trip_all_voxels() {
    for z in 0..SECTOR_DIM {
        for y in 0..SECTOR_DIM {
            for x in 0..SECTOR_DIM {
                let idx = SectorData::index(SectorCoords(x, y, z));
                assert!(idx < SECTOR_LEN);
                assert_eq!(SectorData::coords(idx), SectorCoords(x, y, z));
            }
        }
    }
    for idx in 0..SECTOR_LEN {
        assert_eq!(SectorData::index(SectorData::coords(idx)), idx);
    }
}

#[test]
fn index_is_x_fastest() {
    assert_eq!(SectorData::index(SectorCoords(0, 0, 0)), 0);
    assert_eq!(SectorData::index(SectorCoords(1, 0, 0)), 1);
    assert_eq!(SectorData::index(SectorCoords(0, 1, 0)), 16);
    assert_eq!(SectorData::index(SectorCoords(0, 0, 1)), 256);
    assert_eq!(SectorData::index(SectorCoords(15, 15, 15)), 4095);
    assert_eq!(SectorData::coords(4095), SectorCoords(15, 15, 15));
    assert_eq!(SectorData::coords(273), SectorCoords(1, 1, 1));
}

#[test]
fn neighbor_inside_and_at_boundary() {
    let c = SectorCoords(5, 6, 7);
    assert_eq!(c.neighbor(Side::Front), Some(SectorCoords(5, 6, 8)));
    assert_eq!(c.neighbor(Side::Back), Some(SectorCoords(5, 6, 6)));
    assert_eq!(c.neighbor(Side::RightSide), Some(SectorCoords(6, 6, 7)));
    assert_eq!(c.neighbor(Side::LeftSide), Some(SectorCoords(4, 6, 7)));
    assert_eq!(c.neighbor(Side::Top), Some(SectorCoords(5, 7, 7)));
    assert_eq!(c.neighbor(Side::Bottom), Some(SectorCoords(5, 5, 7)));

    let low = SectorCoords(0, 0, 0);
    assert_eq!(low.neighbor(Side::Back), None);
    assert_eq!(low.neighbor(Side::LeftSide), None);
    assert_eq!(low.neighbor(Side::Bottom), None);
    assert_eq!(low.neighbor(Side::Front), Some(SectorCoords(0, 0, 1)));

    let high = SectorCoords(15, 15, 15);
    assert_eq!(high.neighbor(Side::Front), None);
    assert_eq!(high.neighbor(Side::RightSide), None);
    assert_eq!(high.neighbor(Side::Top), None);
    assert_eq!(high.neighbor(Side::Bottom), Some(SectorCoords(15, 14, 15)));
}

#[test]
fn new_sector_is_air() {
    let data = SectorData::new();
    let mut it = data.iter();
    let mut n = 0;
    while let Some((_, blk)) = it.next() {
        assert_eq!(*blk, Block::Air);
        n += 1;
    }
    assert_eq!(n, SECTOR_LEN);
}

#[test]
fn block_mut_writes_one_voxel() {
    let mut data = SectorData::new();
    *data.block_mut(SectorCoords(3, 4, 5)) = Block::Grass;
    assert_eq!(*data.block(SectorCoords(3, 4, 5)), Block::Grass);
    assert_eq!(*data.block(SectorCoords(4, 4, 5)), Block::Air);
    assert_eq!(*data.block(SectorCoords(3, 4, 6)), Block::Air);
}

#[test]
fn iter_yields_storage_order() {
    let mut data = SectorData::new();
    *data.block_mut(SectorCoords(2, 0, 0)) = Block::Soil;
    let mut it = data.iter();
    let (c0, b0) = it.next().unwrap();
    assert_eq!(c0, SectorCoords(0, 0, 0));
    assert_eq!(*b0, Block::Air);
    let _ = it.next();
    let (c2, b2) = it.next().unwrap();
    assert_eq!(c2, SectorCoords(2, 0, 0));
    assert_eq!(*b2, Block::Soil);
    let mut count = 3;
    while it.next().is_some() {
        count += 1;
    }
    assert_eq!(count, SECTOR_LEN);
    assert!(it.next().is_none());
}

#[test]
fn iter_mut_writes_through() {
    let mut data = SectorData::new();
    {
        let mut it = data.iter_mut();
        while let Some((c, blk)) = it.next() {
            if c.0 == 1 {
                *blk = Block::Stone;
            }
        }
    }
    assert_eq!(*data.block(SectorCoords(1, 9, 3)), Block::Stone);
    assert_eq!(*data.block(SectorCoords(2, 9, 3)), Block::Air);
}

#[test]
fn half_stone_fixture() {
    let data = SectorData::test();
    assert_eq!(*data.block(SectorCoords(0, 0, 0)), Block::Stone);
    assert_eq!(*data.block(SectorCoords(9, 7, 3)), Block::Stone);
    assert_eq!(*data.block(SectorCoords(9, 8, 3)), Block::Air);
    assert_eq!(*data.block(SectorCoords(15, 15, 15)), Block::Air);
}

#[test]
fn neighbor_data_starts_clear() {
    let _n = NeighborData::test();
}

#[test]
fn block_attributes() {
    assert!(Block::Air.is_transparent());
    assert!(!Block::Stone.is_transparent());
    assert!(!Block::Grass.is_transparent());
    assert_eq!(Block::Stone.texture_id(Side::Top), 0);
    assert_eq!(Block::Soil.texture_id(Side::Front), 1);
    assert_eq!(Block::Grass.texture_id(Side::Top), 2);
    assert_eq!(Block::Grass.texture_id(Side::Bottom), 1);
    assert_eq!(Block::Grass.texture_id(Side::LeftSide), 3);
    assert_eq!(Block::TestBlock.texture_id(Side::Back), 16);
    assert_eq!(Block::default(), Block::Air);
}
