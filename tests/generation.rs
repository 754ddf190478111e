use sandbox::block::Block;
use sandbox::sector::data::{SectorCoords, SectorData};
use sandbox::sector::generation::{
    generate_sector, superflat_sector, WorkerPlan, N_WORKERS, REGION_LEN,
};
use sandbox::sector::meshgen::AtlasInfo;
use sandbox::sector::{Sector, SectorIndex, SectorMap};
use std::collections::HashSet;

fn run(plan: &mut WorkerPlan) -> Vec<SectorIndex> {
    let mut out = Vec::new();
    while let Some(c) = plan.next_sector() {
        out.push(c);
    }
    out
}

#[test]
fn single_worker_scans_whole_region() {
    let coords = run(&mut WorkerPlan::new(0, N_WORKERS));
    assert_eq!(coords.len(), REGION_LEN);
    assert_eq!(REGION_LEN, 441);
    assert_eq!(coords[0], SectorIndex(-10, -1, -10));
    assert_eq!(coords[1], SectorIndex(-10, -1, -9));
    assert_eq!(coords[21], SectorIndex(-9, -1, -10));
    assert_eq!(coords[440], SectorIndex(10, -1, 10));
    let unique: HashSet<SectorIndex> = coords.iter().copied().collect();
    assert_eq!(unique.len(), REGION_LEN);
}

#[test]
fn workers_share_region_without_overlap() {
    for n in [1usize, 2, 3, 4, 7, 441, 500] {
        let mut all = Vec::new();
        for w in 0..n {
            let mine = run(&mut WorkerPlan::new(w, n));
            all.extend(mine);
        }
        assert_eq!(all.len(), REGION_LEN);
        let unique: HashSet<SectorIndex> = all.iter().copied().collect();
        assert_eq!(unique.len(), REGION_LEN);
    }
}

#[test]
fn worker_plan_stays_exhausted() {
    let mut plan = WorkerPlan::new(2, 3);
    let first = plan.next_sector();
    assert_eq!(first, Some(SectorIndex(-10, -1, -8)));
    assert_eq!(plan.next_sector(), Some(SectorIndex(-10, -1, -5)));
    let rest = run(&mut plan);
    assert_eq!(rest.len(), 147 - 2);
    assert_eq!(plan.next_sector(), None);
    let mut idle = WorkerPlan::new(499, 500);
    assert_eq!(idle.next_sector(), None);
}

#[test]
fn superflat_layers() {
    let data = superflat_sector(SectorIndex(3, -1, 4));
    assert_eq!(*data.block(SectorCoords(5, 0, 5)), Block::Soil);
    assert_eq!(*data.block(SectorCoords(5, 13, 5)), Block::Soil);
    assert_eq!(*data.block(SectorCoords(5, 14, 5)), Block::Grass);
    assert_eq!(*data.block(SectorCoords(4, 14, 8)), Block::TestBlock);
    assert_eq!(*data.block(SectorCoords(0, 14, 0)), Block::TestBlock);
    assert_eq!(*data.block(SectorCoords(5, 15, 5)), Block::Air);
    let empty = superflat_sector(SectorIndex(0, 0, 0));
    assert_eq!(*empty.block(SectorCoords(5, 0, 5)), Block::Air);
}

#[test]
fn generated_sector_messages() {
    let info = AtlasInfo::new(256, 256).unwrap();
    let ground = generate_sector(SectorIndex(1, -1, 2), &info);
    assert_eq!(ground.world_pos, SectorIndex(1, -1, 2));
    let g = ground.pre_geometry.unwrap();
    // Only the tops of the grass layer at height 14 show: 14 by 14 faces.
    assert_eq!(g.vertices.len(), 196 * 4);
    assert_eq!(g.indices.len(), 196 * 6);
    let sky = generate_sector(SectorIndex(1, 0, 2), &info);
    assert!(sky.pre_geometry.is_none());
    assert_eq!(*sky.sector_data.block(SectorCoords(1, 1, 1)), Block::Air);
}

#[test]
fn sector_map_inserts_and_replaces() {
    let mut map: SectorMap<u32> = SectorMap::new();
    assert_eq!(map.len(), 0);
    assert!(map.get(SectorIndex(0, 0, 0)).is_none());
    let mut a: Sector<u32> = Sector::new();
    a.set_geometry(Some(7));
    map.insert(SectorIndex(0, 0, 0), a);
    map.insert(SectorIndex(1, 0, 0), Sector::test());
    assert_eq!(map.len(), 2);
    assert_eq!(map.get(SectorIndex(0, 0, 0)).unwrap().geometry(), Some(&7));
    assert!(map.get(SectorIndex(1, 0, 0)).unwrap().geometry().is_none());
    let mut b: Sector<u32> = Sector::with_data(SectorData::test());
    b.set_geometry(Some(9));
    map.insert(SectorIndex(0, 0, 0), b);
    assert_eq!(map.len(), 2);
    let replaced = map.get(SectorIndex(0, 0, 0)).unwrap();
    assert_eq!(*replaced.test_force_geometry(), 9);
    assert_eq!(*replaced.data().block(SectorCoords(2, 2, 2)), Block::Stone);
    let (k, _) = map.entry(1);
    assert_eq!(*k, SectorIndex(1, 0, 0));
}

#[test]
fn sector_geometry_from_its_data() {
    let info = AtlasInfo::new(16, 16).unwrap();
    let s: Sector<()> = Sector::test();
    let g = s.gen_geometry(&info).unwrap();
    assert_eq!(g.vertices.len(), 784);
    let air: Sector<()> = Sector::new();
    assert!(air.gen_geometry(&info).is_none());
}

#[test]
fn sector_origin_in_voxels() {
    assert_eq!(SectorIndex(-10, -1, 3).origin(), (-160, -16, 48));
    assert_eq!(SectorIndex(i32::MIN, 0, i32::MAX).origin(), (i32::MIN as i64 * 16, 0, i32::MAX as i64 * 16));
}
