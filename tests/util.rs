use sandbox::maths::vector::{Vec2, Vec3, Vec4};
use sandbox::timing::Clock;
use sandbox::util::bool_vec::BoolVec;
use std::time::Duration;

#[test]
fn bits_set_and_clear() {
    let mut bytes = [0u8; 4];
    let field: &mut [u8] = &mut bytes;
    assert!(!field.bit(0));
    field.set_bit(0, true);
    field.set_bit(9, true);
    field.set_bit(31, true);
    assert!(field.bit(0));
    assert!(field.bit(9));
    assert!(field.bit(31));
    assert!(!field.bit(8));
    assert!(!field.bit(10));
    field.set_bit(9, false);
    assert!(!field.bit(9));
    assert!(field.bit(0));
    assert_eq!(bytes, [1, 0, 0, 128]);
}

#[test]
fn vectors_from_components() {
    assert_eq!(Vec2::new(1, 2), Vec2 { x: 1, y: 2 });
    assert_eq!(Vec2::from((1, 2)), Vec2 { x: 1, y: 2 });
    assert_eq!(Vec3::new(1, 2, 3), Vec3::from((1, 2, 3)));
    assert_eq!(Vec4::new('a', 'b', 'c', 'd'), Vec4::from(('a', 'b', 'c', 'd')));
    let v: Vec3<i32> = (1, 2, 3).into();
    assert_eq!(v.z, 3);
}

#[test]
fn clock_measures_and_restarts() {
    let mut clock = Clock::begin();
    while clock.elapsed() == Duration::ZERO {}
    let first = clock.restart();
    assert!(first > Duration::ZERO);
    assert!(clock.elapsed() < first + Duration::from_secs(3600));
}
