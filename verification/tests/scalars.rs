use sky_labs::math::CircularInterval;
use sky_labs::math::Direction;
use sky_labs::math::Size;
use sky_labs::math::Vector2;

#[test]
fn test_circulate_around_inside_interval() {
    assert_eq!(5i32.circulate_around(0i32, 10i32), 5i32);
    assert_eq!(7u32.circulate_around(0u32, 10u32), 7u32);
    assert_eq!(0i64.circulate_around(0i64, 10i64), 0i64);
    assert_eq!(10u64.circulate_around(0u64, 10u64), 10u64);
}

#[test]
fn test_circulate_around_below_interval() {
    // A value below the lower limit comes back from the upper limit by its
    // own magnitude.
    assert_eq!((-3i32).circulate_around(0i32, 10i32), 7i32);
    assert_eq!(1i64.circulate_around(2i64, 10i64), 9i64);
    assert_eq!(1u32.circulate_around(2u32, 10u32), 9u32);
}

#[test]
fn test_circulate_around_above_interval() {
    // A value above the upper limit comes back from the lower limit by the
    // excess.
    assert_eq!(12i32.circulate_around(0i32, 10i32), 2i32);
    assert_eq!(11u64.circulate_around(0u64, 10u64), 1u64);
    assert_eq!(15i64.circulate_around(-10i64, 10i64), -5i64);
}

#[test]
fn test_size_from_vector2() {
    let point = Vector2::new(640u32, 480u32);
    let size: Size<u32> = point.into();
    assert_eq!(size.width, 640u32);
    assert_eq!(size.height, 480u32);
    let size: Size<u32> = Size::from(Vector2::new(3u32, 4u32));
    assert_eq!(size.width, 3u32);
    assert_eq!(size.height, 4u32);
}

#[test]
fn test_size_default_is_empty() {
    let size: Size<i64> = Default::default();
    assert_eq!(size.width, 0i64);
    assert_eq!(size.height, 0i64);
}

#[test]
fn test_direction_ordering() {
    assert!(Direction::North < Direction::East);
    assert!(Direction::East < Direction::South);
    assert!(Direction::South < Direction::West);
    assert_eq!(Direction::North, Direction::North);
    assert_ne!(Direction::North, Direction::South);
}

#[test]
fn test_vector_ops_near_type_bounds() {
    let v = Vector2::new(i32::MAX - 1, i32::MIN + 1);
    let r = v + Vector2::new(1i32, -1i32);
    assert_eq!(r, Vector2::new(i32::MAX, i32::MIN));
    let back = r - Vector2::new(1i32, -1i32);
    assert_eq!(back, v);
}

#[test]
fn test_vector_division_by_negative_scalar() {
    let v = Vector2::new(7i32, -7i32);
    assert_eq!(v / -2i32, Vector2::new(-3i32, 3i32));
}
