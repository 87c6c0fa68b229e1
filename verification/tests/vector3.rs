use sky_labs::math::Vector3;

#[test]
fn test_vector3_new() {
    let v = Vector3::new(1i32, 2i32, 3i32);
    assert_eq!(v.x, 1i32);
    assert_eq!(v.y, 2i32);
    assert_eq!(v.z, 3i32);
    let v = Vector3::new(1u32, 2u32, 3u32);
    assert_eq!(v.x, 1u32);
    assert_eq!(v.y, 2u32);
    assert_eq!(v.z, 3u32);
    let v = Vector3::new(1i64, 2i64, 3i64);
    assert_eq!(v.x, 1i64);
    assert_eq!(v.y, 2i64);
    assert_eq!(v.z, 3i64);
    let v = Vector3::new(1u64, 2u64, 3u64);
    assert_eq!(v.x, 1u64);
    assert_eq!(v.y, 2u64);
    assert_eq!(v.z, 3u64);
}

#[test]
fn test_vector3_zero() {
    let v = Vector3::<i32>::zero();
    assert_eq!(v.x, 0i32);
    assert_eq!(v.y, 0i32);
    assert_eq!(v.z, 0i32);
    let v = Vector3::<u64>::zero();
    assert_eq!(v.x, 0u64);
    assert_eq!(v.y, 0u64);
    assert_eq!(v.z, 0u64);
}

#[test]
fn test_vector3_default() {
    let v: Vector3<i32> = Default::default();
    assert_eq!(v.x, 0i32);
    assert_eq!(v.y, 0i32);
    assert_eq!(v.z, 0i32);
    let v: Vector3<u32> = Default::default();
    assert_eq!(v.x, 0u32);
    assert_eq!(v.y, 0u32);
    assert_eq!(v.z, 0u32);
}

#[test]
fn test_vector3_one() {
    let v = Vector3::<i32>::one();
    assert_eq!(v.x, 1i32);
    assert_eq!(v.y, 1i32);
    assert_eq!(v.z, 1i32);
    let v = Vector3::<u64>::one();
    assert_eq!(v.x, 1u64);
    assert_eq!(v.y, 1u64);
    assert_eq!(v.z, 1u64);
}

#[test]
fn test_vector3_add() {
    let v1 = Vector3::new(1i32, 2i32, 3i32);
    let v2 = Vector3::new(4i32, 5i32, 6i32);
    assert_eq!(v1 + v2, Vector3::new(5i32, 7i32, 9i32));
    let v1 = Vector3::new(1u32, 2u32, 3u32);
    let v2 = Vector3::new(4u32, 5u32, 6u32);
    assert_eq!(v1 + v2, Vector3::new(5u32, 7u32, 9u32));
    let v1 = Vector3::new(1i64, 2i64, 3i64);
    let v2 = Vector3::new(4i64, 5i64, 6i64);
    assert_eq!(v1 + v2, Vector3::new(5i64, 7i64, 9i64));
    let v1 = Vector3::new(1u64, 2u64, 3u64);
    let v2 = Vector3::new(4u64, 5u64, 6u64);
    assert_eq!(v1 + v2, Vector3::new(5u64, 7u64, 9u64));
}

#[test]
fn test_vector3_sub() {
    let v1 = Vector3::new(5i32, 7i32, 9i32);
    let v2 = Vector3::new(1i32, 2i32, 3i32);
    assert_eq!(v1 - v2, Vector3::new(4i32, 5i32, 6i32));
    let v1 = Vector3::new(5u32, 7u32, 9u32);
    let v2 = Vector3::new(1u32, 2u32, 3u32);
    assert_eq!(v1 - v2, Vector3::new(4u32, 5u32, 6u32));
    let v1 = Vector3::new(5i64, 7i64, 9i64);
    let v2 = Vector3::new(1i64, 2i64, 3i64);
    assert_eq!(v1 - v2, Vector3::new(4i64, 5i64, 6i64));
    let v1 = Vector3::new(5u64, 7u64, 9u64);
    let v2 = Vector3::new(1u64, 2u64, 3u64);
    assert_eq!(v1 - v2, Vector3::new(4u64, 5u64, 6u64));
}

#[test]
fn test_vector3_dot() {
    let v1 = Vector3::new(1i32, 2i32, 3i32);
    let v2 = Vector3::new(4i32, 5i32, 6i32);
    assert_eq!(v1.dot(&v2), 32i32);
    let v1 = Vector3::new(1u32, 2u32, 3u32);
    let v2 = Vector3::new(4u32, 5u32, 6u32);
    assert_eq!(v1.dot(&v2), 32u32);
    let v1 = Vector3::new(1i64, 2i64, 3i64);
    let v2 = Vector3::new(4i64, 5i64, 6i64);
    assert_eq!(v1.dot(&v2), 32i64);
    let v1 = Vector3::new(1u64, 2u64, 3u64);
    let v2 = Vector3::new(4u64, 5u64, 6u64);
    assert_eq!(v1.dot(&v2), 32u64);
}

#[test]
fn test_vector3_scalar_multiplication_signed_types() {
    let v = Vector3::new(1i32, -2i32, 3i32);
    assert_eq!(v * 2i32, Vector3::new(2i32, -4i32, 6i32));
    assert_eq!(v / 2i32, Vector3::new(0i32, -1i32, 1i32));
    let v = Vector3::new(1i64, -2i64, 3i64);
    assert_eq!(v * 2i64, Vector3::new(2i64, -4i64, 6i64));
    assert_eq!(v / 2i64, Vector3::new(0i64, -1i64, 1i64));
}

#[test]
fn test_vector3_scalar_multiplication_unsigned() {
    // u32 and u64 do not support negative values, so we only test multiplication separately
    let v = Vector3::new(1u32, 2u32, 3u32);
    let result = v * 2u32;
    let expected = Vector3::new(2u32, 4u32, 6u32);
    assert_eq!(result, expected);
    let result_div = v / 2u32;
    let expected_div = Vector3::new(0u32, 1u32, 1u32);
    assert_eq!(result_div, expected_div);

    // for u64
    let v = Vector3::new(1u64, 2u64, 3u64);
    let result = v * 2u64;
    let expected = Vector3::new(2u64, 4u64, 6u64);
    assert_eq!(result, expected);
    let result_div = v / 2u64;
    let expected_div = Vector3::new(0u64, 1u64, 1u64);
    assert_eq!(result_div, expected_div);
}

#[test]
fn test_vector3_cross() {
    let v1 = Vector3::new(1i32, 0i32, 0i32);
    let v2 = Vector3::new(0i32, 1i32, 0i32);
    assert_eq!(v1.cross(&v2), Vector3::new(0i32, 0i32, 1i32));
    let v1 = Vector3::new(1u32, 0u32, 0u32);
    let v2 = Vector3::new(0u32, 1u32, 0u32);
    assert_eq!(v1.cross(&v2), Vector3::new(0u32, 0u32, 1u32));
    let v1 = Vector3::new(1i64, 0i64, 0i64);
    let v2 = Vector3::new(0i64, 1i64, 0i64);
    assert_eq!(v1.cross(&v2), Vector3::new(0i64, 0i64, 1i64));
    let v1 = Vector3::new(1u64, 0u64, 0u64);
    let v2 = Vector3::new(0u64, 1u64, 0u64);
    assert_eq!(v1.cross(&v2), Vector3::new(0u64, 0u64, 1u64));
}

#[test]
fn test_vector3_cross_is_orthogonal() {
    let a = Vector3::new(2i32, -3i32, 5i32);
    let b = Vector3::new(7i32, 1i32, -4i32);
    let c = a.cross(&b);
    assert_eq!(c.dot(&a), 0i32);
    assert_eq!(c.dot(&b), 0i32);
}

#[test]
fn test_vector3_norm_squared() {
    assert_eq!(Vector3::new(1i32, 2i32, 2i32).norm_squared(), 9i32);
    assert_eq!(Vector3::new(3u64, 4u64, 12u64).norm_squared(), 169u64);
}

#[test]
fn test_vector3_taxicab_distance() {
    let v1 = Vector3::new(1i32, 5i32, -2i32);
    let v2 = Vector3::new(4i32, 1i32, 2i32);
    assert_eq!(v1.taxicab_distance(&v2), 11i32);
    let u1 = Vector3::new(9u32, 2u32, 5u32);
    let u2 = Vector3::new(4u32, 1u32, 3u32);
    assert_eq!(u1.taxicab_distance(&u2), 8u32);
}

#[test]
fn test_vector3_normalize_zero_is_noop() {
    let v = Vector3::new(0i32, 0i32, 0i32);
    assert_eq!(v.normalize(), v);
}

#[test]
fn test_vector3_normalize_truncates() {
    let v = Vector3::new(1i32, 2i32, 2i32);
    assert_eq!(v.normalize(), Vector3::new(0i32, 0i32, 0i32));
    let a = Vector3::new(0i32, 0i32, 9i32);
    assert_eq!(a.normalize(), Vector3::new(0i32, 0i32, 1i32));
    let n = Vector3::new(-4i32, 0i32, 0i32);
    assert_eq!(n.normalize(), Vector3::new(-1i32, 0i32, 0i32));
}

#[test]
fn test_vector3_normalize_idempotent() {
    let v = Vector3::new(1i32, -2i32, 2i32);
    assert_eq!(v.normalize().normalize(), v.normalize());
    let a = Vector3::new(0i64, -6i64, 0i64);
    assert_eq!(a.normalize().normalize(), a.normalize());
}

#[test]
fn test_vector3_negation() {
    let v = Vector3::new(1i32, -2i32, 3i32);
    assert_eq!(-v, Vector3::new(-1i32, 2i32, -3i32));
}

#[test]
fn test_vector3_index_and_set_index() {
    let mut v = Vector3::new(1i32, 2i32, 3i32);
    assert_eq!(v.index(0), 1i32);
    assert_eq!(v.index(1), 2i32);
    assert_eq!(v.index(2), 3i32);
    v.set_index(2, 30i32);
    assert_eq!(v, Vector3::new(1i32, 2i32, 30i32));
}

#[test]
fn test_vector3_add_zero_is_identity() {
    let v = Vector3::new(17i32, -4i32, 9i32);
    assert_eq!(v + Vector3::zero(), v);
}

#[test]
fn test_vector3_assign_ops() {
    let mut v = Vector3::new(1i32, 2i32, 3i32);
    v.add_assign(Vector3::new(1i32, 1i32, 1i32));
    assert_eq!(v, Vector3::new(2i32, 3i32, 4i32));
    v.sub_assign(Vector3::new(1i32, 1i32, 1i32));
    assert_eq!(v, Vector3::new(1i32, 2i32, 3i32));
    v.mul_assign(2i32);
    assert_eq!(v, Vector3::new(2i32, 4i32, 6i32));
    v.div_assign(2i32);
    assert_eq!(v, Vector3::new(1i32, 2i32, 3i32));
}
