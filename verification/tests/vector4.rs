use sky_labs::math::Vector3;
use sky_labs::math::Vector4;

#[test]
fn test_vector4_new() {
    let v = Vector4::new(1i32, 2i32, 3i32, 4i32);
    assert_eq!(v.x, 1i32);
    assert_eq!(v.y, 2i32);
    assert_eq!(v.z, 3i32);
    assert_eq!(v.w, 4i32);
    let v = Vector4::new(1u32, 2u32, 3u32, 4u32);
    assert_eq!(v.x, 1u32);
    assert_eq!(v.y, 2u32);
    assert_eq!(v.z, 3u32);
    assert_eq!(v.w, 4u32);
    let v = Vector4::new(1i64, 2i64, 3i64, 4i64);
    assert_eq!(v.x, 1i64);
    assert_eq!(v.y, 2i64);
    assert_eq!(v.z, 3i64);
    assert_eq!(v.w, 4i64);
    let v = Vector4::new(1u64, 2u64, 3u64, 4u64);
    assert_eq!(v.x, 1u64);
    assert_eq!(v.y, 2u64);
    assert_eq!(v.z, 3u64);
    assert_eq!(v.w, 4u64);
}

#[test]
fn test_vector4_zero() {
    let v = Vector4::<i32>::zero();
    assert_eq!(v.x, 0i32);
    assert_eq!(v.y, 0i32);
    assert_eq!(v.z, 0i32);
    assert_eq!(v.w, 0i32);
    let v = Vector4::<u64>::zero();
    assert_eq!(v.x, 0u64);
    assert_eq!(v.y, 0u64);
    assert_eq!(v.z, 0u64);
    assert_eq!(v.w, 0u64);
}

#[test]
fn test_vector4_default() {
    let v: Vector4<i32> = Default::default();
    assert_eq!(v.x, 0i32);
    assert_eq!(v.y, 0i32);
    assert_eq!(v.z, 0i32);
    assert_eq!(v.w, 0i32);
    let v: Vector4<u32> = Default::default();
    assert_eq!(v.x, 0u32);
    assert_eq!(v.y, 0u32);
    assert_eq!(v.z, 0u32);
    assert_eq!(v.w, 0u32);
}

#[test]
fn test_vector4_one() {
    let v = Vector4::<i32>::one();
    assert_eq!(v.x, 1i32);
    assert_eq!(v.y, 1i32);
    assert_eq!(v.z, 1i32);
    assert_eq!(v.w, 1i32);
    let v = Vector4::<u64>::one();
    assert_eq!(v.x, 1u64);
    assert_eq!(v.y, 1u64);
    assert_eq!(v.z, 1u64);
    assert_eq!(v.w, 1u64);
}

#[test]
fn test_vector4_add() {
    let v1 = Vector4::new(1i32, 2i32, 3i32, 4i32);
    let v2 = Vector4::new(4i32, 5i32, 6i32, 7i32);
    assert_eq!(v1 + v2, Vector4::new(5i32, 7i32, 9i32, 11i32));
    let v1 = Vector4::new(1u32, 2u32, 3u32, 4u32);
    let v2 = Vector4::new(4u32, 5u32, 6u32, 7u32);
    assert_eq!(v1 + v2, Vector4::new(5u32, 7u32, 9u32, 11u32));
    let v1 = Vector4::new(1i64, 2i64, 3i64, 4i64);
    let v2 = Vector4::new(4i64, 5i64, 6i64, 7i64);
    assert_eq!(v1 + v2, Vector4::new(5i64, 7i64, 9i64, 11i64));
    let v1 = Vector4::new(1u64, 2u64, 3u64, 4u64);
    let v2 = Vector4::new(4u64, 5u64, 6u64, 7u64);
    assert_eq!(v1 + v2, Vector4::new(5u64, 7u64, 9u64, 11u64));
}

#[test]
fn test_vector4_sub() {
    let v1 = Vector4::new(5i32, 7i32, 9i32, 11i32);
    let v2 = Vector4::new(1i32, 2i32, 3i32, 4i32);
    assert_eq!(v1 - v2, Vector4::new(4i32, 5i32, 6i32, 7i32));
    let v1 = Vector4::new(5u32, 7u32, 9u32, 11u32);
    let v2 = Vector4::new(1u32, 2u32, 3u32, 4u32);
    assert_eq!(v1 - v2, Vector4::new(4u32, 5u32, 6u32, 7u32));
    let v1 = Vector4::new(5i64, 7i64, 9i64, 11i64);
    let v2 = Vector4::new(1i64, 2i64, 3i64, 4i64);
    assert_eq!(v1 - v2, Vector4::new(4i64, 5i64, 6i64, 7i64));
    let v1 = Vector4::new(5u64, 7u64, 9u64, 11u64);
    let v2 = Vector4::new(1u64, 2u64, 3u64, 4u64);
    assert_eq!(v1 - v2, Vector4::new(4u64, 5u64, 6u64, 7u64));
}

#[test]
fn test_vector4_dot() {
    // 1*4 + 2*5 + 3*6 + 4*7 = 4 + 10 + 18 + 28 = 60
    let v1 = Vector4::new(1i32, 2i32, 3i32, 4i32);
    let v2 = Vector4::new(4i32, 5i32, 6i32, 7i32);
    assert_eq!(v1.dot(&v2), 60i32);
    let v1 = Vector4::new(1u32, 2u32, 3u32, 4u32);
    let v2 = Vector4::new(4u32, 5u32, 6u32, 7u32);
    assert_eq!(v1.dot(&v2), 60u32);
    let v1 = Vector4::new(1i64, 2i64, 3i64, 4i64);
    let v2 = Vector4::new(4i64, 5i64, 6i64, 7i64);
    assert_eq!(v1.dot(&v2), 60i64);
    let v1 = Vector4::new(1u64, 2u64, 3u64, 4u64);
    let v2 = Vector4::new(4u64, 5u64, 6u64, 7u64);
    assert_eq!(v1.dot(&v2), 60u64);
}

#[test]
fn test_vector4_neg() {
    let v = Vector4::new(1i32, -2i32, 3i32, -4i32);
    let result = -v;
    assert_eq!(result.x, -v.x);
    assert_eq!(result.y, -v.y);
    assert_eq!(result.z, -v.z);
    assert_eq!(result.w, -v.w);
    let v = Vector4::new(1i64, -2i64, 3i64, -4i64);
    let result = -v;
    assert_eq!(result.x, -v.x);
    assert_eq!(result.y, -v.y);
    assert_eq!(result.z, -v.z);
    assert_eq!(result.w, -v.w);
}

#[test]
fn test_vector4_scalar_multiplication_signed_types() {
    let v = Vector4::new(1i32, -2i32, 3i32, -4i32);
    assert_eq!(v * 2i32, Vector4::new(2i32, -4i32, 6i32, -8i32));
    assert_eq!(v / 2i32, Vector4::new(0i32, -1i32, 1i32, -2i32));
    let v = Vector4::new(1i64, -2i64, 3i64, -4i64);
    assert_eq!(v * 2i64, Vector4::new(2i64, -4i64, 6i64, -8i64));
    assert_eq!(v / 2i64, Vector4::new(0i64, -1i64, 1i64, -2i64));
}

#[test]
fn test_vector4_scalar_multiplication_unsigned() {
    // u32 and u64 do not support negative values, so we only test multiplication separately
    let v = Vector4::new(1u32, 2u32, 3u32, 4u32);
    let result = v * 2u32;
    let expected = Vector4::new(2u32, 4u32, 6u32, 8u32);
    assert_eq!(result, expected);
    let result_div = v / 2u32;
    let expected_div = Vector4::new(0u32, 1u32, 1u32, 2u32);
    assert_eq!(result_div, expected_div);

    // for u64
    let v = Vector4::new(1u64, 2u64, 3u64, 4u64);
    let result = v * 2u64;
    let expected = Vector4::new(2u64, 4u64, 6u64, 8u64);
    assert_eq!(result, expected);
    let result_div = v / 2u64;
    let expected_div = Vector4::new(0u64, 1u64, 1u64, 2u64);
    assert_eq!(result_div, expected_div);
}

#[test]
fn test_vector4_assign_ops() {
    let mut v = Vector4::new(1i32, 2i32, 3i32, 4i32);
    v.add_assign(Vector4::new(1i32, 1i32, 1i32, 1i32));
    assert_eq!(v, Vector4::new(2i32, 3i32, 4i32, 5i32));

    v.sub_assign(Vector4::new(1i32, 1i32, 1i32, 1i32));
    assert_eq!(v, Vector4::new(1i32, 2i32, 3i32, 4i32));

    v.mul_assign(2i32);
    assert_eq!(v, Vector4::new(2i32, 4i32, 6i32, 8i32));

    v.div_assign(2i32);
    assert_eq!(v, Vector4::new(1i32, 2i32, 3i32, 4i32));
}

#[test]
fn test_vector4_indexing() {
    let mut v = Vector4::new(1i32, 2i32, 3i32, 4i32);
    assert_eq!(v.index(0), 1i32);
    assert_eq!(v.index(1), 2i32);
    assert_eq!(v.index(2), 3i32);
    assert_eq!(v.index(3), 4i32);
    v.set_index(0, 10i32);
    v.set_index(1, 20i32);
    v.set_index(2, 30i32);
    v.set_index(3, 40i32);
    assert_eq!(v.x, 10i32);
    assert_eq!(v.y, 20i32);
    assert_eq!(v.z, 30i32);
    assert_eq!(v.w, 40i32);
}

#[test]
fn test_vector4_from_array_and_to_array() {
    let arr = [1i32, 2i32, 3i32, 4i32];
    let v = Vector4::from_array(arr);
    let out = v.to_array();
    assert_eq!(out, arr);
    let arr = [1u64, 2u64, 3u64, 4u64];
    let v = Vector4::from_array(arr);
    let out = v.to_array();
    assert_eq!(out, arr);
}

#[test]
fn test_vector4_from_slice() {
    let slice: [i32; 4] = [1i32, 2i32, 3i32, 4i32];
    let v = Vector4::from_slice(&slice);
    let expected = Vector4::new(1i32, 2i32, 3i32, 4i32);
    assert_eq!(v, expected);
    let slice: [u32; 4] = [1u32, 2u32, 3u32, 4u32];
    let v = Vector4::from_slice(&slice);
    let expected = Vector4::new(1u32, 2u32, 3u32, 4u32);
    assert_eq!(v, expected);
}

#[test]
fn test_vector4_from_vector3() {
    let v3 = Vector3::new(1i32, 2i32, 3i32);
    let v4 = Vector4::from_vector3(&v3, 4i32);
    assert_eq!(v4.x, 1i32);
    assert_eq!(v4.y, 2i32);
    assert_eq!(v4.z, 3i32);
    assert_eq!(v4.w, 4i32);
    let v3 = Vector3::new(1u64, 2u64, 3u64);
    let v4 = Vector4::from_vector3(&v3, 4u64);
    assert_eq!(v4.x, 1u64);
    assert_eq!(v4.y, 2u64);
    assert_eq!(v4.z, 3u64);
    assert_eq!(v4.w, 4u64);
}

#[test]
fn test_vector4_add_zero_is_identity() {
    let v = Vector4::new(17i32, -4i32, 9i32, 5i32);
    assert_eq!(v + Vector4::zero(), v);
}
