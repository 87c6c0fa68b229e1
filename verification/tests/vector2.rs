use sky_labs::math::Vector2;

#[test]
fn test_vector2_addition_i32() {
    let v1 = Vector2::new(1i32, 2i32);
    let v2 = Vector2::new(3i32, 4i32);
    let result = v1 + v2;
    assert_eq!(result, Vector2::new(4i32, 6i32));
}

#[test]
fn test_vector2_addition_i64() {
    let v1 = Vector2::new(1i64, 2i64);
    let v2 = Vector2::new(3i64, 4i64);
    let result = v1 + v2;
    assert_eq!(result, Vector2::new(4i64, 6i64));
}

#[test]
fn test_vector2_addition_u32() {
    let v1 = Vector2::new(1u32, 2u32);
    let v2 = Vector2::new(3u32, 4u32);
    let result = v1 + v2;
    assert_eq!(result, Vector2::new(4u32, 6u32));
}

#[test]
fn test_vector2_addition_u64() {
    let v1 = Vector2::new(1u64, 2u64);
    let v2 = Vector2::new(3u64, 4u64);
    let result = v1 + v2;
    assert_eq!(result, Vector2::new(4u64, 6u64));
}

#[test]
fn test_vector2_subtraction_i32() {
    let v1 = Vector2::new(5i32, 6i32);
    let v2 = Vector2::new(2i32, 3i32);
    let result = v1 - v2;
    assert_eq!(result, Vector2::new(3i32, 3i32));
}

#[test]
fn test_vector2_subtraction_i64() {
    let v1 = Vector2::new(5i64, 6i64);
    let v2 = Vector2::new(2i64, 3i64);
    let result = v1 - v2;
    assert_eq!(result, Vector2::new(3i64, 3i64));
}

#[test]
fn test_vector2_subtraction_u32() {
    let v1 = Vector2::new(5u32, 6u32);
    let v2 = Vector2::new(2u32, 3u32);
    let result = v1 - v2;
    assert_eq!(result, Vector2::new(3u32, 3u32));
}

#[test]
fn test_vector2_subtraction_u64() {
    let v1 = Vector2::new(5u64, 6u64);
    let v2 = Vector2::new(2u64, 3u64);
    let result = v1 - v2;
    assert_eq!(result, Vector2::new(3u64, 3u64));
}

#[test]
fn test_vector2_multiplication_i32() {
    let v = Vector2::new(2i32, 3i32);
    let scalar = 2i32;
    let result = v * scalar;
    assert_eq!(result, Vector2::new(4i32, 6i32));
}

#[test]
fn test_vector2_multiplication_i64() {
    let v = Vector2::new(2i64, 3i64);
    let scalar = 2i64;
    let result = v * scalar;
    assert_eq!(result, Vector2::new(4i64, 6i64));
}

#[test]
fn test_vector2_multiplication_u32() {
    let v = Vector2::new(2u32, 3u32);
    let scalar = 2u32;
    let result = v * scalar;
    assert_eq!(result, Vector2::new(4u32, 6u32));
}

#[test]
fn test_vector2_multiplication_u64() {
    let v = Vector2::new(2u64, 3u64);
    let scalar = 2u64;
    let result = v * scalar;
    assert_eq!(result, Vector2::new(4u64, 6u64));
}

#[test]
fn test_vector2_division_i32() {
    let v = Vector2::new(4i32, 6i32);
    let scalar = 2i32;
    let result = v / scalar;
    assert_eq!(result, Vector2::new(2i32, 3i32));
}

#[test]
fn test_vector2_division_i64() {
    let v = Vector2::new(4i64, 6i64);
    let scalar = 2i64;
    let result = v / scalar;
    assert_eq!(result, Vector2::new(2i64, 3i64));
}

#[test]
fn test_vector2_division_u32() {
    let v = Vector2::new(4u32, 6u32);
    let scalar = 2u32;
    let result = v / scalar;
    assert_eq!(result, Vector2::new(2u32, 3u32));
}

#[test]
fn test_vector2_division_u64() {
    let v = Vector2::new(4u64, 6u64);
    let scalar = 2u64;
    let result = v / scalar;
    assert_eq!(result, Vector2::new(2u64, 3u64));
}

#[test]
fn test_vector2_division_rounds_toward_zero() {
    let v = Vector2::new(-3i32, 3i32);
    let result = v / 2i32;
    assert_eq!(result, Vector2::new(-1i32, 1i32));
}

#[test]
fn test_vector2_negation() {
    let v = Vector2::new(1i32, -2i32);
    assert_eq!(-v, Vector2::new(-1i32, 2i32));
}

#[test]
fn test_vector2_norm_squared() {
    assert_eq!(Vector2::new(3i32, 4i32).norm_squared(), 25i32);
    assert_eq!(Vector2::new(3u64, 4u64).norm_squared(), 25u64);
}

#[test]
fn test_vector2_dot_product_i32() {
    let v1 = Vector2::new(1i32, 2i32);
    let v2 = Vector2::new(3i32, 4i32);
    assert_eq!(v1.dot(v2), 11i32);
}

#[test]
fn test_vector2_taxicab_distance() {
    let v1 = Vector2::new(1i32, 5i32);
    let v2 = Vector2::new(4i32, 1i32);
    assert_eq!(v1.taxicab_distance(v2), 7i32);
    let u1 = Vector2::new(9u32, 2u32);
    let u2 = Vector2::new(4u32, 1u32);
    assert_eq!(u1.taxicab_distance(u2), 6u32);
}

#[test]
fn test_vector2_normalize_zero_is_noop() {
    let v = Vector2::new(0i32, 0i32);
    assert_eq!(v.normalize(), v);
}

#[test]
fn test_vector2_normalize_truncates() {
    // A non-zero vector none of whose components carries the whole squared
    // norm truncates to the zero vector.
    let v = Vector2::new(3i32, 4i32);
    assert_eq!(v.normalize(), Vector2::new(0i32, 0i32));
    // An axis vector keeps its direction.
    let a = Vector2::new(0i32, -7i32);
    assert_eq!(a.normalize(), Vector2::new(0i32, -1i32));
}

#[test]
fn test_vector2_normalize_idempotent() {
    let v = Vector2::new(-5i32, 12i32);
    assert_eq!(v.normalize().normalize(), v.normalize());
}

#[test]
fn test_vector2_index_and_set_index() {
    let mut v = Vector2::new(1i32, 2i32);
    assert_eq!(v.index(0), 1i32);
    assert_eq!(v.index(1), 2i32);
    v.set_index(0, 10i32);
    v.set_index(1, 20i32);
    assert_eq!(v, Vector2::new(10i32, 20i32));
}

#[test]
fn test_vector2_add_zero_is_identity() {
    let v = Vector2::new(17i32, -4i32);
    assert_eq!(v + Vector2::zero(), v);
}

#[test]
fn test_vector2_default_is_zero() {
    let v: Vector2<i32> = Default::default();
    assert_eq!(v, Vector2::zero());
}

#[test]
fn test_vector2_assign_ops() {
    let mut v = Vector2::new(1i32, 2i32);
    v.add_assign(Vector2::new(1i32, 1i32));
    assert_eq!(v, Vector2::new(2i32, 3i32));
    v.sub_assign(Vector2::new(1i32, 1i32));
    assert_eq!(v, Vector2::new(1i32, 2i32));
    v.mul_assign(2i32);
    assert_eq!(v, Vector2::new(2i32, 4i32));
    v.div_assign(2i32);
    assert_eq!(v, Vector2::new(1i32, 2i32));
}
