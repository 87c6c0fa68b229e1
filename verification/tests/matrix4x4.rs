use sky_labs::math::Matrix4x4;
use sky_labs::math::Vector4;

#[test]
fn test_matrix4x4_identity_all_types() {
    let identity = Matrix4x4::<i32>::identity();
    for i in 0..4usize {
        for j in 0..4usize {
            let expected = if i == j { 1i32 } else { 0i32 };
            assert_eq!(identity.index(i).index(j), expected);
        }
    }
    let identity = Matrix4x4::<i64>::identity();
    for i in 0..4usize {
        for j in 0..4usize {
            let expected = if i == j { 1i64 } else { 0i64 };
            assert_eq!(identity.index(i).index(j), expected);
        }
    }
}

#[test]
fn test_matrix4x4_addition_all_types() {
    let a = Matrix4x4::from_mat([
        [1i32, 2, 3, 4],
        [5, 6, 7, 8],
        [9, 10, 11, 12],
        [13, 14, 15, 16],
    ]);
    let b = Matrix4x4::from_mat([
        [19i32, 18, 17, 16],
        [15, 14, 13, 12],
        [11, 10, 9, 8],
        [7, 6, 5, 4],
    ]);
    let result = a + b;
    for i in 0..4usize {
        for j in 0..4usize {
            assert_eq!(result.index(i).index(j), 20i32);
        }
    }
    let a = Matrix4x4::from_mat([
        [1i64, 2, 3, 4],
        [5, 6, 7, 8],
        [9, 10, 11, 12],
        [13, 14, 15, 16],
    ]);
    let b = Matrix4x4::from_mat([
        [19i64, 18, 17, 16],
        [15, 14, 13, 12],
        [11, 10, 9, 8],
        [7, 6, 5, 4],
    ]);
    let result = a + b;
    for i in 0..4usize {
        for j in 0..4usize {
            assert_eq!(result.index(i).index(j), 20i64);
        }
    }
}

#[test]
fn test_matrix4x4_multiplication_all_types() {
    let a = Matrix4x4::from_mat([
        [1i32, 2, 3, 0],
        [0, 1, 0, 0],
        [4, 5, 6, 0],
        [0, 7, 0, 8],
    ]);
    let b = Matrix4x4::from_mat([
        [7i32, 8, 9, 0],
        [0, 1, 0, 0],
        [1, 2, 3, 0],
        [0, 0, 0, 1],
    ]);
    let expected = Matrix4x4::from_mat([
        [10i32, 16, 18, 0],
        [0, 1, 0, 0],
        [34, 49, 54, 0],
        [0, 7, 0, 8],
    ]);
    assert_eq!(a * b, expected);
    let a = Matrix4x4::from_mat([
        [1i64, 2, 3, 0],
        [0, 1, 0, 0],
        [4, 5, 6, 0],
        [0, 7, 0, 8],
    ]);
    let b = Matrix4x4::from_mat([
        [7i64, 8, 9, 0],
        [0, 1, 0, 0],
        [1, 2, 3, 0],
        [0, 0, 0, 1],
    ]);
    let expected = Matrix4x4::from_mat([
        [10i64, 16, 18, 0],
        [0, 1, 0, 0],
        [34, 49, 54, 0],
        [0, 7, 0, 8],
    ]);
    assert_eq!(a * b, expected);
}

#[test]
fn test_matrix4x4_transpose_all_types() {
    let m = Matrix4x4::from_mat([
        [1i32, 2, 3, 4],
        [5, 6, 7, 8],
        [9, 10, 11, 12],
        [13, 14, 15, 16],
    ]);
    let expected = Matrix4x4::from_mat([
        [1i32, 5, 9, 13],
        [2, 6, 10, 14],
        [3, 7, 11, 15],
        [4, 8, 12, 16],
    ]);
    assert_eq!(m.transpose(), expected);
    let m = Matrix4x4::from_mat([
        [1i64, 2, 3, 4],
        [5, 6, 7, 8],
        [9, 10, 11, 12],
        [13, 14, 15, 16],
    ]);
    let expected = Matrix4x4::from_mat([
        [1i64, 5, 9, 13],
        [2, 6, 10, 14],
        [3, 7, 11, 15],
        [4, 8, 12, 16],
    ]);
    assert_eq!(m.transpose(), expected);
}

#[test]
fn test_matrix4x4_transpose_involution() {
    let m = Matrix4x4::from_mat([
        [1i32, -2, 3, -4],
        [5, 0, 7, 8],
        [-9, 10, 11, 12],
        [13, 14, 0, 16],
    ]);
    assert_eq!(m.transpose().transpose(), m);
}

#[test]
fn test_matrix4x4_determinant_all_types() {
    let m = Matrix4x4::from_mat([
        [1i32, 2, 3, 4],
        [5, 6, 7, 8],
        [9, 10, 11, 12],
        [13, 14, 15, 16],
    ]);
    assert_eq!(m.determinant(), 0i32);
    let m = Matrix4x4::from_mat([
        [1i64, 2, 3, 4],
        [5, 6, 7, 8],
        [9, 10, 11, 12],
        [13, 14, 15, 16],
    ]);
    assert_eq!(m.determinant(), 0i64);
}

#[test]
fn test_matrix4x4_determinant_concrete() {
    let m = Matrix4x4::from_mat([
        [2i32, 0, 0, 0],
        [0, 3, 0, 0],
        [0, 0, 5, 0],
        [0, 0, 0, 7],
    ]);
    assert_eq!(m.determinant(), 210i32);
}

#[test]
fn test_matrix4x4_inverse_identity_all_types() {
    let identity = Matrix4x4::<i32>::identity();
    let inv = identity.inverse().unwrap();
    assert_eq!(inv, identity);
    let identity = Matrix4x4::<i64>::identity();
    let inv = identity.inverse().unwrap();
    assert_eq!(inv, identity);
}

#[test]
fn test_matrix4x4_inverse_known_matrix_all_types() {
    // The upper block has determinant one, so the whole matrix does, and
    // its inverse is exact even over the integers.
    let m = Matrix4x4::from_mat([
        [1i32, 2, 3, 0],
        [0, 1, 4, 0],
        [5, 6, 0, 0],
        [0, 0, 0, 1],
    ]);
    let inv = m.inverse().unwrap();
    let prod = m * inv;
    assert_eq!(prod, Matrix4x4::<i32>::identity());
    let m = Matrix4x4::from_mat([
        [1i64, 2, 3, 0],
        [0, 1, 4, 0],
        [5, 6, 0, 0],
        [0, 0, 0, 1],
    ]);
    let inv = m.inverse().unwrap();
    let prod = m * inv;
    assert_eq!(prod, Matrix4x4::<i64>::identity());
}

#[test]
fn test_matrix4x4_inverse_non_invertible_all_types() {
    let m = Matrix4x4::from_mat([
        [1i32, 2, 3, 4],
        [5, 6, 7, 8],
        [9, 10, 11, 12],
        [13, 14, 15, 16],
    ]);
    assert!(m.inverse().is_none());
    let m = Matrix4x4::from_mat([
        [1i64, 2, 3, 4],
        [5, 6, 7, 8],
        [9, 10, 11, 12],
        [13, 14, 15, 16],
    ]);
    assert!(m.inverse().is_none());
}

#[test]
fn test_matrix4x4_inverse_with_translation_row() {
    // An affine transform with a translation column and determinant one.
    let m = Matrix4x4::from_mat([
        [1i32, 0, 0, 3],
        [0, 1, 0, -4],
        [0, 0, 1, 5],
        [0, 0, 0, 1],
    ]);
    assert_eq!(m.determinant(), 1i32);
    let inv = m.inverse().unwrap();
    let expected = Matrix4x4::from_mat([
        [1i32, 0, 0, -3],
        [0, 1, 0, 4],
        [0, 0, 1, -5],
        [0, 0, 0, 1],
    ]);
    assert_eq!(inv, expected);
    assert_eq!(m * inv, Matrix4x4::<i32>::identity());
}

#[test]
fn test_matrix4x4_mul_identity_is_identity() {
    let m = Matrix4x4::from_mat([
        [1i32, 2, 3, 4],
        [5, 6, 7, 8],
        [9, 10, 11, 12],
        [13, 14, 15, 16],
    ]);
    assert_eq!(m * Matrix4x4::identity(), m);
    assert_eq!(Matrix4x4::identity() * m, m);
}

#[test]
fn test_matrix4x4_mul_vector() {
    let m = Matrix4x4::from_mat([
        [1i32, 0, 0, 3],
        [0, 1, 0, -4],
        [0, 0, 1, 5],
        [0, 0, 0, 1],
    ]);
    let point = Vector4::new(1i32, 2i32, 3i32, 1i32);
    assert_eq!(m * point, Vector4::new(4i32, -2i32, 8i32, 1i32));
    let row = Vector4::new(1i32, 0i32, 0i32, 0i32);
    assert_eq!(row * m, Vector4::new(1i32, 0i32, 0i32, 3i32));
}

#[test]
fn test_matrix4x4_scalar_ops() {
    let m = Matrix4x4::from_mat([
        [1i32, -2, 3, -4],
        [5, 6, -7, 8],
        [9, -10, 11, 12],
        [-13, 14, 15, 16],
    ]);
    let doubled = m * 2i32;
    assert_eq!(doubled.index(0).index(0), 2i32);
    assert_eq!(doubled.index(3).index(0), -26i32);
    let diff = doubled - m;
    assert_eq!(diff, m);
}

#[test]
fn test_matrix4x4_conversions_round_trip() {
    let arr = [1i32, 2, 3, 4, 5, 6, 7, 8, 9, 10, 11, 12, 13, 14, 15, 16];
    let m = Matrix4x4::from_array(arr);
    assert_eq!(m.to_array(), arr);
    let nested = m.to_mat();
    assert_eq!(Matrix4x4::from_mat(nested), m);
    let again = Matrix4x4::from_slice(&arr);
    assert_eq!(again, m);
    assert_eq!(Matrix4x4::from_array(m.to_array()), m);
}

#[test]
fn test_matrix4x4_new_rows_and_set_row() {
    let rows = [
        Vector4::new(1i32, 2i32, 3i32, 4i32),
        Vector4::new(5i32, 6i32, 7i32, 8i32),
        Vector4::new(9i32, 10i32, 11i32, 12i32),
        Vector4::new(13i32, 14i32, 15i32, 16i32),
    ];
    let mut m = Matrix4x4::new(rows);
    assert_eq!(*m.rows(), rows);
    assert_eq!(m.index(2), rows[2]);
    m.set_row(2, Vector4::zero());
    assert_eq!(m.index(2), Vector4::zero());
    assert_eq!(m.index(0), rows[0]);
    assert_eq!(m.index(3), rows[3]);
}

#[test]
fn test_matrix4x4_assign_ops() {
    let mut m = Matrix4x4::<i32>::identity();
    m.add_assign(Matrix4x4::identity());
    m.mul_assign(3i32);
    assert_eq!(m.index(0).index(0), 6i32);
    m.sub_assign(Matrix4x4::identity());
    assert_eq!(m.index(0).index(0), 5i32);
    assert_eq!(m.index(0).index(1), 0i32);
}

#[test]
fn test_matrix4x4_rows_mut() {
    let mut m = Matrix4x4::<i32>::identity();
    {
        let rows = m.rows_mut();
        rows[3] = Vector4::new(1i32, 2i32, 3i32, 4i32);
    }
    assert_eq!(m.index(3), Vector4::new(1i32, 2i32, 3i32, 4i32));
    assert_eq!(m.index(0), Vector4::new(1i32, 0i32, 0i32, 0i32));
}

#[test]
fn test_matrix4x4_inverse_negative_unit_determinant() {
    // Swapping two rows of a determinant-one matrix gives determinant minus
    // one; the inverse is still exact and the product is the identity.
    let m = Matrix4x4::from_mat([
        [0i32, 1, 4, 0],
        [1, 2, 3, 0],
        [5, 6, 0, 0],
        [0, 0, 0, 1],
    ]);
    assert_eq!(m.determinant(), -1i32);
    let inv = m.inverse().unwrap();
    assert_eq!(m * inv, Matrix4x4::<i32>::identity());
}
