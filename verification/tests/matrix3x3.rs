use sky_labs::math::Matrix3x3;
use sky_labs::math::Vector3;

#[test]
fn test_matrix3x3_identity_all_types() {
    let identity = Matrix3x3::<i32>::identity();
    assert_eq!(identity.index(0).index(0), 1i32);
    assert_eq!(identity.index(1).index(1), 1i32);
    assert_eq!(identity.index(2).index(2), 1i32);
    assert_eq!(identity.index(0).index(1), 0i32);
    assert_eq!(identity.index(0).index(2), 0i32);
    assert_eq!(identity.index(1).index(0), 0i32);
    assert_eq!(identity.index(1).index(2), 0i32);
    assert_eq!(identity.index(2).index(0), 0i32);
    assert_eq!(identity.index(2).index(1), 0i32);
    let identity = Matrix3x3::<i64>::identity();
    assert_eq!(identity.index(0).index(0), 1i64);
    assert_eq!(identity.index(1).index(1), 1i64);
    assert_eq!(identity.index(2).index(2), 1i64);
    assert_eq!(identity.index(0).index(1), 0i64);
    assert_eq!(identity.index(0).index(2), 0i64);
    assert_eq!(identity.index(1).index(0), 0i64);
    assert_eq!(identity.index(1).index(2), 0i64);
    assert_eq!(identity.index(2).index(0), 0i64);
    assert_eq!(identity.index(2).index(1), 0i64);
}

#[test]
fn test_matrix3x3_addition_all_types() {
    let a = Matrix3x3::from_mat([[1i32, 2, 3], [4, 5, 6], [7, 8, 9]]);
    let b = Matrix3x3::from_mat([[9i32, 8, 7], [6, 5, 4], [3, 2, 1]]);
    let result = a + b;
    assert_eq!(result.index(0).index(0), 10i32);
    assert_eq!(result.index(1).index(1), 10i32);
    assert_eq!(result.index(2).index(2), 10i32);
    let a = Matrix3x3::from_mat([[1i64, 2, 3], [4, 5, 6], [7, 8, 9]]);
    let b = Matrix3x3::from_mat([[9i64, 8, 7], [6, 5, 4], [3, 2, 1]]);
    let result = a + b;
    assert_eq!(result.index(0).index(0), 10i64);
    assert_eq!(result.index(1).index(1), 10i64);
    assert_eq!(result.index(2).index(2), 10i64);
}

#[test]
fn test_matrix3x3_multiplication_all_types() {
    let a = Matrix3x3::from_mat([[1i32, 2, 3], [0, 1, 4], [5, 6, 0]]);
    let b = Matrix3x3::from_mat([[7i32, 8, 9], [2, 3, 4], [1, 0, 0]]);
    let expected = Matrix3x3::from_mat([[14i32, 14, 17], [6, 3, 4], [47, 58, 69]]);
    assert_eq!(a * b, expected);
    let a = Matrix3x3::from_mat([[1i64, 2, 3], [0, 1, 4], [5, 6, 0]]);
    let b = Matrix3x3::from_mat([[7i64, 8, 9], [2, 3, 4], [1, 0, 0]]);
    let expected = Matrix3x3::from_mat([[14i64, 14, 17], [6, 3, 4], [47, 58, 69]]);
    assert_eq!(a * b, expected);
}

#[test]
fn test_matrix3x3_transpose_all_types() {
    let m = Matrix3x3::from_mat([[1i32, 2, 3], [4, 5, 6], [7, 8, 9]]);
    let expected = Matrix3x3::from_mat([[1i32, 4, 7], [2, 5, 8], [3, 6, 9]]);
    assert_eq!(m.transpose(), expected);
    let m = Matrix3x3::from_mat([[1i64, 2, 3], [4, 5, 6], [7, 8, 9]]);
    let expected = Matrix3x3::from_mat([[1i64, 4, 7], [2, 5, 8], [3, 6, 9]]);
    assert_eq!(m.transpose(), expected);
}

#[test]
fn test_matrix3x3_transpose_involution() {
    let m = Matrix3x3::from_mat([[1i32, -2, 3], [4, 0, -6], [7, 8, 9]]);
    assert_eq!(m.transpose().transpose(), m);
}

#[test]
fn test_matrix3x3_determinant_all_types() {
    let m = Matrix3x3::from_mat([[6i32, 1, 1], [4, -2, 5], [2, 8, 7]]);
    assert_eq!(m.determinant(), -306i32);
    let m = Matrix3x3::from_mat([[6i64, 1, 1], [4, -2, 5], [2, 8, 7]]);
    assert_eq!(m.determinant(), -306i64);
}

#[test]
fn test_matrix3x3_inverse_identity_all_types() {
    let identity = Matrix3x3::<i32>::identity();
    let inv = identity.inverse().unwrap();
    assert_eq!(inv, identity);
    let identity = Matrix3x3::<i64>::identity();
    let inv = identity.inverse().unwrap();
    assert_eq!(inv, identity);
}

#[test]
fn test_matrix3x3_inverse_known_matrix_all_types() {
    // This matrix has determinant one, so its inverse is exact even over
    // the integers.
    let m = Matrix3x3::from_mat([[1i32, 2, 3], [0, 1, 4], [5, 6, 0]]);
    let inv = m.inverse().unwrap();
    let prod = m * inv;
    assert_eq!(prod, Matrix3x3::<i32>::identity());
    let m = Matrix3x3::from_mat([[1i64, 2, 3], [0, 1, 4], [5, 6, 0]]);
    let inv = m.inverse().unwrap();
    let prod = m * inv;
    assert_eq!(prod, Matrix3x3::<i64>::identity());
}

#[test]
fn test_matrix3x3_inverse_non_invertible_all_types() {
    let m = Matrix3x3::from_mat([[1i32, 2, 3], [2, 4, 6], [3, 6, 9]]);
    assert!(m.inverse().is_none());
    let m = Matrix3x3::from_mat([[1i64, 2, 3], [2, 4, 6], [3, 6, 9]]);
    assert!(m.inverse().is_none());
}

#[test]
fn test_matrix3x3_inverse_negative_unit_determinant() {
    // Swapping two rows of a determinant-one matrix gives determinant minus
    // one; the inverse is still exact.
    let m = Matrix3x3::from_mat([[0i32, 1, 4], [1, 2, 3], [5, 6, 0]]);
    assert_eq!(m.determinant(), -1i32);
    let inv = m.inverse().unwrap();
    assert_eq!(m * inv, Matrix3x3::<i32>::identity());
}

#[test]
fn test_matrix3x3_inverse_truncates_large_determinant() {
    // With a determinant other than a unit, the scale factor one-over-the-
    // determinant truncates to zero in the integers, as it does in the
    // scalar type itself.
    let m = Matrix3x3::from_mat([[2i32, 0, 0], [0, 2, 0], [0, 0, 2]]);
    assert_eq!(m.determinant(), 8i32);
    let inv = m.inverse().unwrap();
    assert_eq!(inv, Matrix3x3::zero());
}

#[test]
fn test_matrix3x3_mul_identity_is_identity() {
    let m = Matrix3x3::from_mat([[6i32, 1, 1], [4, -2, 5], [2, 8, 7]]);
    assert_eq!(m * Matrix3x3::identity(), m);
    assert_eq!(Matrix3x3::identity() * m, m);
}

#[test]
fn test_matrix3x3_mul_vector() {
    let m = Matrix3x3::from_mat([[1i32, 2, 3], [4, 5, 6], [7, 8, 9]]);
    let v = Vector3::new(1i32, 0i32, -1i32);
    assert_eq!(m * v, Vector3::new(-2i32, -2i32, -2i32));
    assert_eq!(v * m, Vector3::new(-6i32, -6i32, -6i32));
}

#[test]
fn test_matrix3x3_scalar_ops() {
    let m = Matrix3x3::from_mat([[1i32, -2, 3], [4, 5, -6], [7, 8, 9]]);
    let doubled = m * 2i32;
    assert_eq!(doubled, Matrix3x3::from_mat([[2i32, -4, 6], [8, 10, -12], [14, 16, 18]]));
    let halved = doubled / 2i32;
    assert_eq!(halved, m);
    let negated = -m;
    assert_eq!(negated, Matrix3x3::from_mat([[-1i32, 2, -3], [-4, -5, 6], [-7, -8, -9]]));
    let diff = m - m;
    assert_eq!(diff, Matrix3x3::zero());
}

#[test]
fn test_matrix3x3_conversions_round_trip() {
    let arr = [1i32, 2, 3, 4, 5, 6, 7, 8, 9];
    let m = Matrix3x3::from_array(arr);
    assert_eq!(m.to_array(), arr);
    assert_eq!(m.flatten(), arr);
    let nested = m.to_mat();
    assert_eq!(Matrix3x3::from_mat(nested), m);
    let again = Matrix3x3::from_slice(&arr);
    assert_eq!(again, m);
    assert_eq!(Matrix3x3::from_array(m.to_array()), m);
}

#[test]
fn test_matrix3x3_new_rows_and_set_row() {
    let rows = [
        Vector3::new(1i32, 2i32, 3i32),
        Vector3::new(4i32, 5i32, 6i32),
        Vector3::new(7i32, 8i32, 9i32),
    ];
    let mut m = Matrix3x3::new(rows);
    assert_eq!(*m.rows(), rows);
    assert_eq!(m.index(1), Vector3::new(4i32, 5i32, 6i32));
    m.set_row(1, Vector3::new(0i32, 0i32, 0i32));
    assert_eq!(m.index(1), Vector3::zero());
    assert_eq!(m.index(0), rows[0]);
    assert_eq!(m.index(2), rows[2]);
}

#[test]
fn test_matrix3x3_zero_one_default() {
    let z = Matrix3x3::<i32>::zero();
    let o = Matrix3x3::<i32>::one();
    assert_eq!(z, Matrix3x3::from_mat([[0i32, 0, 0], [0, 0, 0], [0, 0, 0]]));
    assert_eq!(o, Matrix3x3::from_mat([[1i32, 1, 1], [1, 1, 1], [1, 1, 1]]));
    let d: Matrix3x3<i32> = Default::default();
    assert_eq!(d, z);
}

#[test]
fn test_matrix3x3_assign_ops() {
    let mut m = Matrix3x3::from_mat([[1i32, 2, 3], [4, 5, 6], [7, 8, 9]]);
    m.add_assign(Matrix3x3::identity());
    assert_eq!(m, Matrix3x3::from_mat([[2i32, 2, 3], [4, 6, 6], [7, 8, 10]]));
    m.mul_assign(2i32);
    assert_eq!(m, Matrix3x3::from_mat([[4i32, 4, 6], [8, 12, 12], [14, 16, 20]]));
    m.div_assign(2i32);
    assert_eq!(m, Matrix3x3::from_mat([[2i32, 2, 3], [4, 6, 6], [7, 8, 10]]));
}

#[test]
fn test_matrix3x3_rows_mut() {
    let mut m = Matrix3x3::<i32>::identity();
    {
        let rows = m.rows_mut();
        rows[0] = Vector3::new(9i32, 8i32, 7i32);
    }
    assert_eq!(m.index(0), Vector3::new(9i32, 8i32, 7i32));
    assert_eq!(m.index(1), Vector3::new(0i32, 1i32, 0i32));
}
