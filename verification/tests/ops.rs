use rustml::matrix::Matrix;
use rustml::matrix_ops::OpsError;
use rustml::ops::{Ops, OpsSigned, VectorScalarOps, VectorVectorOps, VectorVectorOpsInPlace};

fn mat_i64(buf: Vec<i64>, rows: usize, cols: usize) -> Matrix<i64> {
    assert_eq!(buf.len(), rows * cols);
    Matrix::from_vec(buf, rows, cols)
}

#[test]
fn test_vector_ops() {
    let v: Vec<u8> = vec![255, 100, 101, 202];
    let m = v.map(|&x| x as u32);
    let s: u32 = m.iter().sum();
    assert_eq!(s, 658);
}

#[test]
fn test_matrix_vector_mul() {
    let x = mat_i64(vec![1, 2, 3, 4, 2, 5], 2, 3);
    let h = vec![2i64, 6, 3];
    let y = x.mul_vec(&h).unwrap();
    assert_eq!(y, vec![23, 35]);
}

#[test]
fn test_transp_matrix_vector_mul() {
    let x = mat_i64(vec![1, 2, 3, 4, 2, 5], 3, 2);
    let h = vec![2i64, 6, 3];
    let y = x.transp_mul_vec(&h).unwrap();
    assert_eq!(y, vec![26, 43]);
}

#[test]
#[should_panic]
fn test_matrix_vector_mul_panic() {
    let x = mat_i64(vec![1, 2, 3, 4, 2, 5], 2, 3);
    let i = vec![2i64, 6];
    x.mul_vec(&i).unwrap();
}

#[test]
fn test_mul_vec_minus_vec() {
    let x = mat_i64(vec![1, 2, 3, 4, 2, 5], 2, 3);
    let v = vec![2i64, 6, 3];
    let y = vec![7i64, 2];
    assert_eq!(x.mul_vec_minus_vec(&v, &y).unwrap(), vec![16, 33]);
}

#[test]
fn test_mul_dgemv() {
    let x = mat_i64(vec![1, 2, 3, 4, 2, 5], 2, 3);
    let v = vec![2i64, 6, 3];
    let y = vec![7i64, 2];
    assert_eq!(x.mul_dgemv(false, 2, &v, -3, &y).unwrap(), vec![25, 64]);

    let a = vec![8i64, 3];
    let t = vec![1i64, -4, 9];
    assert_eq!(x.mul_dgemv(true, 2, &a, -3, &t).unwrap(), vec![37, 56, 51]);
}

#[test]
fn test_mul_scalar_vec() {
    let x = mat_i64(vec![1, 2, 3, 4, 2, 5], 2, 3);
    let v = vec![2i64, 6, 3];
    assert_eq!(x.mul_scalar_vec(false, 2, &v).unwrap(), vec![46, 70]);

    let a = vec![8i64, 3];
    assert_eq!(x.mul_scalar_vec(true, 2, &a).unwrap(), vec![40, 44, 78]);
}

#[test]
fn test_col_mul_row() {
    let a = vec![2i64, 3, 4];
    let b = vec![5i64, 8];
    let m = a.col_mul_row(&b);
    assert!(m.eq(&mat_i64(vec![10, 16, 15, 24, 20, 32], 3, 2)));
}

#[test]
fn test_matrix_matrix_ops_add() {
    let x = mat_i64(vec![1, 2, 3, 4, 2, 5], 2, 3);
    let y = mat_i64(vec![3, 1, 4, 2, 3, 2], 2, 3);
    let m = x.add(&y);
    assert!(m.eq(&mat_i64(vec![4, 3, 7, 6, 5, 7], 2, 3)));
}

#[test]
fn test_matrix_matrix_ops_sub() {
    let x = mat_i64(vec![1, 2, 3, 4, 2, 5], 2, 3);
    let y = mat_i64(vec![3, 1, 4, 2, 3, 2], 2, 3);
    let m = x.sub(&y);
    assert!(m.eq(&mat_i64(vec![-2, 1, -1, 2, -1, 3], 2, 3)));
}

#[test]
fn test_matrix_matrix_ops_mul() {
    let x = mat_i64(vec![1, 2, 3, 4, 2, 5], 2, 3);
    let y = mat_i64(vec![3, 1, 2, 3, 1, 2], 3, 2);
    let m = x.mul(&y, false, false).unwrap();
    assert!(m.eq(&mat_i64(vec![10, 13, 21, 20], 2, 2)));
}

#[test]
fn test_matrix_matrix_mul_transposed() {
    let x = mat_i64(vec![1, 2, 3, 4, 2, 5], 2, 3);
    let b = mat_i64(vec![3, 1, 4, 2, 3, 2], 2, 3);
    let lhs_t = x.mul(&b, true, false).unwrap();
    assert!(lhs_t.eq(&mat_i64(vec![11, 13, 12, 10, 8, 12, 19, 18, 22], 3, 3)));
    let rhs_t = x.mul(&b, false, true).unwrap();
    assert!(rhs_t.eq(&mat_i64(vec![17, 14, 34, 24], 2, 2)));
}

#[test]
fn test_vector_vector_ops_integers() {
    let a = vec![3i64, 2, 2, 4, 5];
    let b = vec![3i64, 2, 4, 5, 1];
    assert_eq!(a.sub(&b), vec![0, 0, -2, -1, 4]);
    assert_eq!(a.add(&b), vec![6, 4, 6, 9, 6]);
    assert_eq!(a.mul(&b), vec![9, 4, 8, 20, 5]);
    assert_eq!(b.div(&a), vec![1, 1, 2, 1, 0]);
    assert_eq!(a.mutate(|x| x * 2), vec![6, 4, 4, 8, 10]);
}

#[test]
fn test_vector_vector_ops_truncate_to_min() {
    let a = vec![1i64, 2, 3, 4];
    let b = vec![10i64, 20];
    assert_eq!(a.add(&b), vec![11, 22]);
    assert_eq!(b.sub(&a), vec![9, 18]);
}

#[test]
fn test_vector_scalar_ops_integers() {
    let a = vec![2i64, 4, 6];
    assert_eq!(a.mul_scalar(3), vec![6, 12, 18]);
    assert_eq!(a.add_scalar(3), vec![5, 7, 9]);
    assert_eq!(a.sub_scalar(3), vec![-1, 1, 3]);
    assert_eq!(a.div_scalar(2), vec![1, 2, 3]);
    assert_eq!(vec![-7i64, 7].div_scalar(2), vec![-3, 3]);
}

#[test]
fn test_vector_abs() {
    let a = vec![-3i64, 0, 4, -7];
    assert_eq!(a.abs(), vec![3, 0, 4, 7]);
}

#[test]
fn test_matrix_scalar_ops_integers() {
    let m = mat_i64(vec![1, 2, 3, 4, 5, 6, 7, 8], 4, 2);
    assert_eq!(m.mul_scalar(2).buf(), &vec![2, 4, 6, 8, 10, 12, 14, 16]);
    assert_eq!(m.add_scalar(3).buf(), &vec![4, 5, 6, 7, 8, 9, 10, 11]);
    assert_eq!(m.sub_scalar(3).buf(), &vec![-2, -1, 0, 1, 2, 3, 4, 5]);
    assert_eq!(m.div_scalar(2).buf(), &vec![0, 1, 1, 2, 2, 3, 3, 4]);
}

#[test]
fn test_matrix_row_broadcast() {
    let m = mat_i64(vec![1, 2, 3, 4], 2, 2);
    let a = m.add_row(&vec![10, 20]);
    assert_eq!(a.buf(), &vec![11, 22, 13, 24]);
    let s = m.sub_row(&vec![1, 1]);
    assert_eq!(s.buf(), &vec![0, 1, 2, 3]);
    assert_eq!(m.buf(), &vec![1, 2, 3, 4]);
}

#[test]
fn test_add_sub_roundtrip_values() {
    let a = vec![5i64, -2, 8];
    let b = vec![1i64, 7, -4];
    assert_eq!(a.add(&b).sub(&b), a);
}

#[test]
fn test_scalar_roundtrip_values() {
    let m = mat_i64(vec![4, -6, 10, 0], 2, 2);
    assert!(m.add_scalar(9).sub_scalar(9).eq(&m));
    assert!(m.mul_scalar(-5).div_scalar(-5).eq(&m));
}

#[test]
fn test_alloc_equals_clone_then_inplace() {
    let a = vec![1i64, -2, 3];
    let b = vec![4i64, 5, -6];

    let mut c = a.clone();
    c.iadd(&b);
    assert_eq!(a.add(&b), c);

    let mut d = a.clone();
    d.isub(&b);
    assert_eq!(a.sub(&b), d);

    let mut e = a.clone();
    e.imul(&b);
    assert_eq!(a.mul(&b), e);
}

#[test]
fn test_matrix_inplace_ops() {
    let mut x = mat_i64(vec![1, 2, 3, 4, 2, 5], 2, 3);
    let y = mat_i64(vec![3, 1, 4, 2, 3, 2], 2, 3);
    x.iadd(&y);
    assert_eq!(x.buf(), &vec![4, 3, 7, 6, 5, 7]);
    x.isub(&y);
    assert_eq!(x.buf(), &vec![1, 2, 3, 4, 2, 5]);
}

#[test]
fn test_dimension_mismatch_errors() {
    let x = mat_i64(vec![1, 2, 3, 4, 2, 5], 2, 3);
    assert_eq!(x.mul_vec(&vec![1i64, 2]), Err(OpsError::DimensionMismatch));
    assert_eq!(x.transp_mul_vec(&vec![1i64, 2, 3]), Err(OpsError::DimensionMismatch));
    assert_eq!(
        x.mul_dgemv(false, 1, &vec![1i64, 2, 3], 1, &vec![1i64, 2, 3]),
        Err(OpsError::DimensionMismatch)
    );
    assert_eq!(
        x.mul_vec_minus_vec(&vec![1i64, 2], &vec![1i64, 2]),
        Err(OpsError::DimensionMismatch)
    );
    let y = mat_i64(vec![1, 2, 3, 4], 2, 2);
    assert_eq!(x.mul(&y, false, false), Err(OpsError::DimensionMismatch));
}

#[test]
fn test_matrix_container_basics() {
    let mut m = Matrix::fill(7i64, 2, 3);
    assert_eq!(m.rows(), 2);
    assert_eq!(m.cols(), 3);
    assert_eq!(m.buf(), &vec![7, 7, 7, 7, 7, 7]);
    assert_eq!(m.get(1, 2), Some(7));
    assert_eq!(m.get(2, 0), None);
    m.set(1, 2, -1);
    assert_eq!(m.get(1, 2), Some(-1));
    assert_eq!(m.row(1), vec![7, 7, -1]);
    assert_eq!(m.col(2), vec![7, -1]);
    let n = m.clone();
    assert!(n.eq(&m));
    assert!(!n.eq(&Matrix::fill(7i64, 3, 2)));
}

#[test]
fn test_div_truncates_toward_zero() {
    let a = vec![-9i64, 9, -9, 9];
    let b = vec![2i64, 2, -2, -2];
    assert_eq!(a.div(&b), vec![-4, 4, 4, -4]);
}

#[test]
fn test_unsigned_engine_ops() {
    let a = vec![200u8, 3, 7];
    let b = vec![55u8, 3, 2];
    assert_eq!(a.add(&b), vec![255, 6, 9]);
    assert_eq!(a.sub(&b), vec![145, 0, 5]);
    assert_eq!(a.div(&b), vec![3, 1, 3]);
    let m = Matrix::from_vec(vec![1u32, 2, 3, 4], 2, 2);
    let p = m.mul(&m, false, false).unwrap();
    assert_eq!(p.buf(), &vec![7, 10, 15, 22]);
}

#[test]
fn test_mul_scalar_vec_mismatch() {
    let x = mat_i64(vec![1, 2, 3, 4, 2, 5], 2, 3);
    assert_eq!(x.mul_scalar_vec(false, 1, &vec![1i64, 2]), Err(OpsError::DimensionMismatch));
    assert_eq!(x.mul_scalar_vec(true, 1, &vec![1i64, 2, 3]), Err(OpsError::DimensionMismatch));
}

#[test]
fn test_empty_shapes() {
    let m = mat_i64(vec![], 0, 0);
    assert!(m.mul_vec(&vec![]).unwrap().is_empty());
    assert!(m.mul(&m, false, false).unwrap().buf().is_empty());
    let v: Vec<i64> = vec![];
    assert_eq!(v.add(&v), vec![]);
    let outer = v.col_mul_row(&vec![1i64, 2]);
    assert_eq!(outer.rows(), 0);
    assert_eq!(outer.cols(), 2);
}
