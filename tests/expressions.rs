use dfmblas::cwise_ops;
use dfmblas::cwise_ops::{BinaryOp, CwiseBinaryOp, CwiseUnaryOp, UnaryOp};
use dfmblas::{materialize, Index, IntoMatrix, Matrix, MatrixError, MatrixShape};

fn mat(rows: Index, cols: Index, values: &[i64]) -> Matrix<i64> {
    Matrix::from_slice(rows, cols, values).unwrap()
}

fn values(m: Result<Matrix<i64>, MatrixError>) -> Vec<i64> {
    m.unwrap().into_vec()
}

#[test]
fn it_works() {
    let rows = 5;
    let cols = 3;
    let capacity = (rows * cols) as usize;
    let mut data1 = Vec::with_capacity(capacity);
    data1.resize(capacity, 3.0f64);
    let m1 = Matrix::from_slice(rows, cols, &data1).unwrap();

    let mut data2 = Vec::with_capacity(capacity);
    data2.resize(capacity, 1.0f64);
    let m2 = Matrix::from_slice(rows, cols, &data2).unwrap();

    let m = -(m1 + m2);
    println!("{:?}", m.into_matrix());
}

#[test]
fn scenario_sum() {
    let a = mat(2, 2, &[1, 2, 3, 4]);
    let b = mat(2, 2, &[5, 6, 7, 8]);
    assert_eq!(values((a + b).into_matrix()), vec![6, 8, 10, 12]);
}

#[test]
fn scenario_difference() {
    let a = mat(2, 2, &[1, 2, 3, 4]);
    let b = mat(2, 2, &[5, 6, 7, 8]);
    assert_eq!(values((a - b).into_matrix()), vec![-4, -4, -4, -4]);
}

#[test]
fn scenario_product() {
    let a = mat(2, 2, &[1, 2, 3, 4]);
    let b = mat(2, 2, &[5, 6, 7, 8]);
    assert_eq!(values((a * b).into_matrix()), vec![5, 12, 21, 32]);
}

#[test]
fn scenario_negation() {
    let a = mat(2, 2, &[1, 2, 3, 4]);
    assert_eq!(values((-a).into_matrix()), vec![-1, -2, -3, -4]);
}

#[test]
fn sum_is_elementwise_on_values() {
    let a = mat(2, 3, &[1, -2, 30, 4, 0, 9]);
    let b = mat(2, 3, &[7, 8, -9, 10, 11, 12]);
    let va = a.clone().into_vec();
    let vb = b.clone().into_vec();
    let s = values((a + b).into_matrix());
    assert_eq!(s.len(), 6);
    for i in 0..6 {
        assert_eq!(s[i], va[i] + vb[i]);
    }
}

#[test]
fn double_negation_is_identity() {
    let a = mat(3, 2, &[1, -2, 0, i64::MAX, -7, 100]);
    let expected = a.clone().into_vec();
    let m = (-(-a)).into_matrix().unwrap();
    assert_eq!(m.rows(), Ok(3));
    assert_eq!(m.cols(), Ok(2));
    assert_eq!(m.into_vec(), expected);
}

#[test]
fn sum_is_associative() {
    let a = mat(2, 2, &[1, 2, 3, 4]);
    let b = mat(2, 2, &[10, 20, 30, 40]);
    let c = mat(2, 2, &[-5, 0, 5, 100]);
    let left = values(((a.clone() + b.clone()) + c.clone()).into_matrix());
    let right = values((a + (b + c)).into_matrix());
    assert_eq!(left, right);
    assert_eq!(left, vec![6, 22, 38, 144]);
}

#[test]
fn mismatch_detected_on_rows_query() {
    let a = mat(2, 3, &[1, 2, 3, 4, 5, 6]);
    let b = mat(3, 2, &[1, 2, 3, 4, 5, 6]);
    let e = a + b;
    assert_eq!(e.rows(), Err(MatrixError::DimensionMismatch));
    assert_eq!(e.cols(), Err(MatrixError::DimensionMismatch));
}

#[test]
fn mismatch_detected_on_materialize() {
    let a = mat(2, 3, &[1, 2, 3, 4, 5, 6]);
    let b = mat(3, 2, &[1, 2, 3, 4, 5, 6]);
    assert_eq!((a + b).into_matrix().unwrap_err(), MatrixError::DimensionMismatch);
}

#[test]
fn mismatch_in_columns_only() {
    let a = mat(2, 3, &[1, 2, 3, 4, 5, 6]);
    let b = mat(2, 2, &[1, 2, 3, 4]);
    let e = a - b;
    assert_eq!(e.rows(), Ok(2));
    assert_eq!(e.cols(), Err(MatrixError::DimensionMismatch));
}

#[test]
fn mismatch_propagates_through_enclosing_nodes() {
    let a = mat(2, 3, &[1, 2, 3, 4, 5, 6]);
    let b = mat(3, 2, &[1, 2, 3, 4, 5, 6]);
    let c = mat(2, 3, &[1, 2, 3, 4, 5, 6]);
    let e = -((a + b) * c);
    assert_eq!(e.rows(), Err(MatrixError::DimensionMismatch));
    assert_eq!(materialize(e).unwrap_err(), MatrixError::DimensionMismatch);
}

#[test]
fn from_slice_wrong_length_is_invalid() {
    let r = Matrix::from_slice(2, 3, &[1i64, 2, 3, 4, 5]);
    assert_eq!(r.unwrap_err(), MatrixError::InvalidDimensions);
}

#[test]
fn new_negative_count_is_invalid() {
    assert_eq!(Matrix::<i64>::new(-1, 3).unwrap_err(), MatrixError::InvalidDimensions);
}

#[test]
fn new_too_large_is_invalid() {
    assert_eq!(Matrix::<i64>::new(i64::MAX, 2).unwrap_err(), MatrixError::InvalidDimensions);
    assert_eq!(Matrix::<i64>::new(i64::MIN, i64::MIN).unwrap_err(), MatrixError::InvalidDimensions);
}

#[test]
fn new_is_zero_filled() {
    let m = Matrix::<i64>::new(2, 3).unwrap();
    assert_eq!(m.rows(), Ok(2));
    assert_eq!(m.cols(), Ok(3));
    assert_eq!(m.into_vec(), vec![0; 6]);
}

#[test]
fn new_empty() {
    let m = Matrix::<i64>::new(0, 5).unwrap();
    assert_eq!(m.cols(), Ok(5));
    assert!(m.into_vec().is_empty());
}

#[test]
fn random_has_requested_size() {
    let m = Matrix::<u32>::random(4, 3).unwrap();
    assert_eq!(m.rows(), Ok(4));
    assert_eq!(m.cols(), Ok(3));
    assert_eq!(m.into_vec().len(), 12);
    assert_eq!(Matrix::<u32>::random(3, -1).unwrap_err(), MatrixError::InvalidDimensions);
}

#[test]
fn from_slice_keeps_values() {
    let m = mat(1, 3, &[9, 8, 7]);
    assert_eq!(m.rows(), Ok(1));
    assert_eq!(m.element(2), 7);
    assert_eq!(m.into_vec(), vec![9, 8, 7]);
}

#[test]
fn matrix_materializes_to_itself() {
    let m = mat(2, 1, &[4, 5]);
    let r = m.into_matrix().unwrap();
    assert_eq!(r.rows(), Ok(2));
    assert_eq!(r.into_vec(), vec![4, 5]);
}

#[test]
fn empty_expression() {
    let a = mat(0, 0, &[]);
    let b = mat(0, 0, &[]);
    assert!(values((a * b).into_matrix()).is_empty());
}

#[test]
fn nested_composition() {
    let m1 = mat(2, 2, &[1, 2, 3, 4]);
    let m2 = mat(2, 2, &[10, 20, 30, 40]);
    let e = -(m1.clone() - (m1 + m2));
    assert_eq!(values(e.into_matrix()), vec![10, 20, 30, 40]);
}

#[test]
fn nodes_built_explicitly() {
    let a = mat(1, 2, &[3, 4]);
    let b = mat(1, 2, &[5, 6]);
    let s: CwiseBinaryOp<cwise_ops::Add<i64>, Matrix<i64>, Matrix<i64>> = CwiseBinaryOp::new(a, b);
    let n: CwiseUnaryOp<cwise_ops::Neg<i64>, _> = CwiseUnaryOp::new(s);
    assert_eq!(n.rows(), Ok(1));
    assert_eq!(n.cols(), Ok(2));
    assert_eq!(n.element(1), -10);
    assert_eq!(values(n.into_matrix()), vec![-8, -10]);
}

#[test]
fn unary_node_delegates_shape() {
    let a = mat(3, 1, &[1, 2, 3]);
    let n = -a;
    assert_eq!(n.rows(), Ok(3));
    assert_eq!(n.cols(), Ok(1));
}

#[test]
fn scalar_ops() {
    assert_eq!(<cwise_ops::Add<i64> as BinaryOp<i64>>::call(2, 3), 5);
    assert_eq!(<cwise_ops::Sub<i64> as BinaryOp<i64>>::call(2, 3), -1);
    assert_eq!(<cwise_ops::Mul<i64> as BinaryOp<i64>>::call(-2, 3), -6);
    assert_eq!(<cwise_ops::Neg<i64> as UnaryOp<i64>>::call(7), -7);
}

#[test]
fn float_expression() {
    let a = Matrix::from_slice(1, 2, &[1.5f64, -2.0]).unwrap();
    let b = Matrix::from_slice(1, 2, &[0.5f64, 4.0]).unwrap();
    let v = (a * b).into_matrix().unwrap().into_vec();
    assert_eq!(v, vec![0.75, -8.0]);
}
