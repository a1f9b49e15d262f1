use l2_distance::distance::DistError;
use l2_distance::ndarrays::{sq_l2_dist_ndarray_bounded, sq_l2_dist_ndarray_i64, DenseArray};
use l2_distance::vectors::{sq_diff_i64, sq_l2_dist_vec_i64};

fn array(shape: &[usize], data: &[i64]) -> DenseArray {
    DenseArray::from_shape_vec(shape.to_vec(), data.to_vec()).unwrap()
}

#[test]
fn sq_diff_scalars() {
    assert_eq!(sq_diff_i64(0, 2), 4);
    assert_eq!(sq_diff_i64(1, 2), 1);
    assert_eq!(sq_diff_i64(2, 2), 0);
    assert_eq!(sq_diff_i64(0, -2), 4);
    assert_eq!(sq_diff_i64(1, -2), 9);
    assert_eq!(sq_diff_i64(-2, 1), 9);
}

#[test]
fn sq_diff_extremes() {
    let m: u128 = u64::MAX as u128;
    assert_eq!(sq_diff_i64(i64::MIN, i64::MAX), m * m);
    assert_eq!(sq_diff_i64(i64::MAX, i64::MIN), m * m);
}

#[test]
fn vec_scenario() {
    let x = vec![1, 2, 3];
    let y = vec![4, 6, 3];
    assert_eq!(sq_l2_dist_vec_i64(&x, &y), Ok(25));
}

#[test]
fn vec_symmetric() {
    let x = vec![1, -7, 30, 0];
    let y = vec![4, 6, -3, 2];
    assert_eq!(sq_l2_dist_vec_i64(&x, &y), sq_l2_dist_vec_i64(&y, &x));
    assert_eq!(sq_l2_dist_vec_i64(&x, &y), Ok(9 + 169 + 1089 + 4));
}

#[test]
fn vec_zero_only_when_equal() {
    let x = vec![5, -1, 8];
    assert_eq!(sq_l2_dist_vec_i64(&x, &x), Ok(0));
    let y = vec![5, -1, 9];
    assert_eq!(sq_l2_dist_vec_i64(&x, &y), Ok(1));
}

#[test]
fn vec_empty() {
    assert_eq!(sq_l2_dist_vec_i64(&vec![], &vec![]), Ok(0));
}

#[test]
fn vec_single_matches_scalar() {
    for (a, b) in [(0i64, 2i64), (1, -2), (-9, 4), (i64::MIN, i64::MAX)] {
        assert_eq!(sq_l2_dist_vec_i64(&vec![a], &vec![b]), Ok(sq_diff_i64(a, b)));
    }
}

#[test]
fn vec_length_mismatch() {
    assert_eq!(sq_l2_dist_vec_i64(&vec![1, 2], &vec![1, 2, 3]), Err(DistError::ShapeMismatch));
    assert_eq!(sq_l2_dist_vec_i64(&vec![], &vec![0]), Err(DistError::ShapeMismatch));
}

#[test]
fn vec_overflow() {
    let x = vec![i64::MIN, i64::MIN];
    let y = vec![i64::MAX, i64::MAX];
    assert_eq!(sq_l2_dist_vec_i64(&x, &y), Err(DistError::Overflow));
    let m: u128 = u64::MAX as u128;
    assert_eq!(sq_l2_dist_vec_i64(&x[..1].to_vec(), &y[..1].to_vec()), Ok(m * m));
}

#[test]
fn array_scenario() {
    let a = array(&[2, 2], &[0, 0, 0, 0]);
    let b = array(&[2, 2], &[1, 2, 2, 1]);
    assert_eq!(sq_l2_dist_ndarray_i64(&a, &b), Ok(10));
    assert_eq!(sq_l2_dist_ndarray_bounded(&a, &b), Ok(10));
}

#[test]
fn array_symmetric_and_identity() {
    let a = array(&[2, 3], &[1, -2, 3, 4, 5, 6]);
    let b = array(&[2, 3], &[0, 2, 3, 1, 5, -6]);
    assert_eq!(sq_l2_dist_ndarray_i64(&a, &b), Ok(1 + 16 + 0 + 9 + 0 + 144));
    assert_eq!(sq_l2_dist_ndarray_i64(&b, &a), Ok(170));
    assert_eq!(sq_l2_dist_ndarray_i64(&a, &a), Ok(0));
}

#[test]
fn array_rank_zero() {
    let a = array(&[], &[5]);
    let b = array(&[], &[2]);
    assert_eq!(sq_l2_dist_ndarray_i64(&a, &b), Ok(9));
}

#[test]
fn array_empty() {
    let a = array(&[0, 3], &[]);
    let b = array(&[0, 3], &[]);
    assert_eq!(sq_l2_dist_ndarray_i64(&a, &b), Ok(0));
    assert_eq!(sq_l2_dist_ndarray_bounded(&a, &b), Ok(0));
}

#[test]
fn array_shape_mismatch() {
    let a = array(&[2, 2], &[1, 2, 3, 4]);
    let b = array(&[4], &[1, 2, 3, 4]);
    let c = array(&[2, 3], &[1, 2, 3, 4, 5, 6]);
    let e = array(&[2, 0], &[]);
    assert_eq!(sq_l2_dist_ndarray_i64(&a, &b), Err(DistError::ShapeMismatch));
    assert_eq!(sq_l2_dist_ndarray_i64(&a, &c), Err(DistError::ShapeMismatch));
    assert_eq!(sq_l2_dist_ndarray_i64(&e, &a), Err(DistError::ShapeMismatch));
    assert_eq!(sq_l2_dist_ndarray_bounded(&e, &a), Err(DistError::ShapeMismatch));
    assert_eq!(sq_l2_dist_ndarray_bounded(&a, &c), Err(DistError::ShapeMismatch));
}

#[test]
fn array_overflow() {
    let a = array(&[1], &[3037000499]);
    let z = array(&[1], &[0]);
    assert_eq!(sq_l2_dist_ndarray_i64(&a, &z), Ok(9223372030926249001));
    let a = array(&[2], &[3037000499, 77000]);
    let z = array(&[2], &[0, 0]);
    assert_eq!(sq_l2_dist_ndarray_i64(&a, &z), Err(DistError::Overflow));
    let a = array(&[1], &[i64::MAX]);
    let z = array(&[1], &[i64::MIN]);
    assert_eq!(sq_l2_dist_ndarray_i64(&a, &z), Err(DistError::Overflow));
}

#[test]
fn array_from_shape_vec_checks_count() {
    assert!(DenseArray::from_shape_vec(vec![2, 2], vec![1, 2, 3]).is_none());
    assert!(DenseArray::from_shape_vec(vec![3], vec![1, 2, 3]).is_some());
    assert!(DenseArray::from_shape_vec(vec![], vec![]).is_none());
}

#[test]
fn array_from_shape_vec_empty() {
    assert!(DenseArray::from_shape_vec(vec![0], vec![]).is_some());
    assert!(DenseArray::from_shape_vec(vec![4, 0, 7], vec![]).is_some());
    assert!(DenseArray::from_shape_vec(vec![usize::MAX, 0, 2], vec![]).is_none());
}
