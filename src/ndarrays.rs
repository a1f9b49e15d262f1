//! The array kernel: two dense multi-dimensional `ndarray` operands of equal
//! shape, compared through ndarray-stats.
use vstd::prelude::*;

use ndarray::{ArrayD, IxDyn};
use ndarray_stats::errors::MultiInputError;
use ndarray_stats::DeviationExt;

use crate::distance::{lemma_sq_dist_nonneg, sq_dist, DistError};
use crate::vectors::sq_l2_dist_vec_i64;

verus! {

/// A dense array of `i64` of any rank, backed by an `ndarray::ArrayD`.
/// Verus sees it only through its shape, `array_shape`, and its logical
/// contents, `array_elems`.
#[verifier::external_body]
pub struct DenseArray {
    inner: ArrayD<i64>,
}

#[verifier::external_type_specification]
pub struct ExShapeMismatch(ndarray_stats::errors::ShapeMismatch);

#[verifier::external_type_specification]
pub struct ExMultiInputError(MultiInputError);

/// The extent of each axis of an array, in axis order.
pub uninterp spec fn array_shape(a: DenseArray) -> Seq<usize>;

/// The elements of an array in logical row-major order, whatever its layout.
pub uninterp spec fn array_elems(a: DenseArray) -> Seq<i64>;

/// The number of elements of an array of the given shape.
pub open spec fn shape_size(shape: Seq<usize>) -> int
    decreases shape.len(),
{
    if shape.len() == 0 {
        1
    } else {
        shape_size(shape.drop_last()) * shape.last()
    }
}

/// The product of the extents that are not zero.
pub open spec fn nonzero_extent_product(shape: Seq<usize>) -> int
    decreases shape.len(),
{
    if shape.len() == 0 {
        1
    } else if shape.last() == 0 {
        nonzero_extent_product(shape.drop_last())
    } else {
        nonzero_extent_product(shape.drop_last()) * shape.last()
    }
}

/// The squared L2 distance of two arrays, over their logical contents.
pub open spec fn array_sq_dist(a: DenseArray, b: DenseArray) -> int {
    sq_dist(array_elems(a), array_elems(b))
}

/// Arrays with the same shapes and the same logical contents are at the same
/// squared distance, whatever their strides, offsets or memory order.
pub proof fn lemma_layout_invariance(a1: DenseArray, b1: DenseArray, a2: DenseArray, b2: DenseArray)
    requires
        array_shape(a1) == array_shape(a2),
        array_shape(b1) == array_shape(b2),
        array_elems(a1) == array_elems(a2),
        array_elems(b1) == array_elems(b2),
    ensures
        array_sq_dist(a1, b1) == array_sq_dist(a2, b2),
{
}

/// Relies on `ArrayBase::from_shape_vec` with a standard (row-major) layout:
/// it fails when the product of the extents differs from the number of
/// elements, and succeeds when they agree and either are not zero or the
/// product of the non-zero extents fits `isize`. On success the array has the
/// given extents and holds `data` in row-major order.
#[verifier::external_body]
fn ndarray_from_shape_vec(shape: Vec<usize>, data: Vec<i64>) -> (r: Option<DenseArray>)
    ensures
        shape_size(shape@) != data@.len() ==> r is None,
        shape_size(shape@) == data@.len() && data@.len() > 0 ==> r is Some,
        shape_size(shape@) == data@.len() && nonzero_extent_product(shape@) <= isize::MAX ==> r is Some,
        r is Some ==> array_shape(r->0) == shape@,
        r is Some ==> array_elems(r->0) == data@,
{
    ArrayD::from_shape_vec(IxDyn(&shape), data).ok().map(|inner| DenseArray { inner })
}

/// Relies on `ArrayBase::shape` (the extents, axis by axis), whose product is
/// `ArrayBase::len`, the number of elements that `ArrayBase::iter` visits.
#[verifier::external_body]
fn shape_of(a: &DenseArray) -> (r: Vec<usize>)
    ensures
        r@ == array_shape(*a),
        shape_size(r@) == array_elems(*a).len(),
{
    a.inner.shape().to_vec()
}

/// Relies on `ArrayBase::iter`: each element once, in logical order.
#[verifier::external_body]
fn elems_of(a: &DenseArray) -> (r: Vec<i64>)
    ensures
        r@ == array_elems(*a),
{
    a.inner.iter().copied().collect()
}

/// Relies on `DeviationExt::sq_l2_dist` of ndarray-stats: `EmptyInput` when
/// `a` has no element, else `ShapeMismatch` when the shapes differ, else the
/// sum of the squared differences accumulated in `i64`, which the bound keeps
/// from overflowing (every term is non-negative).
#[verifier::external_body]
fn stats_sq_l2_dist(a: &DenseArray, b: &DenseArray) -> (r: Result<i64, MultiInputError>)
    requires
        array_shape(*a) == array_shape(*b) ==> array_sq_dist(*a, *b) <= i64::MAX,
    ensures
        array_elems(*a).len() == 0 ==> (r matches Err(MultiInputError::EmptyInput)),
        array_elems(*a).len() != 0 && array_shape(*a) != array_shape(*b) ==> (r matches Err(
            MultiInputError::ShapeMismatch(_),
        )),
        array_elems(*a).len() != 0 && array_shape(*a) == array_shape(*b) ==> r is Ok,
        array_elems(*a).len() != 0 && array_shape(*a) == array_shape(*b) ==> r->Ok_0
            == array_sq_dist(*a, *b),
{
    a.inner.sq_l2_dist(&b.inner)
}

impl DenseArray {
    /// An array with extents `shape` holding `data` in row-major order.
    ///
    /// Gives `None` when the product of the extents is not the number of
    /// elements; gives an array whenever they agree on a non-zero count, or
    /// on zero with the product of the non-zero extents within `isize`.
    pub fn from_shape_vec(shape: Vec<usize>, data: Vec<i64>) -> (r: Option<DenseArray>)
        ensures
            shape_size(shape@) != data@.len() ==> r is None,
            shape_size(shape@) == data@.len() && data@.len() > 0 ==> r is Some,
            shape_size(shape@) == data@.len() && nonzero_extent_product(shape@) <= isize::MAX
                ==> r is Some,
            r is Some ==> array_shape(r->0) == shape@ && array_elems(r->0) == data@,
    {
        ndarray_from_shape_vec(shape, data)
    }
}

/// Whether two shapes have the same rank and the same extent on every axis.
fn same_shape(s: &Vec<usize>, t: &Vec<usize>) -> (r: bool)
    ensures
        r == (s@ == t@),
{
    if s.len() != t.len() {
        return false;
    }
    let mut i: usize = 0;
    while i < s.len()
        invariant
            s@.len() == t@.len(),
            i <= s@.len(),
            forall|j: int| 0 <= j < i ==> s@[j] == t@[j],
        decreases s@.len() - i,
    {
        if s[i] != t[i] {
            return false;
        }
        i = i + 1;
    }
    assert(s@ =~= t@);
    true
}

/// Equal shapes hold equally many elements.
proof fn lemma_same_shape_same_len(a: DenseArray, b: DenseArray, sa: Seq<usize>, sb: Seq<usize>)
    requires
        sa == array_shape(a),
        sb == array_shape(b),
        shape_size(sa) == array_elems(a).len(),
        shape_size(sb) == array_elems(b).len(),
        sa == sb,
    ensures
        array_elems(a).len() == array_elems(b).len(),
{
}

/// The squared L2 distance of `a` and `b`, computed by ndarray-stats in
/// `i64`, for arrays whose squared distance is known to fit `i64`.
///
/// Fails with `ShapeMismatch` exactly when the shapes differ. Arrays with no
/// element are at distance zero.
pub fn sq_l2_dist_ndarray_bounded(a: &DenseArray, b: &DenseArray) -> (r: Result<i64, DistError>)
    requires
        array_shape(*a) == array_shape(*b) ==> array_sq_dist(*a, *b) <= i64::MAX,
    ensures
        array_shape(*a) != array_shape(*b) ==> r == Err::<i64, DistError>(DistError::ShapeMismatch),
        array_shape(*a) == array_shape(*b) ==> r == Ok::<i64, DistError>(
            array_sq_dist(*a, *b) as i64,
        ),
{
    match stats_sq_l2_dist(a, b) {
        Ok(s) => Ok(s),
        Err(MultiInputError::EmptyInput) => {
            let sa = shape_of(a);
            let sb = shape_of(b);
            if same_shape(&sa, &sb) {
                proof {
                    lemma_same_shape_same_len(*a, *b, sa@, sb@);
                }
                Ok(0)
            } else {
                Err(DistError::ShapeMismatch)
            }
        },
        Err(MultiInputError::ShapeMismatch(_)) => Err(DistError::ShapeMismatch),
    }
}

/// The squared L2 distance of `a` and `b` over their logical contents, in
/// `i64`: the memory layout of either array plays no part.
///
/// Fails with `ShapeMismatch` exactly when the shapes differ, and with
/// `Overflow` exactly when they agree but the distance exceeds `i64::MAX`.
pub fn sq_l2_dist_ndarray_i64(a: &DenseArray, b: &DenseArray) -> (r: Result<i64, DistError>)
    ensures
        array_shape(*a) != array_shape(*b) ==> r == Err::<i64, DistError>(DistError::ShapeMismatch),
        array_shape(*a) == array_shape(*b) && array_sq_dist(*a, *b) <= i64::MAX ==> r == Ok::<
            i64,
            DistError,
        >(array_sq_dist(*a, *b) as i64),
        array_shape(*a) == array_shape(*b) && array_sq_dist(*a, *b) > i64::MAX ==> r == Err::<
            i64,
            DistError,
        >(DistError::Overflow),
{
    let sa = shape_of(a);
    let sb = shape_of(b);
    if !same_shape(&sa, &sb) {
        return Err(DistError::ShapeMismatch);
    }
    proof {
        lemma_same_shape_same_len(*a, *b, sa@, sb@);
    }
    let xa = elems_of(a);
    let xb = elems_of(b);
    proof {
        lemma_sq_dist_nonneg(xa@, xb@);
    }
    match sq_l2_dist_vec_i64(&xa, &xb) {
        Ok(s) => {
            if s <= i64::MAX as u128 {
                sq_l2_dist_ndarray_bounded(a, b)
            } else {
                Err(DistError::Overflow)
            }
        },
        Err(_) => Err(DistError::Overflow),
    }
}

} // verus!
