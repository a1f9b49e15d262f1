//! The sequence kernel: two dense one-dimensional operands of equal length.
use vstd::prelude::*;

use crate::distance::{lemma_sum_sq_diff_monotone, sq_diff, sq_dist, sum_sq_diff, DistError};

verus! {

/// The squared difference of two `i64` values, exactly.
pub fn sq_diff_i64(a: i64, b: i64) -> (r: u128)
    ensures
        r == sq_diff(a as int, b as int),
{
    let d: i128 = a as i128 - b as i128;
    let m: u128 = if d < 0 { (-d) as u128 } else { d as u128 };
    assert(m * m == sq_diff(a as int, b as int)) by (nonlinear_arith)
        requires
            m == d || m == -d,
            d == a - b,
    ;
    assert(m * m <= u128::MAX) by (nonlinear_arith)
        requires
            m <= u64::MAX,
    ;
    m * m
}

/// The squared L2 distance of `x` and `y`, summed in ascending index order.
///
/// Fails with `ShapeMismatch` exactly when the lengths differ, and with
/// `Overflow` exactly when the lengths agree but the sum exceeds `u128::MAX`.
pub fn sq_l2_dist_vec_i64(x: &Vec<i64>, y: &Vec<i64>) -> (r: Result<u128, DistError>)
    ensures
        x@.len() != y@.len() ==> r == Err::<u128, DistError>(DistError::ShapeMismatch),
        x@.len() == y@.len() && sq_dist(x@, y@) <= u128::MAX ==> r == Ok::<u128, DistError>(
            sq_dist(x@, y@) as u128,
        ),
        x@.len() == y@.len() && sq_dist(x@, y@) > u128::MAX ==> r == Err::<u128, DistError>(
            DistError::Overflow,
        ),
{
    if x.len() != y.len() {
        return Err(DistError::ShapeMismatch);
    }
    let mut sum: u128 = 0;
    let mut i: usize = 0;
    while i < x.len()
        invariant
            x@.len() == y@.len(),
            i <= x@.len(),
            sum == sum_sq_diff(x@, y@, i as int),
        decreases x@.len() - i,
    {
        let t = sq_diff_i64(x[i], y[i]);
        match sum.checked_add(t) {
            Some(s) => {
                sum = s;
            },
            None => {
                proof {
                    lemma_sum_sq_diff_monotone(x@, y@, i as int + 1, x@.len() as int);
                }
                return Err(DistError::Overflow);
            },
        }
        i = i + 1;
    }
    Ok(sum)
}

} // verus!
