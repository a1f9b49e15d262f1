//! The mathematical model shared by the kernels and the laws it obeys.
use vstd::prelude::*;

verus! {

/// The square of the difference of two values.
pub open spec fn sq_diff(a: int, b: int) -> int {
    (a - b) * (a - b)
}

/// The sum of the squared differences of the first `n` components.
pub open spec fn sum_sq_diff(x: Seq<i64>, y: Seq<i64>, n: int) -> int
    decreases n,
{
    if n <= 0 {
        0
    } else {
        sum_sq_diff(x, y, n - 1) + sq_diff(x[n - 1] as int, y[n - 1] as int)
    }
}

/// The squared L2 distance of two sequences of equal length.
pub open spec fn sq_dist(x: Seq<i64>, y: Seq<i64>) -> int {
    sum_sq_diff(x, y, x.len() as int)
}

/// The squared distance is never negative.
pub proof fn lemma_sq_dist_nonneg(x: Seq<i64>, y: Seq<i64>)
    ensures
        sq_dist(x, y) >= 0,
{
    lemma_sum_sq_diff_monotone(x, y, 0, x.len() as int);
}

/// The squared distance of two sequences of equal length is zero exactly
/// when they are equal component by component.
pub proof fn lemma_sq_dist_zero_iff_equal(x: Seq<i64>, y: Seq<i64>)
    requires
        x.len() == y.len(),
    ensures
        (sq_dist(x, y) == 0) <==> (x == y),
{
    lemma_sum_sq_diff_zero_iff_prefix_equal(x, y, x.len() as int);
    if sq_dist(x, y) == 0 {
        assert(x =~= y);
    }
}

/// A partial sum is zero exactly when the components it covers agree.
proof fn lemma_sum_sq_diff_zero_iff_prefix_equal(x: Seq<i64>, y: Seq<i64>, n: int)
    requires
        0 <= n <= x.len(),
        n <= y.len(),
    ensures
        (sum_sq_diff(x, y, n) == 0) <==> (forall|j: int| 0 <= j < n ==> x[j] == y[j]),
    decreases n,
{
    if n > 0 {
        lemma_sum_sq_diff_zero_iff_prefix_equal(x, y, n - 1);
        lemma_sum_sq_diff_monotone(x, y, 0, n - 1);
        let d = x[n - 1] - y[n - 1];
        assert(d * d >= 0) by (nonlinear_arith);
        assert(d != 0 ==> d * d > 0) by (nonlinear_arith);
        if sum_sq_diff(x, y, n) == 0 {
            assert forall|j: int| 0 <= j < n implies x[j] == y[j] by {}
        }
    }
}

/// The squared distance does not depend on the order of its operands.
pub proof fn lemma_sq_dist_symmetric(x: Seq<i64>, y: Seq<i64>)
    requires
        x.len() == y.len(),
    ensures
        sq_dist(x, y) == sq_dist(y, x),
{
    lemma_sum_sq_diff_symmetric(x, y, x.len() as int);
}

/// Swapping the operands leaves every partial sum unchanged.
proof fn lemma_sum_sq_diff_symmetric(x: Seq<i64>, y: Seq<i64>, n: int)
    ensures
        sum_sq_diff(x, y, n) == sum_sq_diff(y, x, n),
    decreases n,
{
    if n > 0 {
        lemma_sum_sq_diff_symmetric(x, y, n - 1);
        let a = x[n - 1] as int;
        let b = y[n - 1] as int;
        assert((a - b) * (a - b) == (b - a) * (b - a)) by (nonlinear_arith);
    }
}

/// Operands without components are at squared distance zero.
pub proof fn lemma_sq_dist_empty(x: Seq<i64>, y: Seq<i64>)
    requires
        x.len() == 0,
        y.len() == 0,
    ensures
        sq_dist(x, y) == 0,
{
}

/// The squared distance of two one-component sequences is the squared
/// difference of their components.
pub proof fn lemma_sq_dist_single(a: i64, b: i64)
    ensures
        sq_dist(seq![a], seq![b]) == sq_diff(a as int, b as int),
{
    assert(sum_sq_diff(seq![a], seq![b], 0) == 0);
}

/// Partial sums of squared differences never decrease as more components
/// are added.
pub proof fn lemma_sum_sq_diff_monotone(x: Seq<i64>, y: Seq<i64>, m: int, n: int)
    requires
        0 <= m <= n,
    ensures
        sum_sq_diff(x, y, m) <= sum_sq_diff(x, y, n),
    decreases n - m,
{
    if m < n {
        lemma_sum_sq_diff_monotone(x, y, m, n - 1);
        let d = x[n - 1] - y[n - 1];
        assert(d * d >= 0) by (nonlinear_arith);
    }
}

/// Why a distance could not be computed.
#[derive(Debug, Clone, Copy, PartialEq, Eq, Structural)]
pub enum DistError {
    /// The operands differ in length, rank or extent.
    ShapeMismatch,
    /// The exact squared distance does not fit the result type.
    Overflow,
}

} // verus!
