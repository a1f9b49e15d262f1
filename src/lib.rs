//! Euclidean (L2) distances between equally shaped integer operands.
//!
//! Every kernel computes the exact sum of squared componentwise differences,
//! modelled by [`distance::sq_dist`]: one-dimensional sequences in
//! [`vectors`], arrays of any rank in [`ndarrays`]. Widening the sum to a
//! floating-point value and taking its square root is left to the caller.
pub mod distance;
pub mod ndarrays;
pub mod vectors;
