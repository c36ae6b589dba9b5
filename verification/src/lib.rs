//! Core of a SmoothLife cellular automaton that runs on the GPU: the radial
//! weight kernels of the neighbourhood sum and the life cycle of the two
//! compute passes.
//!
//! All lengths and weights are fixed-point numbers with sixteen fractional
//! bits (see [`fixed`]); nothing in this crate computes in floating point.

pub mod fixed;
pub mod kernel;
pub mod compute;
pub mod binary32;
