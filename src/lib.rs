//! Verified control logic of Iterative Closest Point registration: input
//! validation, the convergence loop and the choice of correspondences.

pub mod error;
pub mod convergence;
pub mod correspondence;
