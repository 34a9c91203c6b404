//! The measurement and statistics engine of a benchmark for matrix-multiply
//! kernels: order statistics of timing samples, the plan of an overflow-safe
//! mean, the decision whether a kernel is rebuilt, the acceptance test on a
//! kernel's output, the order of the kernel invocations of a run, and the
//! merging of reports from several runs.
//!
//! Arithmetic on binary64 numbers is left to the caller throughout. The
//! library carries such numbers by their encoding, compares them, and decides
//! which arithmetic is due.

pub mod binary64;
pub mod common;
pub mod compiler;
pub mod decision;
pub mod driver;
pub mod failure;
pub mod gate;
pub mod gemm;
pub mod merge;
pub mod reduction;
pub mod text;
pub mod utils;
