//! The acceptance test on a kernel's output.
//!
//! Before its timings are trusted, a kernel's output is held against that of
//! a trusted routine on the same operands. The caller forms the difference of
//! the two matrices and its Euclidean norm; whether the norm passes is
//! decided here.

use crate::binary64::Binary64;
use vstd::prelude::*;

verus! {

/// The encoding of the greatest norm that passes: `1.0e-4`, the binary64
/// number next to one ten-thousandth.
pub const TOLERANCE_BITS: u64 = 0x3f1a_36e2_eb1c_432d;

/// A kernel whose output is too far from the trusted one.
#[derive(Clone, Copy, Debug, PartialEq, Eq, Structural)]
pub struct VerificationFailure {
    /// The norm of the difference.
    pub norm: Binary64,
}

/// Whether a norm passes: it is a number and not above the tolerance. The
/// tolerance is absolute; it does not grow with the matrices.
pub open spec fn within_tolerance(norm: Binary64) -> bool {
    norm.at_most(Binary64 { bits: TOLERANCE_BITS })
}

/// Accepts or rejects a kernel by the norm of the difference between its
/// output and the trusted one.
pub fn verify(norm: Binary64) -> (verdict: Result<(), VerificationFailure>)
    ensures
        verdict is Ok <==> within_tolerance(norm),
        verdict matches Err(failure) ==> failure.norm == norm,
{
    if norm.le(&Binary64::from_bits(TOLERANCE_BITS)) {
        Ok(())
    } else {
        Err(VerificationFailure { norm })
    }
}

/// A norm of zero passes, with either sign.
pub proof fn lemma_zero_passes(norm: Binary64)
    requires
        norm.magnitude() == 0,
    ensures
        within_tolerance(norm),
{
}

} // verus!
