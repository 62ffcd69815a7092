//! The stability decision of the coefficient builder.
//!
//! The drag coefficients divide by powers of (1 − η²), where η = a0″·e0·ξ
//! is the geometric eccentricity factor.  As |η| reaches 1 that divisor
//! vanishes, which marks an unphysical element set: the build must fail with
//! `NumericalInstability` rather than let a non-finite value propagate.  The
//! numeric shell computes η in floating point and reports |η| here in
//! ten-millionths (saturated when the computation already overflowed); the
//! decision itself is made and proved in this module.

use vstd::prelude::*;

verus! {

/// |η| equal to exactly 1, in ten-millionths: the first magnitude at which
/// the (1 − η²) divisors of the drag coefficients vanish.
pub const ETA_UNITY_E7: u64 = 10_000_000;

/// A geometric eccentricity factor too large for the drag coefficients:
/// |η| at or beyond 1.
pub open spec fn eta_singular(eta_abs_e7: u64) -> bool {
    eta_abs_e7 >= ETA_UNITY_E7
}

/// Decides whether building the drag coefficients would divide by a
/// vanishing (1 − η²): true exactly when the reported |η| is at or beyond
/// 1.  A true result must surface as `NumericalInstability` and latch the
/// satellite record.
pub fn eta_unstable(eta_abs_e7: u64) -> (r: bool)
    ensures
        r == eta_singular(eta_abs_e7),
{
    eta_abs_e7 >= ETA_UNITY_E7
}

} // verus!
