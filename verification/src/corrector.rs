//! Singularity guard for the short-period corrector.
//!
//! The standard short-period correction terms divide by quantities that
//! vanish as the eccentricity approaches zero or the inclination approaches
//! 0 or π.  Rather than let the numeric shell discover a near-zero divisor
//! at evaluation time, the formulation is chosen here, in advance, from the
//! element values alone: near-singular geometries take the long-form
//! expressions that stay finite at zero eccentricity and at equatorial
//! (direct or retrograde) inclination.

use vstd::prelude::*;

use crate::elements::HALF_TURN_UDEG;

verus! {

/// Eccentricities under this bound (10⁻⁴, in ten-millionths) count as
/// near-circular for the corrector.
pub const ECC_GUARD_E7: u64 = 1_000;

/// Inclinations within this distance of 0 or of π count as near-equatorial
/// for the corrector: about 10⁻⁴ radians, in millionths of a degree.
pub const INCL_GUARD_UDEG: u64 = 5_730;

/// Which formulation of the short-period correction terms to evaluate.
#[derive(Clone, Copy, Debug, PartialEq, Eq, Structural)]
pub enum CorrectorForm {
    /// The standard terms; safe away from the singular geometries.
    Standard,
    /// The long-form terms, finite at zero eccentricity and at zero or π
    /// inclination.
    LongForm,
}

/// A geometry close enough to a singular one — near-zero eccentricity, or
/// inclination near 0 or near π — that the standard correction terms would
/// divide by a near-zero quantity.
pub open spec fn singular_geometry(ecc_e7: u64, incl_udeg: u64) -> bool {
    ||| ecc_e7 < ECC_GUARD_E7
    ||| incl_udeg < INCL_GUARD_UDEG
    ||| incl_udeg > HALF_TURN_UDEG - INCL_GUARD_UDEG
}

/// Chooses the corrector formulation from the element values: exactly the
/// near-singular geometries take the long form, so no propagation call can
/// reach the standard terms with a vanishing divisor.
pub fn choose_form(ecc_e7: u64, incl_udeg: u64) -> (f: CorrectorForm)
    ensures
        f is LongForm <==> singular_geometry(ecc_e7, incl_udeg),
        f is Standard <==> !singular_geometry(ecc_e7, incl_udeg),
{
    if ecc_e7 < ECC_GUARD_E7 || incl_udeg < INCL_GUARD_UDEG
        || incl_udeg > HALF_TURN_UDEG - INCL_GUARD_UDEG {
        CorrectorForm::LongForm
    } else {
        CorrectorForm::Standard
    }
}

} // verus!
