//! Secularly advanced elements and the decay assessment.
//!
//! Each propagation call advances the mean elements to the requested elapsed
//! time.  The numeric shell evaluates the secular series in floating point
//! and reports the advanced values here as scaled integers (the same scales
//! as [`crate::elements`], with the semi-major axis in thousandths of an
//! Earth radius); this module decides, exactly, whether those values still
//! describe an orbit or mean the satellite has decayed.

use vstd::prelude::*;

use crate::elements::ECC_UNITY_E7;

verus! {

/// Elements advanced to a requested elapsed time, ephemeral to one
/// propagation call.  Drag decay and resonance drift are unbounded in time,
/// so every field is signed.
#[derive(Clone, Copy, Debug, PartialEq, Eq, Structural)]
pub struct PropagatedElements {
    /// Semi-major axis, in thousandths of an Earth radius.
    pub semi_major_mer: i64,
    /// Eccentricity, in ten-millionths.
    pub ecc_e7: i64,
    /// Inclination, in millionths of a degree.
    pub incl_udeg: i64,
    /// Right ascension of the ascending node, in millionths of a degree.
    pub raan_udeg: i64,
    /// Argument of perigee, in millionths of a degree.
    pub arg_perigee_udeg: i64,
    /// Mean anomaly, in millionths of a degree.
    pub mean_anomaly_udeg: i64,
}

impl PropagatedElements {
    /// Advanced elements that still describe an orbit: positive semi-major
    /// axis and eccentricity in [0, 1).  Anything else means the secular
    /// drag terms have driven the orbit below a valid altitude.
    pub open spec fn physical(self) -> bool {
        &&& self.semi_major_mer > 0
        &&& 0 <= self.ecc_e7 < ECC_UNITY_E7 as int
    }
}

/// The decay flag a propagation call raises: set exactly when the advanced
/// elements no longer describe an orbit.
pub open spec fn decay_flagged(p: PropagatedElements) -> bool {
    !p.physical()
}

/// Decides whether secular integration has decayed the orbit: true exactly
/// when the advanced semi-major axis is not positive or the advanced
/// eccentricity left [0, 1).  A decayed result must surface as
/// `OrbitDecayed`, never as a finite-looking but unphysical state.
pub fn decayed(p: &PropagatedElements) -> (r: bool)
    ensures
        r == decay_flagged(*p),
{
    p.semi_major_mer <= 0 || p.ecc_e7 < 0 || p.ecc_e7 >= ECC_UNITY_E7 as i64
}

/// Until a propagation call raises the decay flag, the elements it hands on
/// stay physical: the eccentricity lies in [0, 1) and the semi-major axis is
/// positive.  So a call that survives the decay assessment never carries an
/// unphysical eccentricity or semi-major axis into the Kepler solver or the
/// corrector.
pub proof fn lemma_surviving_elements_physical(p: PropagatedElements)
    ensures
        !decay_flagged(p) ==> {
            &&& p.semi_major_mer > 0
            &&& 0 <= p.ecc_e7
            &&& p.ecc_e7 < ECC_UNITY_E7 as int
        },
{
}

} // verus!
