//! Mean orbital elements, scaled to integers.
//!
//! Every field of an element set as published in a two-line element record
//! carries a fixed number of digits, so each is held here exactly as a scaled
//! integer: angles in millionths of a degree, eccentricity in ten-millionths,
//! mean motion in hundred-millionths of a revolution per day.  The unverified
//! numeric shell converts these to floating point before it evaluates the
//! perturbation series; the decisions this crate makes read the integers
//! directly.

use vstd::prelude::*;

use crate::errors::Error;

verus! {

/// An eccentricity of exactly 1, in ten-millionths: the first value outside
/// the physical range [0, 1).
pub const ECC_UNITY_E7: u64 = 10_000_000;

/// Half a turn (180°, i.e. π radians) in millionths of a degree: the largest
/// physically meaningful inclination.
pub const HALF_TURN_UDEG: u64 = 180_000_000;

/// A full turn (360°) in millionths of a degree.
pub const FULL_TURN_UDEG: u64 = 360_000_000;

/// A satellite's mean orbital elements at its epoch, immutable once supplied.
///
/// The fields are the classical elements of a two-line element record; a
/// parsing collaborator outside this crate fills them in.
#[derive(Clone, Copy, Debug, PartialEq, Eq, Structural)]
pub struct ElementSet {
    /// Mean motion, in hundred-millionths of a revolution per day.
    pub mean_motion_e8: u64,
    /// Eccentricity, in ten-millionths.
    pub ecc_e7: u64,
    /// Inclination, in millionths of a degree.
    pub incl_udeg: u64,
    /// Right ascension of the ascending node, in millionths of a degree.
    pub raan_udeg: u64,
    /// Argument of perigee, in millionths of a degree.
    pub arg_perigee_udeg: u64,
    /// Mean anomaly, in millionths of a degree.
    pub mean_anomaly_udeg: u64,
    /// Drag term B*, in billionths of an inverse Earth radius; drag fitting
    /// can make it negative.
    pub bstar_e9: i64,
    /// Epoch, in hundred-millionths of a day since the start of the element
    /// set's reference year.
    pub epoch_day_e8: u64,
}

impl ElementSet {
    /// A physically meaningful element set: eccentricity in [0, 1),
    /// inclination in [0, π], mean motion positive.
    pub open spec fn valid(self) -> bool {
        &&& self.mean_motion_e8 > 0
        &&& self.ecc_e7 < ECC_UNITY_E7
        &&& self.incl_udeg <= HALF_TURN_UDEG
    }

    /// Accepts exactly the physically meaningful element sets; any other set
    /// describes a degenerate orbit and is rejected as `InvalidElement`.
    pub fn validate(&self) -> (r: Result<(), Error>)
        ensures
            r is Ok <==> self.valid(),
            r is Err ==> r->Err_0 == Error::InvalidElement,
    {
        if self.mean_motion_e8 > 0 && self.ecc_e7 < ECC_UNITY_E7
            && self.incl_udeg <= HALF_TURN_UDEG {
            Ok(())
        } else {
            Err(Error::InvalidElement)
        }
    }
}

} // verus!
