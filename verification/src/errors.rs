//! The error taxonomy surfaced by the propagation engine.

use vstd::prelude::*;

verus! {

/// Why a propagation request, or the construction of a satellite record,
/// failed.  None of these is recovered locally: each is surfaced to the
/// caller, and the engine never substitutes a default or non-finite value
/// for a failed computation.
#[derive(Clone, Copy, Debug, PartialEq, Eq, Structural)]
pub enum Error {
    /// An input element is outside its physical range: eccentricity not in
    /// [0, 1), inclination not in [0, π], or mean motion not positive.
    InvalidElement,
    /// A computed divisor approached zero (|η| ≥ 1 in the drag coefficients,
    /// or a near-singular geometry reached the short-period corrector
    /// without its long-form guard).
    NumericalInstability,
    /// The Kepler solver did not converge within its iteration bound.
    ConvergenceFailure,
    /// Secular integration implies the orbit has decayed below a valid
    /// altitude.
    OrbitDecayed,
}

} // verus!
