//! Verified decision core of a simplified-perturbations (SGP4/SDP4) satellite
//! propagator.
//!
//! The perturbation series themselves are floating-point algebra and run in an
//! unverified shell around this crate.  What this crate pins down, over
//! integer-scaled element values, is every decision that shell must make:
//!
//! * which element sets are physically meaningful ([`elements`]),
//! * which algorithm regime an orbit falls in — deep-space vs. near-Earth,
//!   low-perigee drag simplification, and the choice of the geometric
//!   parameter `s` ([`regime`]),
//! * when building the drag coefficients would divide by a vanishing
//!   quantity ([`coefficients`]),
//! * when the short-period corrector must switch to its singularity-safe
//!   long-form expressions ([`corrector`]),
//! * when secularly advanced elements mean the orbit has decayed
//!   ([`propagated`]),
//! * and how a satellite record moves between its `Initialized`, `Decayed`
//!   and `Error` states across propagation calls ([`record`]).

pub mod coefficients;
pub mod corrector;
pub mod elements;
pub mod errors;
pub mod propagated;
pub mod record;
pub mod regime;
