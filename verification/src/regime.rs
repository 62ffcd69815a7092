//! Algorithm-regime selection.
//!
//! Once per element set, the engine derives the orbital period and the
//! perigee altitude and selects: the deep-space branch (lunar/solar and
//! resonance terms) for long periods; the low-perigee drag simplification;
//! and which value of the geometric parameter `s` the drag coefficients use.
//! The numeric shell computes period and perigee from the refined
//! (double-primed) elements and hands them here as scaled integers; the
//! selection itself is decided and proved in this module.

use vstd::prelude::*;

verus! {

/// Period threshold for the deep-space branch: 225 minutes, in thousandths
/// of a minute.
pub const DEEP_SPACE_PERIOD_MMIN: u64 = 225_000;

/// Perigee altitude below which the low-perigee drag simplification applies
/// (the higher-order drag terms D2–D4 are dropped): 220 km, in thousandths
/// of a kilometre.
pub const LOW_PERIGEE_MKM: i64 = 220_000;

/// Perigee altitude below which the geometric parameter `s` is re-derived
/// from the perigee itself: 156 km, in thousandths of a kilometre.
pub const S_PERIGEE_DERIVED_MKM: i64 = 156_000;

/// Perigee altitude below which `s` is clamped to its fixed floor (the
/// 20 km atmospheric floor): 98 km, in thousandths of a kilometre.
pub const S_FLOOR_MKM: i64 = 98_000;

/// Which value the geometric parameter `s` takes in the drag coefficients.
#[derive(Clone, Copy, Debug, PartialEq, Eq, Structural)]
pub enum SChoice {
    /// Perigee under 98 km: the fixed 20 km atmospheric floor.
    FixedFloor,
    /// Perigee in [98 km, 156 km): `s` re-derived from the perigee,
    /// `a0″(1 − e0) − s* + aE`.
    PerigeeDerived,
    /// Perigee at or above 156 km: the nominal tabulated `s*`.
    Nominal,
}

/// The algorithm branch an element set falls in, fixed once at
/// initialization and reused by every propagation call.
#[derive(Clone, Copy, Debug, PartialEq, Eq, Structural)]
pub struct Regime {
    /// Orbital period at least 225 minutes: integrate lunar/solar and
    /// resonance terms (the deep-space branch).
    pub deep_space: bool,
    /// Perigee under 220 km: drop the higher-order drag terms D2–D4.
    pub low_perigee: bool,
    /// Which value the geometric parameter `s` takes.
    pub s_choice: SChoice,
}

/// Selects the algorithm regime from the orbital period (thousandths of a
/// minute) and the perigee altitude (thousandths of a kilometre; negative
/// values, an orbit dipping below the surface, are meaningful inputs and
/// fall in the lowest band).
///
/// The perigee bands are tested lowest first, so the fixed floor takes
/// precedence wherever it applies: a perigee under 98 km never takes the
/// perigee-derived value of `s`.
pub fn classify(period_mmin: u64, perigee_mkm: i64) -> (r: Regime)
    ensures
        r.deep_space <==> period_mmin >= DEEP_SPACE_PERIOD_MMIN,
        r.low_perigee <==> perigee_mkm < LOW_PERIGEE_MKM,
        r.s_choice is FixedFloor <==> perigee_mkm < S_FLOOR_MKM,
        r.s_choice is PerigeeDerived
            <==> S_FLOOR_MKM <= perigee_mkm < S_PERIGEE_DERIVED_MKM,
        r.s_choice is Nominal <==> perigee_mkm >= S_PERIGEE_DERIVED_MKM,
{
    let s_choice = if perigee_mkm < S_FLOOR_MKM {
        SChoice::FixedFloor
    } else if perigee_mkm < S_PERIGEE_DERIVED_MKM {
        SChoice::PerigeeDerived
    } else {
        SChoice::Nominal
    };
    Regime {
        deep_space: period_mmin >= DEEP_SPACE_PERIOD_MMIN,
        low_perigee: perigee_mkm < LOW_PERIGEE_MKM,
        s_choice,
    }
}

} // verus!
