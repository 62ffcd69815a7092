use sgp4::elements::{ElementSet, ECC_UNITY_E7, HALF_TURN_UDEG};
use sgp4::errors::Error;

fn sample() -> ElementSet {
    ElementSet {
        mean_motion_e8: 1_605_824_518,
        ecc_e7: 86_731,
        incl_udeg: 72_843_500,
        raan_udeg: 115_968_900,
        arg_perigee_udeg: 52_698_800,
        mean_anomaly_udeg: 110_571_400,
        bstar_e9: 66_816,
        epoch_day_e8: 27_598_708_465,
    }
}

#[test]
fn accepts_a_physical_element_set() {
    assert_eq!(sample().validate(), Ok(()));
}

#[test]
fn rejects_unit_eccentricity() {
    let e = ElementSet { ecc_e7: ECC_UNITY_E7, ..sample() };
    assert_eq!(e.validate(), Err(Error::InvalidElement));
}

#[test]
fn accepts_eccentricity_just_under_one() {
    let e = ElementSet { ecc_e7: ECC_UNITY_E7 - 1, ..sample() };
    assert_eq!(e.validate(), Ok(()));
}

#[test]
fn accepts_zero_eccentricity_and_zero_inclination() {
    let e = ElementSet { ecc_e7: 0, incl_udeg: 0, ..sample() };
    assert_eq!(e.validate(), Ok(()));
}

#[test]
fn rejects_zero_mean_motion() {
    let e = ElementSet { mean_motion_e8: 0, ..sample() };
    assert_eq!(e.validate(), Err(Error::InvalidElement));
}

#[test]
fn accepts_retrograde_equatorial_inclination() {
    let e = ElementSet { incl_udeg: HALF_TURN_UDEG, ..sample() };
    assert_eq!(e.validate(), Ok(()));
}

#[test]
fn rejects_inclination_past_half_turn() {
    let e = ElementSet { incl_udeg: HALF_TURN_UDEG + 1, ..sample() };
    assert_eq!(e.validate(), Err(Error::InvalidElement));
}
