use sgp4::coefficients::{eta_unstable, ETA_UNITY_E7};
use sgp4::corrector::{choose_form, CorrectorForm, ECC_GUARD_E7, INCL_GUARD_UDEG};
use sgp4::elements::HALF_TURN_UDEG;
use sgp4::regime::{classify, SChoice};

#[test]
fn short_period_is_near_earth() {
    let r = classify(89_624, 300_000);
    assert!(!r.deep_space);
}

#[test]
fn period_at_threshold_is_deep_space() {
    assert!(classify(225_000, 300_000).deep_space);
    assert!(!classify(224_999, 300_000).deep_space);
}

#[test]
fn low_perigee_flag_at_threshold() {
    assert!(classify(89_624, 219_999).low_perigee);
    assert!(!classify(89_624, 220_000).low_perigee);
}

#[test]
fn s_bands_at_thresholds() {
    assert_eq!(classify(89_624, 97_999).s_choice, SChoice::FixedFloor);
    assert_eq!(classify(89_624, 98_000).s_choice, SChoice::PerigeeDerived);
    assert_eq!(classify(89_624, 155_999).s_choice, SChoice::PerigeeDerived);
    assert_eq!(classify(89_624, 156_000).s_choice, SChoice::Nominal);
}

#[test]
fn sub_surface_perigee_takes_the_floor() {
    let r = classify(89_624, -5_000);
    assert_eq!(r.s_choice, SChoice::FixedFloor);
    assert!(r.low_perigee);
}

#[test]
fn eta_at_unity_is_unstable() {
    assert!(eta_unstable(ETA_UNITY_E7));
    assert!(eta_unstable(u64::MAX));
    assert!(!eta_unstable(ETA_UNITY_E7 - 1));
    assert!(!eta_unstable(0));
}

#[test]
fn identical_inputs_classify_identically() {
    assert_eq!(classify(89_624, 198_338), classify(89_624, 198_338));
    assert_eq!(classify(225_000, -5_000), classify(225_000, -5_000));
}

#[test]
fn corrector_guards_zero_eccentricity() {
    assert_eq!(choose_form(0, 72_843_500), CorrectorForm::LongForm);
    assert_eq!(choose_form(ECC_GUARD_E7 - 1, 72_843_500), CorrectorForm::LongForm);
    assert_eq!(choose_form(ECC_GUARD_E7, 72_843_500), CorrectorForm::Standard);
}

#[test]
fn corrector_guards_equatorial_inclinations() {
    assert_eq!(choose_form(86_731, 0), CorrectorForm::LongForm);
    assert_eq!(choose_form(86_731, INCL_GUARD_UDEG - 1), CorrectorForm::LongForm);
    assert_eq!(choose_form(86_731, INCL_GUARD_UDEG), CorrectorForm::Standard);
    assert_eq!(choose_form(86_731, HALF_TURN_UDEG), CorrectorForm::LongForm);
    assert_eq!(
        choose_form(86_731, HALF_TURN_UDEG - INCL_GUARD_UDEG),
        CorrectorForm::Standard
    );
    assert_eq!(
        choose_form(86_731, HALF_TURN_UDEG - INCL_GUARD_UDEG + 1),
        CorrectorForm::LongForm
    );
}
