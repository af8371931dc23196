use batteryinfo::measurement::Measurement;

#[test]
fn formatted_percent_no_space() {
    let m = Measurement::new(95_260, "%".to_string(), 1);
    assert_eq!(m.formatted(), "95.3%");
}

#[test]
fn formatted_unit_with_space() {
    let m = Measurement::new(11_734, "Wh".to_string(), 2);
    assert_eq!(m.formatted(), "11.73 Wh");
}

#[test]
fn formatted_is_idempotent() {
    let m = Measurement::new(95_260, "%".to_string(), 1);
    let first = m.formatted();
    let second = m.formatted();
    assert_eq!(first, second);
    assert_eq!(m.value(), 95_260);
}

#[test]
fn formatted_zero_decimals() {
    let m = Measurement::new(95_260, "%".to_string(), 0);
    assert_eq!(m.formatted(), "95%");
}

#[test]
fn formatted_pads_fraction_with_zeros() {
    let m = Measurement::new(5_050, "V".to_string(), 2);
    assert_eq!(m.formatted(), "5.05 V");
}

#[test]
fn formatted_rounds_half_away_from_zero() {
    let m = Measurement::new(95_250, "%".to_string(), 1);
    assert_eq!(m.formatted(), "95.3%");
}

#[test]
fn formatted_negative_value() {
    let m = Measurement::new(-12_340, "W".to_string(), 1);
    assert_eq!(m.formatted(), "-12.3 W");
}

#[test]
fn formatted_small_negative_keeps_sign() {
    let m = Measurement::new(-40, "W".to_string(), 1);
    assert_eq!(m.formatted(), "-0.0 W");
}

#[test]
fn value_and_units_are_read_only_views() {
    let m = Measurement::new(11_734, "Wh".to_string(), 2);
    assert_eq!(m.value(), 11_734);
    assert_eq!(m.units().as_str(), "Wh");
    assert_eq!(m.formatted(), "11.73 Wh");
    assert_eq!(m.value(), 11_734);
}
