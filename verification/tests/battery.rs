use batteryinfo::battery::{select_battery, Battery, Error, ProviderSnapshot};
use batteryinfo::enums::{State, TempUnit, TimeFormat};

fn sample_snapshot() -> ProviderSnapshot {
    ProviderSnapshot {
        vendor: Some(" ACME Corp. ".to_string()),
        model: Some("BAT-1".to_string()),
        serial_number: Some(" SN123 ".to_string()),
        technology: "Li-ion".to_string(),
        state_of_charge_milli_percent: 95_260,
        state: State::Charging,
        state_of_health_milli_percent: 87_500,
        temperature_milli_celsius: Some(25_000),
        cycle_count: Some(42),
        energy_milli_wh: 45_230,
        energy_full_milli_wh: 50_000,
        energy_full_design_milli_wh: 55_000,
        energy_rate_milli_w: 12_340,
        voltage_milli_v: 11_400,
        time_to_empty_milli_s: Some(150_000),
        time_to_full_milli_s: None,
    }
}

fn newer_snapshot() -> ProviderSnapshot {
    ProviderSnapshot {
        vendor: Some("Other Vendor".to_string()),
        model: Some("OTHER-9".to_string()),
        serial_number: Some("ZZ999".to_string()),
        technology: "Li-ion".to_string(),
        state_of_charge_milli_percent: 80_000,
        state: State::Discharging,
        state_of_health_milli_percent: 86_000,
        temperature_milli_celsius: Some(30_000),
        cycle_count: Some(43),
        energy_milli_wh: 40_000,
        energy_full_milli_wh: 50_000,
        energy_full_design_milli_wh: 55_000,
        energy_rate_milli_w: 8_000,
        voltage_milli_v: 11_200,
        time_to_empty_milli_s: Some(300_000),
        time_to_full_milli_s: Some(60_000),
    }
}

fn sample_battery(fmt: TimeFormat, unit: TempUnit) -> Battery {
    Battery::new(0, Ok(sample_snapshot()), fmt, unit, 500, 0).unwrap()
}

#[test]
fn select_defaults_to_first_battery() {
    assert_eq!(select_battery(None, 2), Ok(0));
    assert_eq!(select_battery(Some(1), 2), Ok(1));
}

#[test]
fn select_fails_when_no_batteries() {
    assert_eq!(select_battery(None, 0), Err(Error::NoBatteriesFound));
    assert_eq!(select_battery(Some(3), 0), Err(Error::NoBatteriesFound));
}

#[test]
fn select_fails_one_past_last_index() {
    assert_eq!(select_battery(Some(2), 2), Err(Error::IndexOutOfRange));
}

#[test]
fn construction_wraps_provider_failure() {
    let r = Battery::new(
        0,
        Err("query failed".to_string()),
        TimeFormat::Human,
        TempUnit::DegF,
        500,
        0,
    );
    match r {
        Err(e) => assert_eq!(e, Error::ProviderError("query failed".to_string())),
        Ok(_) => panic!("construction must fail when the provider fails"),
    }
}

#[test]
fn construction_trims_identity_strings() {
    let b = sample_battery(TimeFormat::Human, TempUnit::DegF);
    assert_eq!(b.vendor().as_deref(), Some("ACME Corp."));
    assert_eq!(b.model().as_deref(), Some("BAT-1"));
    assert_eq!(b.serial_number().as_deref(), Some("SN123"));
    assert_eq!(b.technology().as_str(), "Li-ion");
}

#[test]
fn construction_keeps_absent_and_empty_identity() {
    let mut snap = sample_snapshot();
    snap.vendor = None;
    snap.model = Some("   ".to_string());
    let b = Battery::new(0, Ok(snap), TimeFormat::Human, TempUnit::DegF, 500, 0).unwrap();
    assert_eq!(*b.vendor(), None);
    assert_eq!(b.model().as_deref(), Some(""));
}

#[test]
fn construction_converts_temperature_to_fahrenheit() {
    let b = sample_battery(TimeFormat::Human, TempUnit::DegF);
    let t = b.temperature().as_ref().unwrap();
    assert_eq!(t.value(), 77_000);
    assert_eq!(t.units().as_str(), "°F");
    assert_eq!(t.formatted(), "77.0 °F");
}

#[test]
fn construction_keeps_celsius_when_requested() {
    let b = sample_battery(TimeFormat::Human, TempUnit::DegC);
    let t = b.temperature().as_ref().unwrap();
    assert_eq!(t.value(), 25_000);
    assert_eq!(t.formatted(), "25.0 °C");
}

#[test]
fn construction_leaves_missing_temperature_absent() {
    let mut snap = sample_snapshot();
    snap.temperature_milli_celsius = None;
    let b = Battery::new(0, Ok(snap), TimeFormat::Human, TempUnit::DegF, 500, 0).unwrap();
    assert!(b.temperature().is_none());
}

#[test]
fn construction_renders_time_estimates() {
    let b = sample_battery(TimeFormat::Seconds, TempUnit::DegF);
    assert_eq!(b.time_to_empty().as_deref(), Some("150.0 seconds"));
    assert_eq!(*b.time_to_full(), None);
    let b = sample_battery(TimeFormat::Minutes, TempUnit::DegF);
    assert_eq!(b.time_to_empty().as_deref(), Some("2.5 minutes"));
    let b = sample_battery(TimeFormat::Human, TempUnit::DegF);
    assert_eq!(b.time_to_empty().as_deref(), Some("2m,30s"));
}

#[test]
fn reads_within_interval_trigger_no_query() {
    let mut b = sample_battery(TimeFormat::Human, TempUnit::DegF);
    let mut provider_calls = 0;
    for now in [100u64, 499] {
        if b.needs_refresh(now) {
            provider_calls += 1;
            b.refresh(Ok(newer_snapshot()), now).unwrap();
        }
    }
    assert_eq!(provider_calls, 0);
    assert_eq!(b.percent().value(), 95_260);
}

#[test]
fn read_after_interval_triggers_one_query() {
    let mut b = sample_battery(TimeFormat::Human, TempUnit::DegF);
    let mut provider_calls = 0;
    for now in [500u64, 600, 999] {
        if b.needs_refresh(now) {
            provider_calls += 1;
            b.refresh(Ok(newer_snapshot()), now).unwrap();
        }
    }
    // Stale exactly at the interval; the refresh at 500 restamps, so the
    // reads at 600 and 999 are within the new window.
    assert_eq!(provider_calls, 1);
    assert_eq!(b.percent().value(), 80_000);
}

#[test]
fn forced_refresh_merges_volatile_and_keeps_identity() {
    let mut b = sample_battery(TimeFormat::Seconds, TempUnit::DegC);
    b.refresh(Ok(newer_snapshot()), 10).unwrap();
    // Identity: unchanged even though the provider reported new values.
    assert_eq!(b.vendor().as_deref(), Some("ACME Corp."));
    assert_eq!(b.model().as_deref(), Some("BAT-1"));
    assert_eq!(b.serial_number().as_deref(), Some("SN123"));
    // Volatile: all replaced with the newest values.
    assert_eq!(b.percent().value(), 80_000);
    assert_eq!(b.state(), State::Discharging);
    assert_eq!(b.capacity().value(), 86_000);
    assert_eq!(b.temperature().as_ref().unwrap().value(), 30_000);
    assert_eq!(b.cycle_count(), Some(43));
    assert_eq!(b.energy().value(), 40_000);
    assert_eq!(b.energy_full().value(), 50_000);
    assert_eq!(b.energy_full_design().value(), 55_000);
    assert_eq!(b.energy_rate().value(), 8_000);
    assert_eq!(b.voltage().value(), 11_200);
    assert_eq!(b.time_to_empty().as_deref(), Some("300.0 seconds"));
    assert_eq!(b.time_to_full().as_deref(), Some("60.0 seconds"));
}

#[test]
fn failed_refresh_keeps_stale_snapshot_readable() {
    let mut b = sample_battery(TimeFormat::Seconds, TempUnit::DegC);
    let before = b.as_dict();
    let r = b.refresh(Err("bus timeout".to_string()), 900);
    assert_eq!(r, Err(Error::ProviderError("bus timeout".to_string())));
    let after = b.as_dict();
    assert_eq!(before, after);
    assert_eq!(b.percent().value(), 95_260);
}

#[test]
fn refresh_restamps_the_window() {
    let mut b = sample_battery(TimeFormat::Human, TempUnit::DegF);
    assert!(b.needs_refresh(700));
    b.refresh(Ok(newer_snapshot()), 700).unwrap();
    assert!(!b.needs_refresh(1100));
    assert!(b.needs_refresh(1200));
}

#[test]
fn refresh_interval_is_mutable() {
    let mut b = sample_battery(TimeFormat::Human, TempUnit::DegF);
    assert_eq!(b.refresh_interval(), 500);
    b.set_refresh_interval(2_000);
    assert_eq!(b.refresh_interval(), 2_000);
    assert!(!b.needs_refresh(1_500));
    assert!(b.needs_refresh(2_000));
}

#[test]
fn dict_exports_the_full_snapshot() {
    let b = sample_battery(TimeFormat::Seconds, TempUnit::DegC);
    let d = b.as_dict();
    let expected: Vec<(&str, &str)> = vec![
        ("vendor", "ACME Corp."),
        ("model", "BAT-1"),
        ("serial_number", "SN123"),
        ("technology", "Li-ion"),
        ("percent", "95.3%"),
        ("state", "charging"),
        ("capacity", "87.5%"),
        ("temperature", "25.0 °C"),
        ("cycle_count", "42"),
        ("energy", "45.2 Wh"),
        ("energy_full", "50.0 Wh"),
        ("energy_full_design", "55.0 Wh"),
        ("energy_rate", "12.3 W"),
        ("voltage", "11.4 V"),
        ("time_to_empty", "150.0 seconds"),
        ("time_to_full", ""),
        ("battery_index", "0"),
    ];
    assert_eq!(d.len(), expected.len());
    for (got, want) in d.iter().zip(expected.iter()) {
        assert_eq!(got.0, want.0);
        assert_eq!(got.1, want.1);
    }
}

#[test]
fn dict_renders_absent_optionals_as_empty() {
    let mut snap = sample_snapshot();
    snap.vendor = None;
    snap.temperature_milli_celsius = None;
    snap.cycle_count = None;
    snap.time_to_empty_milli_s = None;
    let b = Battery::new(3, Ok(snap), TimeFormat::Human, TempUnit::DegF, 500, 0).unwrap();
    let d = b.as_dict();
    assert_eq!(d[0], ("vendor".to_string(), "".to_string()));
    assert_eq!(d[7], ("temperature".to_string(), "".to_string()));
    assert_eq!(d[8], ("cycle_count".to_string(), "".to_string()));
    assert_eq!(d[14], ("time_to_empty".to_string(), "".to_string()));
    assert_eq!(d[16], ("battery_index".to_string(), "3".to_string()));
}

#[test]
fn state_has_name_and_display_forms() {
    assert_eq!(State::Charging.name(), "Charging");
    assert_eq!(State::Charging.display(), "charging");
    assert_eq!(State::Unknown.name(), "Unknown");
    assert_eq!(State::Full.display(), "full");
}

#[test]
fn configuration_enums_have_names() {
    assert_eq!(TimeFormat::Seconds.name(), "Seconds");
    assert_eq!(TimeFormat::Human.name(), "Human");
    assert_eq!(TempUnit::DegC.name(), "DegC");
    assert_eq!(TempUnit::DegF.name(), "DegF");
}
