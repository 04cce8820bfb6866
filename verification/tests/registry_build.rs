use upower_registry::raw::{RawValue, FloatBits, FieldError};
use upower_registry::registry::{UPower, FetchPolicy, DeviceFetch};
use upower_registry::properties::State;

fn float(x: f64) -> RawValue {
    RawValue::Float(FloatBits(x.to_bits()))
}

fn text(s: &str) -> RawValue {
    RawValue::Text(s.to_owned())
}

/// A record with every field of the table present and well-typed.
fn full_record(native_path: &str) -> Vec<(String, RawValue)> {
    let entries = vec![
        ("NativePath", text(native_path)),
        ("Vendor", text("Acme")),
        ("Model", text("PowerCell")),
        ("Serial", text("SN-0001")),
        ("UpdateTime", RawValue::Uint(1700000000)),
        ("Type", RawValue::Uint(2)),
        ("PowerSupply", RawValue::Bool(true)),
        ("HasHistory", RawValue::Bool(true)),
        ("HasStatistics", RawValue::Bool(false)),
        ("Online", RawValue::Bool(false)),
        ("Energy", float(42.5)),
        ("EnergyEmpty", float(0.0)),
        ("EnergyFull", float(55.0)),
        ("EnergyFullDesign", float(57.0)),
        ("EnergyRate", float(12.25)),
        ("ChargeCycles", RawValue::Int(321)),
        ("Luminosity", float(0.0)),
        ("Voltage", float(12.1)),
        ("TimeToEmpty", RawValue::Int(3600)),
        ("TimeToFull", RawValue::Int(-1)),
        ("Percentage", float(87.5)),
        ("Temperature", float(29.5)),
        ("IsPresent", RawValue::Bool(true)),
        ("State", RawValue::Uint(2)),
        ("IsRechargeable", RawValue::Bool(true)),
        ("Capacity", float(87.5)),
        ("Technology", RawValue::Uint(1)),
        ("WarningLevel", RawValue::Uint(1)),
        ("BatteryLevel", RawValue::Uint(6)),
        ("IconName", text("battery-full-symbolic")),
        ("ChargeStartThreshold", RawValue::Uint(40)),
        ("ChargeEndThreshold", RawValue::Uint(80)),
        ("ChargeThresholdEnabled", RawValue::Bool(true)),
        ("ChargeThresholdSupported", RawValue::Bool(true)),
        ("VoltageMinDesign", float(10.8)),
        ("VoltageMaxDesign", float(12.6)),
        ("CapacityLevel", text("Normal")),
    ];
    let mut record: Vec<(String, RawValue)> = Vec::new();
    for (name, value) in entries {
        record.push((name.to_owned(), value));
    }
    record
}

fn fetch(handle: &str) -> DeviceFetch {
    DeviceFetch { handle: handle.to_owned(), record: full_record(handle) }
}

fn fetch_without(handle: &str, missing: &str) -> DeviceFetch {
    DeviceFetch {
        handle: handle.to_owned(),
        record: full_record(handle).into_iter().filter(|e| e.0 != missing).collect(),
    }
}

#[test]
fn empty_enumeration_builds_an_empty_registry() {
    let (registry, failures) = UPower::build(&Vec::new(), FetchPolicy::Permissive);
    assert!(registry.devices().is_empty());
    assert!(failures.is_empty());
}

#[test]
fn registry_order_equals_enumeration_order() {
    let inputs = vec![fetch("h1"), fetch("h2"), fetch("h3")];
    let (registry, failures) = UPower::build(&inputs, FetchPolicy::Permissive);
    assert!(failures.is_empty());
    let devices = registry.devices();
    assert_eq!(devices.len(), 3);
    assert_eq!(devices[0].native_path, Some("h1".to_owned()));
    assert_eq!(devices[1].native_path, Some("h2".to_owned()));
    assert_eq!(devices[2].native_path, Some("h3".to_owned()));
}

#[test]
fn registry_order_follows_any_permutation_of_the_same_handles() {
    let inputs = vec![fetch("h3"), fetch("h1"), fetch("h2")];
    let (registry, _) = UPower::build(&inputs, FetchPolicy::Permissive);
    let devices = registry.devices();
    assert_eq!(devices[0].native_path, Some("h3".to_owned()));
    assert_eq!(devices[1].native_path, Some("h1".to_owned()));
    assert_eq!(devices[2].native_path, Some("h2".to_owned()));
}

#[test]
fn two_device_build_decodes_both_snapshots() {
    // Scenario: enumeration yields two handles and both records are
    // complete; charge-state code 2 decodes to Discharging and capacity
    // 87.5 arrives unchanged.
    let inputs = vec![fetch("h1"), fetch("h2")];
    let (registry, failures) = UPower::build(&inputs, FetchPolicy::Permissive);
    assert!(failures.is_empty());
    let devices = registry.devices();
    assert_eq!(devices.len(), 2);
    assert_eq!(devices[0].state, Some(State::Discharging));
    assert_eq!(devices[0].capacity, Some(FloatBits((87.5f64).to_bits())));
}

#[test]
fn permissive_build_keeps_a_failing_device_with_diagnostics() {
    // Scenario: h2's "Temperature" is the only failing field. The
    // permissive build keeps both devices; h2's snapshot has the field
    // absent, and the failure stays inspectable beside the registry.
    let inputs = vec![fetch("h1"), fetch_without("h2", "Temperature")];
    let (registry, failures) = UPower::build(&inputs, FetchPolicy::Permissive);
    let devices = registry.devices();
    assert_eq!(devices.len(), 2);
    assert_eq!(devices[1].temperature, None);
    assert_eq!(devices[1].vendor, Some("Acme".to_owned()));
    assert_eq!(failures.len(), 1);
    assert_eq!(failures[0].handle, "h2");
    assert_eq!(failures[0].field, "Temperature");
    assert_eq!(failures[0].cause, FieldError::Unavailable);
}

#[test]
fn strict_build_omits_a_failing_device_and_records_the_failure() {
    // Scenario: under the strict policy the device with the failing
    // field is omitted and a device-level failure is recorded; the
    // sibling device is unaffected.
    let inputs = vec![fetch("h1"), fetch_without("h2", "Temperature")];
    let (registry, failures) = UPower::build(&inputs, FetchPolicy::Strict);
    let devices = registry.devices();
    assert_eq!(devices.len(), 1);
    assert_eq!(devices[0].native_path, Some("h1".to_owned()));
    assert_eq!(failures.len(), 1);
    assert_eq!(failures[0].handle, "h2");
    assert_eq!(failures[0].field, "Temperature");
    assert_eq!(failures[0].cause, FieldError::Unavailable);
}

#[test]
fn strict_build_keeps_the_order_of_surviving_devices() {
    let inputs = vec![
        fetch_without("h1", "Vendor"),
        fetch("h2"),
        fetch_without("h3", "Energy"),
        fetch("h4"),
    ];
    let (registry, failures) = UPower::build(&inputs, FetchPolicy::Strict);
    let devices = registry.devices();
    assert_eq!(devices.len(), 2);
    assert_eq!(devices[0].native_path, Some("h2".to_owned()));
    assert_eq!(devices[1].native_path, Some("h4".to_owned()));
    assert_eq!(failures.len(), 2);
    assert_eq!(failures[0].handle, "h1");
    assert_eq!(failures[1].handle, "h3");
}

#[test]
fn permissive_build_collects_every_field_failure_in_order() {
    let inputs = vec![fetch_without("h1", "Vendor"), fetch_without("h2", "Energy")];
    let (_, failures) = UPower::build(&inputs, FetchPolicy::Permissive);
    assert_eq!(failures.len(), 2);
    assert_eq!(failures[0].handle, "h1");
    assert_eq!(failures[0].field, "Vendor");
    assert_eq!(failures[1].handle, "h2");
    assert_eq!(failures[1].field, "Energy");
}

#[test]
fn out_of_range_threshold_under_strict_omits_the_device() {
    let mut record = full_record("h1");
    for entry in record.iter_mut() {
        if entry.0 == "ChargeStartThreshold" {
            entry.1 = RawValue::Uint(150);
        }
    }
    let inputs = vec![DeviceFetch { handle: "h1".to_owned(), record }];
    let (registry, failures) = UPower::build(&inputs, FetchPolicy::Strict);
    assert!(registry.devices().is_empty());
    assert_eq!(failures.len(), 1);
    assert_eq!(failures[0].field, "ChargeStartThreshold");
    assert_eq!(failures[0].cause, FieldError::OutOfRange(150));
}
