use upower_registry::raw::{RawValue, FloatBits, FieldError};
use upower_registry::snapshot::{assemble_permissive, assemble_strict};
use upower_registry::properties::{
    Type, State, Technology, WarningLevel, BatteryLevel, CapacityLevel,
};

fn float(x: f64) -> RawValue {
    RawValue::Float(FloatBits(x.to_bits()))
}

fn text(s: &str) -> RawValue {
    RawValue::Text(s.to_owned())
}

/// A record with every field of the table present and well-typed.
fn full_record() -> Vec<(String, RawValue)> {
    let entries = vec![
        ("NativePath", text("/sys/class/power_supply/BAT0")),
        ("Vendor", text("Acme")),
        ("Model", text("PowerCell")),
        ("Serial", text("SN-0001")),
        ("UpdateTime", RawValue::Uint(1700000000)),
        ("Type", RawValue::Uint(2)),
        ("PowerSupply", RawValue::Bool(true)),
        ("HasHistory", RawValue::Bool(true)),
        ("HasStatistics", RawValue::Bool(false)),
        ("Online", RawValue::Bool(false)),
        ("Energy", float(42.5)),
        ("EnergyEmpty", float(0.0)),
        ("EnergyFull", float(55.0)),
        ("EnergyFullDesign", float(57.0)),
        ("EnergyRate", float(12.25)),
        ("ChargeCycles", RawValue::Int(321)),
        ("Luminosity", float(0.0)),
        ("Voltage", float(12.1)),
        ("TimeToEmpty", RawValue::Int(3600)),
        ("TimeToFull", RawValue::Int(-1)),
        ("Percentage", float(87.5)),
        ("Temperature", float(29.5)),
        ("IsPresent", RawValue::Bool(true)),
        ("State", RawValue::Uint(2)),
        ("IsRechargeable", RawValue::Bool(true)),
        ("Capacity", float(87.5)),
        ("Technology", RawValue::Uint(1)),
        ("WarningLevel", RawValue::Uint(1)),
        ("BatteryLevel", RawValue::Uint(6)),
        ("IconName", text("battery-full-symbolic")),
        ("ChargeStartThreshold", RawValue::Uint(40)),
        ("ChargeEndThreshold", RawValue::Uint(80)),
        ("ChargeThresholdEnabled", RawValue::Bool(true)),
        ("ChargeThresholdSupported", RawValue::Bool(true)),
        ("VoltageMinDesign", float(10.8)),
        ("VoltageMaxDesign", float(12.6)),
        ("CapacityLevel", text("Normal")),
    ];
    let mut record: Vec<(String, RawValue)> = Vec::new();
    for (name, value) in entries {
        record.push((name.to_owned(), value));
    }
    record
}

fn without(record: Vec<(String, RawValue)>, name: &str) -> Vec<(String, RawValue)> {
    record.into_iter().filter(|e| e.0 != name).collect()
}

fn replaced(
    record: Vec<(String, RawValue)>,
    name: &str,
    value: RawValue,
) -> Vec<(String, RawValue)> {
    let mut out = without(record, name);
    out.push((name.to_owned(), value));
    out
}

#[test]
fn full_record_assembles_without_diagnostics() {
    // Scenario: a full property set with charge-state code 2 and
    // capacity 87.5 decodes to Discharging with capacity 87.5.
    let (snapshot, diags) = assemble_permissive(&full_record());
    assert!(diags.is_empty());
    assert_eq!(snapshot.state, Some(State::Discharging));
    assert_eq!(snapshot.capacity, Some(FloatBits((87.5f64).to_bits())));
    assert_eq!(snapshot.native_path, Some("/sys/class/power_supply/BAT0".to_owned()));
    assert_eq!(snapshot.vendor, Some("Acme".to_owned()));
    assert_eq!(snapshot.update_time, Some(1700000000));
    assert_eq!(snapshot.type_, Some(Type::Battery));
    assert_eq!(snapshot.technology, Some(Technology::LithiumIon));
    assert_eq!(snapshot.warning_level, Some(WarningLevel::NoWarning));
    assert_eq!(snapshot.battery_level, Some(BatteryLevel::Normal));
    assert_eq!(snapshot.capacity_level, Some(CapacityLevel::Normal));
    assert_eq!(snapshot.charge_cycles, Some(321));
    assert_eq!(snapshot.time_to_full, Some(-1));
    assert_eq!(snapshot.charge_start_threshold.unwrap().get(), 40);
    assert_eq!(snapshot.charge_end_threshold.unwrap().get(), 80);
}

#[test]
fn missing_field_is_absent_and_reported_under_permissive() {
    // Scenario: only "Temperature" fails; every other field populates.
    let record = without(full_record(), "Temperature");
    let (snapshot, diags) = assemble_permissive(&record);
    assert_eq!(snapshot.temperature, None);
    assert_eq!(snapshot.state, Some(State::Discharging));
    assert_eq!(snapshot.vendor, Some("Acme".to_owned()));
    assert_eq!(snapshot.voltage, Some(FloatBits((12.1f64).to_bits())));
    assert_eq!(diags.len(), 1);
    assert_eq!(diags[0].field, "Temperature");
    assert_eq!(diags[0].cause, FieldError::Unavailable);
}

#[test]
fn missing_field_aborts_the_device_under_strict() {
    let record = without(full_record(), "Temperature");
    let failure = assemble_strict("h2", &record).unwrap_err();
    assert_eq!(failure.handle, "h2");
    assert_eq!(failure.field, "Temperature");
    assert_eq!(failure.cause, FieldError::Unavailable);
}

#[test]
fn out_of_range_threshold_is_rejected_and_reported() {
    // Scenario: a raw ChargeStartThreshold of 150 fails validation; the
    // field stays absent and every other field is unaffected.
    let record = replaced(full_record(), "ChargeStartThreshold", RawValue::Uint(150));
    let (snapshot, diags) = assemble_permissive(&record);
    assert_eq!(snapshot.charge_start_threshold, None);
    assert_eq!(snapshot.charge_end_threshold.unwrap().get(), 80);
    assert_eq!(snapshot.vendor, Some("Acme".to_owned()));
    assert_eq!(snapshot.state, Some(State::Discharging));
    assert_eq!(diags.len(), 1);
    assert_eq!(diags[0].field, "ChargeStartThreshold");
    assert_eq!(diags[0].cause, FieldError::OutOfRange(150));
}

#[test]
fn wrong_wire_type_is_absent_and_reported() {
    let record = replaced(full_record(), "Energy", RawValue::Bool(true));
    let (snapshot, diags) = assemble_permissive(&record);
    assert_eq!(snapshot.energy, None);
    assert_eq!(diags.len(), 1);
    assert_eq!(diags[0].field, "Energy");
    assert_eq!(diags[0].cause, FieldError::WrongType);
}

#[test]
fn unknown_enum_code_decodes_to_unknown_not_error() {
    let record = replaced(full_record(), "Type", RawValue::Uint(999));
    let (snapshot, diags) = assemble_permissive(&record);
    assert!(diags.is_empty());
    assert_eq!(snapshot.type_, Some(Type::Unknown));
}

#[test]
fn snapshot_round_trips_through_its_record() {
    let (snapshot, diags) = assemble_permissive(&full_record());
    assert!(diags.is_empty());
    let record = snapshot.to_record();
    let (reassembled, rediags) = assemble_permissive(&record);
    assert!(rediags.is_empty());
    assert_eq!(reassembled, snapshot);
}

#[test]
fn partial_snapshot_round_trips_through_its_record() {
    let record = without(without(full_record(), "Temperature"), "Serial");
    let (snapshot, _diags) = assemble_permissive(&record);
    let (reassembled, _rediags) = assemble_permissive(&snapshot.to_record());
    assert_eq!(reassembled, snapshot);
}

#[test]
fn unknown_snapshot_values_round_trip_through_canonical_codes() {
    // A snapshot holding Unknown serializes it as the canonical code 0,
    // which decodes back to Unknown: the snapshot round trip is exact.
    let record = replaced(
        replaced(full_record(), "Type", RawValue::Uint(999)),
        "CapacityLevel",
        text("plentiful"),
    );
    let (snapshot, _) = assemble_permissive(&record);
    assert_eq!(snapshot.type_, Some(Type::Unknown));
    assert_eq!(snapshot.capacity_level, Some(CapacityLevel::Unknown));
    let reserialized = snapshot.to_record();
    assert!(reserialized.contains(&("Type".to_owned(), RawValue::Uint(0))));
    assert!(reserialized.contains(&("CapacityLevel".to_owned(), text("unknown"))));
    let (reassembled, _) = assemble_permissive(&reserialized);
    assert_eq!(reassembled, snapshot);
    // The record round trip, by contrast, is lossy for codes outside
    // the table: 999 came back as the canonical 0.
    assert!(!reserialized.contains(&("Type".to_owned(), RawValue::Uint(999))));
}

#[test]
fn record_serializes_in_table_order_and_skips_absent_fields() {
    let record = without(full_record(), "Vendor");
    let (snapshot, _) = assemble_permissive(&record);
    let serialized = snapshot.to_record();
    assert_eq!(serialized.len(), 36);
    assert_eq!(serialized[0].0, "NativePath");
    assert_eq!(serialized[1].0, "Model");
    assert_eq!(serialized[35].0, "CapacityLevel");
    assert!(serialized.iter().all(|e| e.0 != "Vendor"));
}

#[test]
fn negative_time_fields_pass_through_unchanged() {
    let record = replaced(full_record(), "TimeToEmpty", RawValue::Int(-7));
    let (snapshot, diags) = assemble_permissive(&record);
    assert!(diags.is_empty());
    assert_eq!(snapshot.time_to_empty, Some(-7));
}
