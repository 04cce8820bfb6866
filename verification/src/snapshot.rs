//! The device snapshot and its assembler.
//!
//! A snapshot is assembled from one device's fetched record under one of
//! two fault-tolerance policies. Under the permissive policy every field
//! is individually optional: a per-field failure leaves that field
//! absent and is kept as a diagnostic, while all other fields populate
//! normally. Under the strict policy any field failure aborts the whole
//! device and surfaces the first failing field with its cause.
//!
//! Floating-point measurements are carried as raw bit patterns
//! ([`FloatBits`]) and never interpreted. The two time-remaining fields
//! may be reported negative by the host service to mean "unknown or
//! inapplicable"; such values pass through unchanged, and normalising
//! them is deliberately left to the caller.

use vstd::prelude::*;
use crate::bounded::BoundedU32;
use crate::properties::{Type, State, Technology, WarningLevel, BatteryLevel, CapacityLevel};
use crate::raw::{
    RawValue, RawV, FieldError, Diagnostic, DiagnosticV, RecordV, record_view, diags_view,
    spec_lookup, spec_get_text, spec_get_bool, spec_get_u64, spec_get_u32, spec_get_i64,
    spec_get_i32, spec_get_float, spec_get_threshold, spec_diag, FloatBits, take_text, take_bool,
    take_u64, take_u32, take_i64, take_i32, take_float, take_threshold, opt_entry,
    lemma_lookup_opt_entry, lemma_lookup_concat,
};

verus! {

/// One device's assembled snapshot. Every field is individually
/// optional: under the permissive policy a failed field stays `None`;
/// under the strict policy a snapshot is only produced with every field
/// `Some`. Once assembled a snapshot is never mutated.
#[derive(Debug, Clone, PartialEq)]
pub struct UPowerDevice {
    pub native_path: Option<String>,
    pub vendor: Option<String>,
    pub model: Option<String>,
    pub serial: Option<String>,
    pub update_time: Option<u64>,
    pub type_: Option<Type>,
    pub power_supply: Option<bool>,
    pub has_history: Option<bool>,
    pub has_statistics: Option<bool>,
    pub on_line: Option<bool>,
    pub energy: Option<FloatBits>,
    pub energy_empty: Option<FloatBits>,
    pub energy_full: Option<FloatBits>,
    pub energy_full_design: Option<FloatBits>,
    pub energy_rate: Option<FloatBits>,
    pub charge_cycles: Option<i32>,
    pub luminosity: Option<FloatBits>,
    pub voltage: Option<FloatBits>,
    pub time_to_empty: Option<i64>,
    pub time_to_full: Option<i64>,
    pub percentage: Option<FloatBits>,
    pub temperature: Option<FloatBits>,
    pub is_present: Option<bool>,
    pub state: Option<State>,
    pub is_rechargeable: Option<bool>,
    pub capacity: Option<FloatBits>,
    pub technology: Option<Technology>,
    pub warning_level: Option<WarningLevel>,
    pub battery_level: Option<BatteryLevel>,
    pub icon_name: Option<String>,
    pub charge_start_threshold: Option<BoundedU32>,
    pub charge_end_threshold: Option<BoundedU32>,
    pub charge_threshold_enabled: Option<bool>,
    pub charge_threshold_supported: Option<bool>,
    pub voltage_min_design: Option<FloatBits>,
    pub voltage_max_design: Option<FloatBits>,
    pub capacity_level: Option<CapacityLevel>,
}

/// The mathematical model of a snapshot: text as character sequences,
/// floats as bit patterns, bounded integers as their values.
#[verifier::ext_equal]
pub struct DeviceSnapshotView {
    pub native_path: Option<Seq<char>>,
    pub vendor: Option<Seq<char>>,
    pub model: Option<Seq<char>>,
    pub serial: Option<Seq<char>>,
    pub update_time: Option<u64>,
    pub type_: Option<Type>,
    pub power_supply: Option<bool>,
    pub has_history: Option<bool>,
    pub has_statistics: Option<bool>,
    pub on_line: Option<bool>,
    pub energy: Option<u64>,
    pub energy_empty: Option<u64>,
    pub energy_full: Option<u64>,
    pub energy_full_design: Option<u64>,
    pub energy_rate: Option<u64>,
    pub charge_cycles: Option<i32>,
    pub luminosity: Option<u64>,
    pub voltage: Option<u64>,
    pub time_to_empty: Option<i64>,
    pub time_to_full: Option<i64>,
    pub percentage: Option<u64>,
    pub temperature: Option<u64>,
    pub is_present: Option<bool>,
    pub state: Option<State>,
    pub is_rechargeable: Option<bool>,
    pub capacity: Option<u64>,
    pub technology: Option<Technology>,
    pub warning_level: Option<WarningLevel>,
    pub battery_level: Option<BatteryLevel>,
    pub icon_name: Option<Seq<char>>,
    pub charge_start_threshold: Option<u32>,
    pub charge_end_threshold: Option<u32>,
    pub charge_threshold_enabled: Option<bool>,
    pub charge_threshold_supported: Option<bool>,
    pub voltage_min_design: Option<u64>,
    pub voltage_max_design: Option<u64>,
    pub capacity_level: Option<CapacityLevel>,
}

pub open spec fn opt_text_view(o: Option<String>) -> Option<Seq<char>> {
    match o {
        Some(s) => Some(s@),
        None => None,
    }
}

pub open spec fn opt_float_view(o: Option<FloatBits>) -> Option<u64> {
    match o {
        Some(b) => Some(b.spec_bits()),
        None => None,
    }
}

pub open spec fn opt_threshold_view(o: Option<BoundedU32>) -> Option<u32> {
    match o {
        Some(b) => Some(b.spec_value()),
        None => None,
    }
}

impl View for UPowerDevice {
    type V = DeviceSnapshotView;

    open spec fn view(&self) -> DeviceSnapshotView {
        DeviceSnapshotView {
            native_path: opt_text_view(self.native_path),
            vendor: opt_text_view(self.vendor),
            model: opt_text_view(self.model),
            serial: opt_text_view(self.serial),
            update_time: self.update_time,
            type_: self.type_,
            power_supply: self.power_supply,
            has_history: self.has_history,
            has_statistics: self.has_statistics,
            on_line: self.on_line,
            energy: opt_float_view(self.energy),
            energy_empty: opt_float_view(self.energy_empty),
            energy_full: opt_float_view(self.energy_full),
            energy_full_design: opt_float_view(self.energy_full_design),
            energy_rate: opt_float_view(self.energy_rate),
            charge_cycles: self.charge_cycles,
            luminosity: opt_float_view(self.luminosity),
            voltage: opt_float_view(self.voltage),
            time_to_empty: self.time_to_empty,
            time_to_full: self.time_to_full,
            percentage: opt_float_view(self.percentage),
            temperature: opt_float_view(self.temperature),
            is_present: self.is_present,
            state: self.state,
            is_rechargeable: self.is_rechargeable,
            capacity: opt_float_view(self.capacity),
            technology: self.technology,
            warning_level: self.warning_level,
            battery_level: self.battery_level,
            icon_name: opt_text_view(self.icon_name),
            charge_start_threshold: opt_threshold_view(self.charge_start_threshold),
            charge_end_threshold: opt_threshold_view(self.charge_end_threshold),
            charge_threshold_enabled: self.charge_threshold_enabled,
            charge_threshold_supported: self.charge_threshold_supported,
            voltage_min_design: opt_float_view(self.voltage_min_design),
            voltage_max_design: opt_float_view(self.voltage_max_design),
            capacity_level: self.capacity_level,
        }
    }
}

/// Projects a field read down to "present or absent".
pub open spec fn opt_ok<T>(res: Result<T, FieldError>) -> Option<T> {
    match res {
        Ok(v) => Some(v),
        Err(_) => None,
    }
}

pub open spec fn decode_type(res: Result<u32, FieldError>) -> Option<Type> {
    match res {
        Ok(c) => Some(Type::spec_from_code(c)),
        Err(_) => None,
    }
}

pub open spec fn decode_state(res: Result<u32, FieldError>) -> Option<State> {
    match res {
        Ok(c) => Some(State::spec_from_code(c)),
        Err(_) => None,
    }
}

pub open spec fn decode_technology(res: Result<u32, FieldError>) -> Option<Technology> {
    match res {
        Ok(c) => Some(Technology::spec_from_code(c)),
        Err(_) => None,
    }
}

pub open spec fn decode_warning_level(res: Result<u32, FieldError>) -> Option<WarningLevel> {
    match res {
        Ok(c) => Some(WarningLevel::spec_from_code(c)),
        Err(_) => None,
    }
}

pub open spec fn decode_battery_level(res: Result<u32, FieldError>) -> Option<BatteryLevel> {
    match res {
        Ok(c) => Some(BatteryLevel::spec_from_code(c)),
        Err(_) => None,
    }
}

pub open spec fn decode_capacity_level(res: Result<Seq<char>, FieldError>) -> Option<
    CapacityLevel,
> {
    match res {
        Ok(s) => Some(CapacityLevel::spec_from_text(s)),
        Err(_) => None,
    }
}

/// The snapshot a record assembles to under the permissive policy: each
/// field is the decoded value of its wire property, or absent where the
/// read, the coercion or the validation failed.
pub open spec fn spec_snapshot_of(r: RecordV) -> DeviceSnapshotView {
    DeviceSnapshotView {
        native_path: opt_ok(spec_get_text(r, "NativePath"@)),
        vendor: opt_ok(spec_get_text(r, "Vendor"@)),
        model: opt_ok(spec_get_text(r, "Model"@)),
        serial: opt_ok(spec_get_text(r, "Serial"@)),
        update_time: opt_ok(spec_get_u64(r, "UpdateTime"@)),
        type_: decode_type(spec_get_u32(r, "Type"@)),
        power_supply: opt_ok(spec_get_bool(r, "PowerSupply"@)),
        has_history: opt_ok(spec_get_bool(r, "HasHistory"@)),
        has_statistics: opt_ok(spec_get_bool(r, "HasStatistics"@)),
        on_line: opt_ok(spec_get_bool(r, "Online"@)),
        energy: opt_ok(spec_get_float(r, "Energy"@)),
        energy_empty: opt_ok(spec_get_float(r, "EnergyEmpty"@)),
        energy_full: opt_ok(spec_get_float(r, "EnergyFull"@)),
        energy_full_design: opt_ok(spec_get_float(r, "EnergyFullDesign"@)),
        energy_rate: opt_ok(spec_get_float(r, "EnergyRate"@)),
        charge_cycles: opt_ok(spec_get_i32(r, "ChargeCycles"@)),
        luminosity: opt_ok(spec_get_float(r, "Luminosity"@)),
        voltage: opt_ok(spec_get_float(r, "Voltage"@)),
        time_to_empty: opt_ok(spec_get_i64(r, "TimeToEmpty"@)),
        time_to_full: opt_ok(spec_get_i64(r, "TimeToFull"@)),
        percentage: opt_ok(spec_get_float(r, "Percentage"@)),
        temperature: opt_ok(spec_get_float(r, "Temperature"@)),
        is_present: opt_ok(spec_get_bool(r, "IsPresent"@)),
        state: decode_state(spec_get_u32(r, "State"@)),
        is_rechargeable: opt_ok(spec_get_bool(r, "IsRechargeable"@)),
        capacity: opt_ok(spec_get_float(r, "Capacity"@)),
        technology: decode_technology(spec_get_u32(r, "Technology"@)),
        warning_level: decode_warning_level(spec_get_u32(r, "WarningLevel"@)),
        battery_level: decode_battery_level(spec_get_u32(r, "BatteryLevel"@)),
        icon_name: opt_ok(spec_get_text(r, "IconName"@)),
        charge_start_threshold: opt_ok(spec_get_threshold(r, "ChargeStartThreshold"@)),
        charge_end_threshold: opt_ok(spec_get_threshold(r, "ChargeEndThreshold"@)),
        charge_threshold_enabled: opt_ok(spec_get_bool(r, "ChargeThresholdEnabled"@)),
        charge_threshold_supported: opt_ok(spec_get_bool(r, "ChargeThresholdSupported"@)),
        voltage_min_design: opt_ok(spec_get_float(r, "VoltageMinDesign"@)),
        voltage_max_design: opt_ok(spec_get_float(r, "VoltageMaxDesign"@)),
        capacity_level: decode_capacity_level(spec_get_text(r, "CapacityLevel"@)),
    }
}

/// The per-field diagnostics a record produces, in field-table order:
/// one entry, with its cause, for each field that failed to read,
/// coerce or validate.
pub open spec fn spec_diags_of(r: RecordV) -> Seq<DiagnosticV> {
    spec_diag(spec_get_text(r, "NativePath"@), "NativePath"@)
        + spec_diag(spec_get_text(r, "Vendor"@), "Vendor"@)
        + spec_diag(spec_get_text(r, "Model"@), "Model"@)
        + spec_diag(spec_get_text(r, "Serial"@), "Serial"@)
        + spec_diag(spec_get_u64(r, "UpdateTime"@), "UpdateTime"@)
        + spec_diag(spec_get_u32(r, "Type"@), "Type"@)
        + spec_diag(spec_get_bool(r, "PowerSupply"@), "PowerSupply"@)
        + spec_diag(spec_get_bool(r, "HasHistory"@), "HasHistory"@)
        + spec_diag(spec_get_bool(r, "HasStatistics"@), "HasStatistics"@)
        + spec_diag(spec_get_bool(r, "Online"@), "Online"@)
        + spec_diag(spec_get_float(r, "Energy"@), "Energy"@)
        + spec_diag(spec_get_float(r, "EnergyEmpty"@), "EnergyEmpty"@)
        + spec_diag(spec_get_float(r, "EnergyFull"@), "EnergyFull"@)
        + spec_diag(spec_get_float(r, "EnergyFullDesign"@), "EnergyFullDesign"@)
        + spec_diag(spec_get_float(r, "EnergyRate"@), "EnergyRate"@)
        + spec_diag(spec_get_i32(r, "ChargeCycles"@), "ChargeCycles"@)
        + spec_diag(spec_get_float(r, "Luminosity"@), "Luminosity"@)
        + spec_diag(spec_get_float(r, "Voltage"@), "Voltage"@)
        + spec_diag(spec_get_i64(r, "TimeToEmpty"@), "TimeToEmpty"@)
        + spec_diag(spec_get_i64(r, "TimeToFull"@), "TimeToFull"@)
        + spec_diag(spec_get_float(r, "Percentage"@), "Percentage"@)
        + spec_diag(spec_get_float(r, "Temperature"@), "Temperature"@)
        + spec_diag(spec_get_bool(r, "IsPresent"@), "IsPresent"@)
        + spec_diag(spec_get_u32(r, "State"@), "State"@)
        + spec_diag(spec_get_bool(r, "IsRechargeable"@), "IsRechargeable"@)
        + spec_diag(spec_get_float(r, "Capacity"@), "Capacity"@)
        + spec_diag(spec_get_u32(r, "Technology"@), "Technology"@)
        + spec_diag(spec_get_u32(r, "WarningLevel"@), "WarningLevel"@)
        + spec_diag(spec_get_u32(r, "BatteryLevel"@), "BatteryLevel"@)
        + spec_diag(spec_get_text(r, "IconName"@), "IconName"@)
        + spec_diag(spec_get_threshold(r, "ChargeStartThreshold"@), "ChargeStartThreshold"@)
        + spec_diag(spec_get_threshold(r, "ChargeEndThreshold"@), "ChargeEndThreshold"@)
        + spec_diag(spec_get_bool(r, "ChargeThresholdEnabled"@), "ChargeThresholdEnabled"@)
        + spec_diag(spec_get_bool(r, "ChargeThresholdSupported"@), "ChargeThresholdSupported"@)
        + spec_diag(spec_get_float(r, "VoltageMinDesign"@), "VoltageMinDesign"@)
        + spec_diag(spec_get_float(r, "VoltageMaxDesign"@), "VoltageMaxDesign"@)
        + spec_diag(spec_get_text(r, "CapacityLevel"@), "CapacityLevel"@)
}

/// A record is complete when every field of the table reads, coerces
/// and validates.
pub open spec fn spec_complete(r: RecordV) -> bool {
    spec_diags_of(r).len() == 0
}

/// Assembles one device's snapshot under the permissive policy: every
/// field that reads cleanly populates, every failure leaves its field
/// absent and is kept as a diagnostic with full context.
#[verifier::rlimit(100)]
pub fn assemble_permissive(record: &Vec<(String, RawValue)>) -> (res: (
    UPowerDevice,
    Vec<Diagnostic>,
))
    ensures
        res.0@ == spec_snapshot_of(record_view(record@)),
        diags_view(res.1@) == spec_diags_of(record_view(record@)),
{
    let ghost rv = record_view(record@);
    let mut diags: Vec<Diagnostic> = Vec::new();
    let native_path = take_text(record, "NativePath", &mut diags);
    proof {
        assert(diags_view(diags@) =~= spec_diag(spec_get_text(rv, "NativePath"@), "NativePath"@));
    }
    let vendor = take_text(record, "Vendor", &mut diags);
    let model = take_text(record, "Model", &mut diags);
    let serial = take_text(record, "Serial", &mut diags);
    let update_time = take_u64(record, "UpdateTime", &mut diags);
    let type_ = match take_u32(record, "Type", &mut diags) {
        Some(c) => Some(Type::from_code(c)),
        None => None,
    };
    let power_supply = take_bool(record, "PowerSupply", &mut diags);
    let has_history = take_bool(record, "HasHistory", &mut diags);
    let has_statistics = take_bool(record, "HasStatistics", &mut diags);
    let on_line = take_bool(record, "Online", &mut diags);
    let energy = take_float(record, "Energy", &mut diags);
    let energy_empty = take_float(record, "EnergyEmpty", &mut diags);
    let energy_full = take_float(record, "EnergyFull", &mut diags);
    let energy_full_design = take_float(record, "EnergyFullDesign", &mut diags);
    let energy_rate = take_float(record, "EnergyRate", &mut diags);
    let charge_cycles = take_i32(record, "ChargeCycles", &mut diags);
    let luminosity = take_float(record, "Luminosity", &mut diags);
    let voltage = take_float(record, "Voltage", &mut diags);
    let time_to_empty = take_i64(record, "TimeToEmpty", &mut diags);
    let time_to_full = take_i64(record, "TimeToFull", &mut diags);
    let percentage = take_float(record, "Percentage", &mut diags);
    let temperature = take_float(record, "Temperature", &mut diags);
    let is_present = take_bool(record, "IsPresent", &mut diags);
    let state = match take_u32(record, "State", &mut diags) {
        Some(c) => Some(State::from_code(c)),
        None => None,
    };
    let is_rechargeable = take_bool(record, "IsRechargeable", &mut diags);
    let capacity = take_float(record, "Capacity", &mut diags);
    let technology = match take_u32(record, "Technology", &mut diags) {
        Some(c) => Some(Technology::from_code(c)),
        None => None,
    };
    let warning_level = match take_u32(record, "WarningLevel", &mut diags) {
        Some(c) => Some(WarningLevel::from_code(c)),
        None => None,
    };
    let battery_level = match take_u32(record, "BatteryLevel", &mut diags) {
        Some(c) => Some(BatteryLevel::from_code(c)),
        None => None,
    };
    let icon_name = take_text(record, "IconName", &mut diags);
    let charge_start_threshold = take_threshold(record, "ChargeStartThreshold", &mut diags);
    let charge_end_threshold = take_threshold(record, "ChargeEndThreshold", &mut diags);
    let charge_threshold_enabled = take_bool(record, "ChargeThresholdEnabled", &mut diags);
    let charge_threshold_supported = take_bool(record, "ChargeThresholdSupported", &mut diags);
    let voltage_min_design = take_float(record, "VoltageMinDesign", &mut diags);
    let voltage_max_design = take_float(record, "VoltageMaxDesign", &mut diags);
    let capacity_level = match take_text(record, "CapacityLevel", &mut diags) {
        Some(s) => Some(CapacityLevel::from_text(s.as_str())),
        None => None,
    };
    let snapshot = UPowerDevice {
        native_path,
        vendor,
        model,
        serial,
        update_time,
        type_,
        power_supply,
        has_history,
        has_statistics,
        on_line,
        energy,
        energy_empty,
        energy_full,
        energy_full_design,
        energy_rate,
        charge_cycles,
        luminosity,
        voltage,
        time_to_empty,
        time_to_full,
        percentage,
        temperature,
        is_present,
        state,
        is_rechargeable,
        capacity,
        technology,
        warning_level,
        battery_level,
        icon_name,
        charge_start_threshold,
        charge_end_threshold,
        charge_threshold_enabled,
        charge_threshold_supported,
        voltage_min_design,
        voltage_max_design,
        capacity_level,
    };
    proof {
        assert(snapshot@ =~= spec_snapshot_of(rv));
    }
    (snapshot, diags)
}

/// The strict policy's device-level failure: the device's handle, the
/// first field that failed, and why.
#[derive(Debug, Clone, PartialEq)]
pub struct DeviceReadFailed {
    pub handle: String,
    pub field: String,
    pub cause: FieldError,
}

/// The mathematical model of a device-level failure.
pub struct DeviceReadFailedV {
    pub handle: Seq<char>,
    pub field: Seq<char>,
    pub cause: FieldError,
}

impl View for DeviceReadFailed {
    type V = DeviceReadFailedV;

    open spec fn view(&self) -> DeviceReadFailedV {
        DeviceReadFailedV { handle: self.handle@, field: self.field@, cause: self.cause }
    }
}

/// Assembles one device's snapshot under the strict policy: succeeds
/// exactly when every field of the table reads, coerces and validates,
/// and otherwise reports the first failing field with its cause.
pub fn assemble_strict(handle: &str, record: &Vec<(String, RawValue)>) -> (res: Result<
    UPowerDevice,
    DeviceReadFailed,
>)
    ensures
        res is Ok <==> spec_complete(record_view(record@)),
        res is Ok ==> res->Ok_0@ == spec_snapshot_of(record_view(record@)),
        res is Err ==> res->Err_0@ == (DeviceReadFailedV {
            handle: handle@,
            field: spec_diags_of(record_view(record@))[0].field,
            cause: spec_diags_of(record_view(record@))[0].cause,
        }),
{
    let (snapshot, mut diags) = assemble_permissive(record);
    if diags.len() == 0 {
        Ok(snapshot)
    } else {
        let d = diags.remove(0);
        proof {
            assert(d@ == spec_diags_of(record_view(record@))[0]);
        }
        Err(DeviceReadFailed { handle: handle.to_owned(), field: d.field, cause: d.cause })
    }
}


/// Raw form of one optional field of each wire type, for serialization.
pub open spec fn opt_raw_text(o: Option<Seq<char>>) -> Option<RawV> {
    match o {
        Some(s) => Some(RawV::Text(s)),
        None => None,
    }
}

pub open spec fn opt_raw_bool(o: Option<bool>) -> Option<RawV> {
    match o {
        Some(b) => Some(RawV::Bool(b)),
        None => None,
    }
}

pub open spec fn opt_raw_u64(o: Option<u64>) -> Option<RawV> {
    match o {
        Some(v) => Some(RawV::Uint(v)),
        None => None,
    }
}

pub open spec fn opt_raw_i64(o: Option<i64>) -> Option<RawV> {
    match o {
        Some(v) => Some(RawV::Int(v)),
        None => None,
    }
}

pub open spec fn opt_raw_i32(o: Option<i32>) -> Option<RawV> {
    match o {
        Some(v) => Some(RawV::Int(v as i64)),
        None => None,
    }
}

pub open spec fn opt_raw_float(o: Option<u64>) -> Option<RawV> {
    match o {
        Some(v) => Some(RawV::Float(v)),
        None => None,
    }
}

pub open spec fn opt_raw_percent(o: Option<u32>) -> Option<RawV> {
    match o {
        Some(v) => Some(RawV::Uint(v as u64)),
        None => None,
    }
}

pub open spec fn opt_raw_type(o: Option<Type>) -> Option<RawV> {
    match o {
        Some(t) => Some(RawV::Uint(t.spec_code() as u64)),
        None => None,
    }
}

pub open spec fn opt_raw_state(o: Option<State>) -> Option<RawV> {
    match o {
        Some(t) => Some(RawV::Uint(t.spec_code() as u64)),
        None => None,
    }
}

pub open spec fn opt_raw_technology(o: Option<Technology>) -> Option<RawV> {
    match o {
        Some(t) => Some(RawV::Uint(t.spec_code() as u64)),
        None => None,
    }
}

pub open spec fn opt_raw_warning_level(o: Option<WarningLevel>) -> Option<RawV> {
    match o {
        Some(t) => Some(RawV::Uint(t.spec_code() as u64)),
        None => None,
    }
}

pub open spec fn opt_raw_battery_level(o: Option<BatteryLevel>) -> Option<RawV> {
    match o {
        Some(t) => Some(RawV::Uint(t.spec_code() as u64)),
        None => None,
    }
}

pub open spec fn opt_raw_capacity_level(o: Option<CapacityLevel>) -> Option<RawV> {
    match o {
        Some(l) => Some(RawV::Text(l.spec_text())),
        None => None,
    }
}


/// The record a snapshot serializes to: one entry per present field,
/// under its wire name, in field-table order; absent fields are
/// omitted. Enum fields are written as their canonical codes (or, for
/// the capacity level, the canonical token), so `Unknown` is written as
/// `0` (or `"unknown"`).
pub open spec fn spec_record_of(v: DeviceSnapshotView) -> RecordV {
    opt_entry("NativePath"@, opt_raw_text(v.native_path))
        + opt_entry("Vendor"@, opt_raw_text(v.vendor))
        + opt_entry("Model"@, opt_raw_text(v.model))
        + opt_entry("Serial"@, opt_raw_text(v.serial))
        + opt_entry("UpdateTime"@, opt_raw_u64(v.update_time))
        + opt_entry("Type"@, opt_raw_type(v.type_))
        + opt_entry("PowerSupply"@, opt_raw_bool(v.power_supply))
        + opt_entry("HasHistory"@, opt_raw_bool(v.has_history))
        + opt_entry("HasStatistics"@, opt_raw_bool(v.has_statistics))
        + opt_entry("Online"@, opt_raw_bool(v.on_line))
        + opt_entry("Energy"@, opt_raw_float(v.energy))
        + opt_entry("EnergyEmpty"@, opt_raw_float(v.energy_empty))
        + opt_entry("EnergyFull"@, opt_raw_float(v.energy_full))
        + opt_entry("EnergyFullDesign"@, opt_raw_float(v.energy_full_design))
        + opt_entry("EnergyRate"@, opt_raw_float(v.energy_rate))
        + opt_entry("ChargeCycles"@, opt_raw_i32(v.charge_cycles))
        + opt_entry("Luminosity"@, opt_raw_float(v.luminosity))
        + opt_entry("Voltage"@, opt_raw_float(v.voltage))
        + opt_entry("TimeToEmpty"@, opt_raw_i64(v.time_to_empty))
        + opt_entry("TimeToFull"@, opt_raw_i64(v.time_to_full))
        + opt_entry("Percentage"@, opt_raw_float(v.percentage))
        + opt_entry("Temperature"@, opt_raw_float(v.temperature))
        + opt_entry("IsPresent"@, opt_raw_bool(v.is_present))
        + opt_entry("State"@, opt_raw_state(v.state))
        + opt_entry("IsRechargeable"@, opt_raw_bool(v.is_rechargeable))
        + opt_entry("Capacity"@, opt_raw_float(v.capacity))
        + opt_entry("Technology"@, opt_raw_technology(v.technology))
        + opt_entry("WarningLevel"@, opt_raw_warning_level(v.warning_level))
        + opt_entry("BatteryLevel"@, opt_raw_battery_level(v.battery_level))
        + opt_entry("IconName"@, opt_raw_text(v.icon_name))
        + opt_entry("ChargeStartThreshold"@, opt_raw_percent(v.charge_start_threshold))
        + opt_entry("ChargeEndThreshold"@, opt_raw_percent(v.charge_end_threshold))
        + opt_entry("ChargeThresholdEnabled"@, opt_raw_bool(v.charge_threshold_enabled))
        + opt_entry("ChargeThresholdSupported"@, opt_raw_bool(v.charge_threshold_supported))
        + opt_entry("VoltageMinDesign"@, opt_raw_float(v.voltage_min_design))
        + opt_entry("VoltageMaxDesign"@, opt_raw_float(v.voltage_max_design))
        + opt_entry("CapacityLevel"@, opt_raw_capacity_level(v.capacity_level))
}


/// What a serialized snapshot records under each wire name: the raw
/// form of the first field-table entry whose name matches and whose
/// field is present, and nothing otherwise.
pub open spec fn spec_record_lookup(v: DeviceSnapshotView, n: Seq<char>) -> Option<RawV> {
    if n == "NativePath"@ && v.native_path is Some {
        opt_raw_text(v.native_path)
    } else if n == "Vendor"@ && v.vendor is Some {
        opt_raw_text(v.vendor)
    } else if n == "Model"@ && v.model is Some {
        opt_raw_text(v.model)
    } else if n == "Serial"@ && v.serial is Some {
        opt_raw_text(v.serial)
    } else if n == "UpdateTime"@ && v.update_time is Some {
        opt_raw_u64(v.update_time)
    } else if n == "Type"@ && v.type_ is Some {
        opt_raw_type(v.type_)
    } else if n == "PowerSupply"@ && v.power_supply is Some {
        opt_raw_bool(v.power_supply)
    } else if n == "HasHistory"@ && v.has_history is Some {
        opt_raw_bool(v.has_history)
    } else if n == "HasStatistics"@ && v.has_statistics is Some {
        opt_raw_bool(v.has_statistics)
    } else if n == "Online"@ && v.on_line is Some {
        opt_raw_bool(v.on_line)
    } else if n == "Energy"@ && v.energy is Some {
        opt_raw_float(v.energy)
    } else if n == "EnergyEmpty"@ && v.energy_empty is Some {
        opt_raw_float(v.energy_empty)
    } else if n == "EnergyFull"@ && v.energy_full is Some {
        opt_raw_float(v.energy_full)
    } else if n == "EnergyFullDesign"@ && v.energy_full_design is Some {
        opt_raw_float(v.energy_full_design)
    } else if n == "EnergyRate"@ && v.energy_rate is Some {
        opt_raw_float(v.energy_rate)
    } else if n == "ChargeCycles"@ && v.charge_cycles is Some {
        opt_raw_i32(v.charge_cycles)
    } else if n == "Luminosity"@ && v.luminosity is Some {
        opt_raw_float(v.luminosity)
    } else if n == "Voltage"@ && v.voltage is Some {
        opt_raw_float(v.voltage)
    } else if n == "TimeToEmpty"@ && v.time_to_empty is Some {
        opt_raw_i64(v.time_to_empty)
    } else if n == "TimeToFull"@ && v.time_to_full is Some {
        opt_raw_i64(v.time_to_full)
    } else if n == "Percentage"@ && v.percentage is Some {
        opt_raw_float(v.percentage)
    } else if n == "Temperature"@ && v.temperature is Some {
        opt_raw_float(v.temperature)
    } else if n == "IsPresent"@ && v.is_present is Some {
        opt_raw_bool(v.is_present)
    } else if n == "State"@ && v.state is Some {
        opt_raw_state(v.state)
    } else if n == "IsRechargeable"@ && v.is_rechargeable is Some {
        opt_raw_bool(v.is_rechargeable)
    } else if n == "Capacity"@ && v.capacity is Some {
        opt_raw_float(v.capacity)
    } else if n == "Technology"@ && v.technology is Some {
        opt_raw_technology(v.technology)
    } else if n == "WarningLevel"@ && v.warning_level is Some {
        opt_raw_warning_level(v.warning_level)
    } else if n == "BatteryLevel"@ && v.battery_level is Some {
        opt_raw_battery_level(v.battery_level)
    } else if n == "IconName"@ && v.icon_name is Some {
        opt_raw_text(v.icon_name)
    } else if n == "ChargeStartThreshold"@ && v.charge_start_threshold is Some {
        opt_raw_percent(v.charge_start_threshold)
    } else if n == "ChargeEndThreshold"@ && v.charge_end_threshold is Some {
        opt_raw_percent(v.charge_end_threshold)
    } else if n == "ChargeThresholdEnabled"@ && v.charge_threshold_enabled is Some {
        opt_raw_bool(v.charge_threshold_enabled)
    } else if n == "ChargeThresholdSupported"@ && v.charge_threshold_supported is Some {
        opt_raw_bool(v.charge_threshold_supported)
    } else if n == "VoltageMinDesign"@ && v.voltage_min_design is Some {
        opt_raw_float(v.voltage_min_design)
    } else if n == "VoltageMaxDesign"@ && v.voltage_max_design is Some {
        opt_raw_float(v.voltage_max_design)
    } else if n == "CapacityLevel"@ && v.capacity_level is Some {
        opt_raw_capacity_level(v.capacity_level)
    } else {
        None
    }
}


/// Looking any name up in a serialized snapshot finds exactly what
/// [`spec_record_lookup`] says.
pub proof fn lemma_record_lookup(v: DeviceSnapshotView, n: Seq<char>)
    ensures
        spec_lookup(spec_record_of(v), n) == spec_record_lookup(v, n),
{
    let e1 = opt_entry("NativePath"@, opt_raw_text(v.native_path));
    let e2 = opt_entry("Vendor"@, opt_raw_text(v.vendor));
    let e3 = opt_entry("Model"@, opt_raw_text(v.model));
    let e4 = opt_entry("Serial"@, opt_raw_text(v.serial));
    let e5 = opt_entry("UpdateTime"@, opt_raw_u64(v.update_time));
    let e6 = opt_entry("Type"@, opt_raw_type(v.type_));
    let e7 = opt_entry("PowerSupply"@, opt_raw_bool(v.power_supply));
    let e8 = opt_entry("HasHistory"@, opt_raw_bool(v.has_history));
    let e9 = opt_entry("HasStatistics"@, opt_raw_bool(v.has_statistics));
    let e10 = opt_entry("Online"@, opt_raw_bool(v.on_line));
    let e11 = opt_entry("Energy"@, opt_raw_float(v.energy));
    let e12 = opt_entry("EnergyEmpty"@, opt_raw_float(v.energy_empty));
    let e13 = opt_entry("EnergyFull"@, opt_raw_float(v.energy_full));
    let e14 = opt_entry("EnergyFullDesign"@, opt_raw_float(v.energy_full_design));
    let e15 = opt_entry("EnergyRate"@, opt_raw_float(v.energy_rate));
    let e16 = opt_entry("ChargeCycles"@, opt_raw_i32(v.charge_cycles));
    let e17 = opt_entry("Luminosity"@, opt_raw_float(v.luminosity));
    let e18 = opt_entry("Voltage"@, opt_raw_float(v.voltage));
    let e19 = opt_entry("TimeToEmpty"@, opt_raw_i64(v.time_to_empty));
    let e20 = opt_entry("TimeToFull"@, opt_raw_i64(v.time_to_full));
    let e21 = opt_entry("Percentage"@, opt_raw_float(v.percentage));
    let e22 = opt_entry("Temperature"@, opt_raw_float(v.temperature));
    let e23 = opt_entry("IsPresent"@, opt_raw_bool(v.is_present));
    let e24 = opt_entry("State"@, opt_raw_state(v.state));
    let e25 = opt_entry("IsRechargeable"@, opt_raw_bool(v.is_rechargeable));
    let e26 = opt_entry("Capacity"@, opt_raw_float(v.capacity));
    let e27 = opt_entry("Technology"@, opt_raw_technology(v.technology));
    let e28 = opt_entry("WarningLevel"@, opt_raw_warning_level(v.warning_level));
    let e29 = opt_entry("BatteryLevel"@, opt_raw_battery_level(v.battery_level));
    let e30 = opt_entry("IconName"@, opt_raw_text(v.icon_name));
    let e31 = opt_entry("ChargeStartThreshold"@, opt_raw_percent(v.charge_start_threshold));
    let e32 = opt_entry("ChargeEndThreshold"@, opt_raw_percent(v.charge_end_threshold));
    let e33 = opt_entry("ChargeThresholdEnabled"@, opt_raw_bool(v.charge_threshold_enabled));
    let e34 = opt_entry("ChargeThresholdSupported"@, opt_raw_bool(v.charge_threshold_supported));
    let e35 = opt_entry("VoltageMinDesign"@, opt_raw_float(v.voltage_min_design));
    let e36 = opt_entry("VoltageMaxDesign"@, opt_raw_float(v.voltage_max_design));
    let e37 = opt_entry("CapacityLevel"@, opt_raw_capacity_level(v.capacity_level));
    let p1 = e1;
    let p2 = p1 + e2;
    let p3 = p2 + e3;
    let p4 = p3 + e4;
    let p5 = p4 + e5;
    let p6 = p5 + e6;
    let p7 = p6 + e7;
    let p8 = p7 + e8;
    let p9 = p8 + e9;
    let p10 = p9 + e10;
    let p11 = p10 + e11;
    let p12 = p11 + e12;
    let p13 = p12 + e13;
    let p14 = p13 + e14;
    let p15 = p14 + e15;
    let p16 = p15 + e16;
    let p17 = p16 + e17;
    let p18 = p17 + e18;
    let p19 = p18 + e19;
    let p20 = p19 + e20;
    let p21 = p20 + e21;
    let p22 = p21 + e22;
    let p23 = p22 + e23;
    let p24 = p23 + e24;
    let p25 = p24 + e25;
    let p26 = p25 + e26;
    let p27 = p26 + e27;
    let p28 = p27 + e28;
    let p29 = p28 + e29;
    let p30 = p29 + e30;
    let p31 = p30 + e31;
    let p32 = p31 + e32;
    let p33 = p32 + e33;
    let p34 = p33 + e34;
    let p35 = p34 + e35;
    let p36 = p35 + e36;
    let p37 = p36 + e37;
    lemma_lookup_opt_entry("NativePath"@, opt_raw_text(v.native_path), n);
    lemma_lookup_opt_entry("Vendor"@, opt_raw_text(v.vendor), n);
    lemma_lookup_opt_entry("Model"@, opt_raw_text(v.model), n);
    lemma_lookup_opt_entry("Serial"@, opt_raw_text(v.serial), n);
    lemma_lookup_opt_entry("UpdateTime"@, opt_raw_u64(v.update_time), n);
    lemma_lookup_opt_entry("Type"@, opt_raw_type(v.type_), n);
    lemma_lookup_opt_entry("PowerSupply"@, opt_raw_bool(v.power_supply), n);
    lemma_lookup_opt_entry("HasHistory"@, opt_raw_bool(v.has_history), n);
    lemma_lookup_opt_entry("HasStatistics"@, opt_raw_bool(v.has_statistics), n);
    lemma_lookup_opt_entry("Online"@, opt_raw_bool(v.on_line), n);
    lemma_lookup_opt_entry("Energy"@, opt_raw_float(v.energy), n);
    lemma_lookup_opt_entry("EnergyEmpty"@, opt_raw_float(v.energy_empty), n);
    lemma_lookup_opt_entry("EnergyFull"@, opt_raw_float(v.energy_full), n);
    lemma_lookup_opt_entry("EnergyFullDesign"@, opt_raw_float(v.energy_full_design), n);
    lemma_lookup_opt_entry("EnergyRate"@, opt_raw_float(v.energy_rate), n);
    lemma_lookup_opt_entry("ChargeCycles"@, opt_raw_i32(v.charge_cycles), n);
    lemma_lookup_opt_entry("Luminosity"@, opt_raw_float(v.luminosity), n);
    lemma_lookup_opt_entry("Voltage"@, opt_raw_float(v.voltage), n);
    lemma_lookup_opt_entry("TimeToEmpty"@, opt_raw_i64(v.time_to_empty), n);
    lemma_lookup_opt_entry("TimeToFull"@, opt_raw_i64(v.time_to_full), n);
    lemma_lookup_opt_entry("Percentage"@, opt_raw_float(v.percentage), n);
    lemma_lookup_opt_entry("Temperature"@, opt_raw_float(v.temperature), n);
    lemma_lookup_opt_entry("IsPresent"@, opt_raw_bool(v.is_present), n);
    lemma_lookup_opt_entry("State"@, opt_raw_state(v.state), n);
    lemma_lookup_opt_entry("IsRechargeable"@, opt_raw_bool(v.is_rechargeable), n);
    lemma_lookup_opt_entry("Capacity"@, opt_raw_float(v.capacity), n);
    lemma_lookup_opt_entry("Technology"@, opt_raw_technology(v.technology), n);
    lemma_lookup_opt_entry("WarningLevel"@, opt_raw_warning_level(v.warning_level), n);
    lemma_lookup_opt_entry("BatteryLevel"@, opt_raw_battery_level(v.battery_level), n);
    lemma_lookup_opt_entry("IconName"@, opt_raw_text(v.icon_name), n);
    lemma_lookup_opt_entry("ChargeStartThreshold"@, opt_raw_percent(v.charge_start_threshold), n);
    lemma_lookup_opt_entry("ChargeEndThreshold"@, opt_raw_percent(v.charge_end_threshold), n);
    lemma_lookup_opt_entry("ChargeThresholdEnabled"@, opt_raw_bool(v.charge_threshold_enabled), n);
    lemma_lookup_opt_entry("ChargeThresholdSupported"@, opt_raw_bool(v.charge_threshold_supported), n);
    lemma_lookup_opt_entry("VoltageMinDesign"@, opt_raw_float(v.voltage_min_design), n);
    lemma_lookup_opt_entry("VoltageMaxDesign"@, opt_raw_float(v.voltage_max_design), n);
    lemma_lookup_opt_entry("CapacityLevel"@, opt_raw_capacity_level(v.capacity_level), n);
    lemma_lookup_concat(p1, e2, n);
    lemma_lookup_concat(p2, e3, n);
    lemma_lookup_concat(p3, e4, n);
    lemma_lookup_concat(p4, e5, n);
    lemma_lookup_concat(p5, e6, n);
    lemma_lookup_concat(p6, e7, n);
    lemma_lookup_concat(p7, e8, n);
    lemma_lookup_concat(p8, e9, n);
    lemma_lookup_concat(p9, e10, n);
    lemma_lookup_concat(p10, e11, n);
    lemma_lookup_concat(p11, e12, n);
    lemma_lookup_concat(p12, e13, n);
    lemma_lookup_concat(p13, e14, n);
    lemma_lookup_concat(p14, e15, n);
    lemma_lookup_concat(p15, e16, n);
    lemma_lookup_concat(p16, e17, n);
    lemma_lookup_concat(p17, e18, n);
    lemma_lookup_concat(p18, e19, n);
    lemma_lookup_concat(p19, e20, n);
    lemma_lookup_concat(p20, e21, n);
    lemma_lookup_concat(p21, e22, n);
    lemma_lookup_concat(p22, e23, n);
    lemma_lookup_concat(p23, e24, n);
    lemma_lookup_concat(p24, e25, n);
    lemma_lookup_concat(p25, e26, n);
    lemma_lookup_concat(p26, e27, n);
    lemma_lookup_concat(p27, e28, n);
    lemma_lookup_concat(p28, e29, n);
    lemma_lookup_concat(p29, e30, n);
    lemma_lookup_concat(p30, e31, n);
    lemma_lookup_concat(p31, e32, n);
    lemma_lookup_concat(p32, e33, n);
    lemma_lookup_concat(p33, e34, n);
    lemma_lookup_concat(p34, e35, n);
    lemma_lookup_concat(p35, e36, n);
    lemma_lookup_concat(p36, e37, n);
    assert(spec_record_of(v) == p37);
}

fn push_text(r: &mut Vec<(String, RawValue)>, name: &str, o: &Option<String>)
    ensures
        record_view(final(r)@) == record_view(old(r)@) + opt_entry(name@, opt_raw_text(opt_text_view(*o))),
{
    match o {
        Some(x) => {
            r.push((name.to_owned(), RawValue::Text(x.clone())));
            proof {
                assert(record_view(r@) =~= record_view(old(r)@) + opt_entry(
                    name@,
                    opt_raw_text(opt_text_view(*o)),
                ));
            }
        },
        None => {
            proof {
                assert(record_view(r@) =~= record_view(old(r)@) + opt_entry(
                    name@,
                    opt_raw_text(opt_text_view(*o)),
                ));
            }
        },
    }
}


fn push_bool(r: &mut Vec<(String, RawValue)>, name: &str, o: Option<bool>)
    ensures
        record_view(final(r)@) == record_view(old(r)@) + opt_entry(name@, opt_raw_bool(o)),
{
    match o {
        Some(x) => {
            r.push((name.to_owned(), RawValue::Bool(x)));
            proof {
                assert(record_view(r@) =~= record_view(old(r)@) + opt_entry(
                    name@,
                    opt_raw_bool(o),
                ));
            }
        },
        None => {
            proof {
                assert(record_view(r@) =~= record_view(old(r)@) + opt_entry(
                    name@,
                    opt_raw_bool(o),
                ));
            }
        },
    }
}


fn push_u64(r: &mut Vec<(String, RawValue)>, name: &str, o: Option<u64>)
    ensures
        record_view(final(r)@) == record_view(old(r)@) + opt_entry(name@, opt_raw_u64(o)),
{
    match o {
        Some(x) => {
            r.push((name.to_owned(), RawValue::Uint(x)));
            proof {
                assert(record_view(r@) =~= record_view(old(r)@) + opt_entry(
                    name@,
                    opt_raw_u64(o),
                ));
            }
        },
        None => {
            proof {
                assert(record_view(r@) =~= record_view(old(r)@) + opt_entry(
                    name@,
                    opt_raw_u64(o),
                ));
            }
        },
    }
}


fn push_i64(r: &mut Vec<(String, RawValue)>, name: &str, o: Option<i64>)
    ensures
        record_view(final(r)@) == record_view(old(r)@) + opt_entry(name@, opt_raw_i64(o)),
{
    match o {
        Some(x) => {
            r.push((name.to_owned(), RawValue::Int(x)));
            proof {
                assert(record_view(r@) =~= record_view(old(r)@) + opt_entry(
                    name@,
                    opt_raw_i64(o),
                ));
            }
        },
        None => {
            proof {
                assert(record_view(r@) =~= record_view(old(r)@) + opt_entry(
                    name@,
                    opt_raw_i64(o),
                ));
            }
        },
    }
}


fn push_i32(r: &mut Vec<(String, RawValue)>, name: &str, o: Option<i32>)
    ensures
        record_view(final(r)@) == record_view(old(r)@) + opt_entry(name@, opt_raw_i32(o)),
{
    match o {
        Some(x) => {
            r.push((name.to_owned(), RawValue::Int(x as i64)));
            proof {
                assert(record_view(r@) =~= record_view(old(r)@) + opt_entry(
                    name@,
                    opt_raw_i32(o),
                ));
            }
        },
        None => {
            proof {
                assert(record_view(r@) =~= record_view(old(r)@) + opt_entry(
                    name@,
                    opt_raw_i32(o),
                ));
            }
        },
    }
}


fn push_float(r: &mut Vec<(String, RawValue)>, name: &str, o: Option<FloatBits>)
    ensures
        record_view(final(r)@) == record_view(old(r)@) + opt_entry(name@, opt_raw_float(opt_float_view(o))),
{
    match o {
        Some(x) => {
            r.push((name.to_owned(), RawValue::Float(x)));
            proof {
                assert(record_view(r@) =~= record_view(old(r)@) + opt_entry(
                    name@,
                    opt_raw_float(opt_float_view(o)),
                ));
            }
        },
        None => {
            proof {
                assert(record_view(r@) =~= record_view(old(r)@) + opt_entry(
                    name@,
                    opt_raw_float(opt_float_view(o)),
                ));
            }
        },
    }
}


fn push_threshold(r: &mut Vec<(String, RawValue)>, name: &str, o: Option<BoundedU32>)
    ensures
        record_view(final(r)@) == record_view(old(r)@) + opt_entry(name@, opt_raw_percent(opt_threshold_view(o))),
{
    match o {
        Some(x) => {
            r.push((name.to_owned(), RawValue::Uint(x.get() as u64)));
            proof {
                assert(record_view(r@) =~= record_view(old(r)@) + opt_entry(
                    name@,
                    opt_raw_percent(opt_threshold_view(o)),
                ));
            }
        },
        None => {
            proof {
                assert(record_view(r@) =~= record_view(old(r)@) + opt_entry(
                    name@,
                    opt_raw_percent(opt_threshold_view(o)),
                ));
            }
        },
    }
}


fn push_type(r: &mut Vec<(String, RawValue)>, name: &str, o: Option<Type>)
    ensures
        record_view(final(r)@) == record_view(old(r)@) + opt_entry(name@, opt_raw_type(o)),
{
    match o {
        Some(x) => {
            r.push((name.to_owned(), RawValue::Uint(x.code() as u64)));
            proof {
                assert(record_view(r@) =~= record_view(old(r)@) + opt_entry(
                    name@,
                    opt_raw_type(o),
                ));
            }
        },
        None => {
            proof {
                assert(record_view(r@) =~= record_view(old(r)@) + opt_entry(
                    name@,
                    opt_raw_type(o),
                ));
            }
        },
    }
}


fn push_state(r: &mut Vec<(String, RawValue)>, name: &str, o: Option<State>)
    ensures
        record_view(final(r)@) == record_view(old(r)@) + opt_entry(name@, opt_raw_state(o)),
{
    match o {
        Some(x) => {
            r.push((name.to_owned(), RawValue::Uint(x.code() as u64)));
            proof {
                assert(record_view(r@) =~= record_view(old(r)@) + opt_entry(
                    name@,
                    opt_raw_state(o),
                ));
            }
        },
        None => {
            proof {
                assert(record_view(r@) =~= record_view(old(r)@) + opt_entry(
                    name@,
                    opt_raw_state(o),
                ));
            }
        },
    }
}


fn push_technology(r: &mut Vec<(String, RawValue)>, name: &str, o: Option<Technology>)
    ensures
        record_view(final(r)@) == record_view(old(r)@) + opt_entry(name@, opt_raw_technology(o)),
{
    match o {
        Some(x) => {
            r.push((name.to_owned(), RawValue::Uint(x.code() as u64)));
            proof {
                assert(record_view(r@) =~= record_view(old(r)@) + opt_entry(
                    name@,
                    opt_raw_technology(o),
                ));
            }
        },
        None => {
            proof {
                assert(record_view(r@) =~= record_view(old(r)@) + opt_entry(
                    name@,
                    opt_raw_technology(o),
                ));
            }
        },
    }
}


fn push_warning_level(r: &mut Vec<(String, RawValue)>, name: &str, o: Option<WarningLevel>)
    ensures
        record_view(final(r)@) == record_view(old(r)@) + opt_entry(name@, opt_raw_warning_level(o)),
{
    match o {
        Some(x) => {
            r.push((name.to_owned(), RawValue::Uint(x.code() as u64)));
            proof {
                assert(record_view(r@) =~= record_view(old(r)@) + opt_entry(
                    name@,
                    opt_raw_warning_level(o),
                ));
            }
        },
        None => {
            proof {
                assert(record_view(r@) =~= record_view(old(r)@) + opt_entry(
                    name@,
                    opt_raw_warning_level(o),
                ));
            }
        },
    }
}


fn push_battery_level(r: &mut Vec<(String, RawValue)>, name: &str, o: Option<BatteryLevel>)
    ensures
        record_view(final(r)@) == record_view(old(r)@) + opt_entry(name@, opt_raw_battery_level(o)),
{
    match o {
        Some(x) => {
            r.push((name.to_owned(), RawValue::Uint(x.code() as u64)));
            proof {
                assert(record_view(r@) =~= record_view(old(r)@) + opt_entry(
                    name@,
                    opt_raw_battery_level(o),
                ));
            }
        },
        None => {
            proof {
                assert(record_view(r@) =~= record_view(old(r)@) + opt_entry(
                    name@,
                    opt_raw_battery_level(o),
                ));
            }
        },
    }
}


fn push_capacity_level(r: &mut Vec<(String, RawValue)>, name: &str, o: Option<CapacityLevel>)
    ensures
        record_view(final(r)@) == record_view(old(r)@) + opt_entry(name@, opt_raw_capacity_level(o)),
{
    match o {
        Some(x) => {
            r.push((name.to_owned(), RawValue::Text(x.canonical_text())));
            proof {
                assert(record_view(r@) =~= record_view(old(r)@) + opt_entry(
                    name@,
                    opt_raw_capacity_level(o),
                ));
            }
        },
        None => {
            proof {
                assert(record_view(r@) =~= record_view(old(r)@) + opt_entry(
                    name@,
                    opt_raw_capacity_level(o),
                ));
            }
        },
    }
}


impl UPowerDevice {
    /// Serializes this snapshot into a structured record: one entry per
    /// present field, under its wire name, in field-table order. Absent
    /// fields are omitted, so assembling the record back under the
    /// permissive policy restores this snapshot exactly (see
    /// [`lemma_snapshot_round_trip`]).
    #[verifier::rlimit(100)]
    pub fn to_record(&self) -> (r: Vec<(String, RawValue)>)
        ensures
            record_view(r@) == spec_record_of(self@),
    {
        let mut r: Vec<(String, RawValue)> = Vec::new();
        push_text(&mut r, "NativePath", &self.native_path);
        proof {
            assert(record_view(r@) =~= opt_entry("NativePath"@, opt_raw_text(self@.native_path)));
        }
        push_text(&mut r, "Vendor", &self.vendor);
        push_text(&mut r, "Model", &self.model);
        push_text(&mut r, "Serial", &self.serial);
        push_u64(&mut r, "UpdateTime", self.update_time);
        push_type(&mut r, "Type", self.type_);
        push_bool(&mut r, "PowerSupply", self.power_supply);
        push_bool(&mut r, "HasHistory", self.has_history);
        push_bool(&mut r, "HasStatistics", self.has_statistics);
        push_bool(&mut r, "Online", self.on_line);
        push_float(&mut r, "Energy", self.energy);
        push_float(&mut r, "EnergyEmpty", self.energy_empty);
        push_float(&mut r, "EnergyFull", self.energy_full);
        push_float(&mut r, "EnergyFullDesign", self.energy_full_design);
        push_float(&mut r, "EnergyRate", self.energy_rate);
        push_i32(&mut r, "ChargeCycles", self.charge_cycles);
        push_float(&mut r, "Luminosity", self.luminosity);
        push_float(&mut r, "Voltage", self.voltage);
        push_i64(&mut r, "TimeToEmpty", self.time_to_empty);
        push_i64(&mut r, "TimeToFull", self.time_to_full);
        push_float(&mut r, "Percentage", self.percentage);
        push_float(&mut r, "Temperature", self.temperature);
        push_bool(&mut r, "IsPresent", self.is_present);
        push_state(&mut r, "State", self.state);
        push_bool(&mut r, "IsRechargeable", self.is_rechargeable);
        push_float(&mut r, "Capacity", self.capacity);
        push_technology(&mut r, "Technology", self.technology);
        push_warning_level(&mut r, "WarningLevel", self.warning_level);
        push_battery_level(&mut r, "BatteryLevel", self.battery_level);
        push_text(&mut r, "IconName", &self.icon_name);
        push_threshold(&mut r, "ChargeStartThreshold", self.charge_start_threshold);
        push_threshold(&mut r, "ChargeEndThreshold", self.charge_end_threshold);
        push_bool(&mut r, "ChargeThresholdEnabled", self.charge_threshold_enabled);
        push_bool(&mut r, "ChargeThresholdSupported", self.charge_threshold_supported);
        push_float(&mut r, "VoltageMinDesign", self.voltage_min_design);
        push_float(&mut r, "VoltageMaxDesign", self.voltage_max_design);
        push_capacity_level(&mut r, "CapacityLevel", self.capacity_level);
        r
    }
}


/// Well-formedness of a snapshot model: the bounded percentage fields
/// lie within their range, and the device category is not the shadowed
/// `BluetoothGeneric`, which no raw code decodes to. The view of every
/// snapshot the assembler produces satisfies it: the thresholds are
/// built by the validator alone, and the category by the decoder alone.
pub open spec fn snapshot_wf(v: DeviceSnapshotView) -> bool {
    &&& v.charge_start_threshold is Some ==> v.charge_start_threshold->0 <= 100
    &&& v.charge_end_threshold is Some ==> v.charge_end_threshold->0 <= 100
    &&& !(v.type_ == Some(Type::BluetoothGeneric))
}


/// Round trip: serializing a well-formed snapshot and assembling the
/// record back yields an equal snapshot. Enum fields survive because
/// every decodable variant — `Unknown` included — decodes from its own
/// canonical encoding; the lossy direction is a *record* holding a code
/// outside a decoder's table, which decodes to `Unknown` and
/// re-serializes as the canonical `0`, by design. The one snapshot that
/// does not round trip, and that well-formedness excludes, is one
/// holding the shadowed `Type::BluetoothGeneric`, whose shared code
/// decodes to `Toy`; the assembler never produces it.
/// Decoding never raises an error, under either policy: whenever one of
/// the code- or token-valued fields is present with its wire type, it
/// contributes no diagnostic — so it alone can never abort a strict
/// assembly — and the snapshot holds the decoded variant, whatever the
/// code's value. Together with the per-decoder lemmas (such as
/// [`crate::properties::lemma_state_decode_unknown`]) this says that a
/// code outside a table yields `Some(Unknown)` and never a failure.
pub proof fn lemma_decoding_never_raises_a_diagnostic(r: RecordV)
    ensures
        spec_get_u32(r, "Type"@) is Ok ==> spec_diag(spec_get_u32(r, "Type"@), "Type"@)
            == Seq::<DiagnosticV>::empty() && spec_snapshot_of(r).type_ == Some(
            Type::spec_from_code(spec_get_u32(r, "Type"@)->Ok_0),
        ),
        spec_get_u32(r, "State"@) is Ok ==> spec_diag(spec_get_u32(r, "State"@), "State"@)
            == Seq::<DiagnosticV>::empty() && spec_snapshot_of(r).state == Some(
            State::spec_from_code(spec_get_u32(r, "State"@)->Ok_0),
        ),
        spec_get_u32(r, "Technology"@) is Ok ==> spec_diag(
            spec_get_u32(r, "Technology"@),
            "Technology"@,
        ) == Seq::<DiagnosticV>::empty() && spec_snapshot_of(r).technology == Some(
            Technology::spec_from_code(spec_get_u32(r, "Technology"@)->Ok_0),
        ),
        spec_get_u32(r, "WarningLevel"@) is Ok ==> spec_diag(
            spec_get_u32(r, "WarningLevel"@),
            "WarningLevel"@,
        ) == Seq::<DiagnosticV>::empty() && spec_snapshot_of(r).warning_level == Some(
            WarningLevel::spec_from_code(spec_get_u32(r, "WarningLevel"@)->Ok_0),
        ),
        spec_get_u32(r, "BatteryLevel"@) is Ok ==> spec_diag(
            spec_get_u32(r, "BatteryLevel"@),
            "BatteryLevel"@,
        ) == Seq::<DiagnosticV>::empty() && spec_snapshot_of(r).battery_level == Some(
            BatteryLevel::spec_from_code(spec_get_u32(r, "BatteryLevel"@)->Ok_0),
        ),
        spec_get_text(r, "CapacityLevel"@) is Ok ==> spec_diag(
            spec_get_text(r, "CapacityLevel"@),
            "CapacityLevel"@,
        ) == Seq::<DiagnosticV>::empty() && spec_snapshot_of(r).capacity_level == Some(
            CapacityLevel::spec_from_text(spec_get_text(r, "CapacityLevel"@)->Ok_0),
        ),
{
}

#[verifier::rlimit(100)]
pub proof fn lemma_snapshot_round_trip(v: DeviceSnapshotView)
    requires
        snapshot_wf(v),
    ensures
        spec_snapshot_of(spec_record_of(v)) == v,
{
    reveal_strlit("NativePath");
    reveal_strlit("Vendor");
    reveal_strlit("Model");
    reveal_strlit("Serial");
    reveal_strlit("UpdateTime");
    reveal_strlit("Type");
    reveal_strlit("PowerSupply");
    reveal_strlit("HasHistory");
    reveal_strlit("HasStatistics");
    reveal_strlit("Online");
    reveal_strlit("Energy");
    reveal_strlit("EnergyEmpty");
    reveal_strlit("EnergyFull");
    reveal_strlit("EnergyFullDesign");
    reveal_strlit("EnergyRate");
    reveal_strlit("ChargeCycles");
    reveal_strlit("Luminosity");
    reveal_strlit("Voltage");
    reveal_strlit("TimeToEmpty");
    reveal_strlit("TimeToFull");
    reveal_strlit("Percentage");
    reveal_strlit("Temperature");
    reveal_strlit("IsPresent");
    reveal_strlit("State");
    reveal_strlit("IsRechargeable");
    reveal_strlit("Capacity");
    reveal_strlit("Technology");
    reveal_strlit("WarningLevel");
    reveal_strlit("BatteryLevel");
    reveal_strlit("IconName");
    reveal_strlit("ChargeStartThreshold");
    reveal_strlit("ChargeEndThreshold");
    reveal_strlit("ChargeThresholdEnabled");
    reveal_strlit("ChargeThresholdSupported");
    reveal_strlit("VoltageMinDesign");
    reveal_strlit("VoltageMaxDesign");
    reveal_strlit("CapacityLevel");
    assert("NativePath"@.len() == 10);
    assert("Vendor"@.len() == 6);
    assert("Model"@.len() == 5);
    assert("Serial"@.len() == 6);
    assert("UpdateTime"@.len() == 10);
    assert("Type"@.len() == 4);
    assert("PowerSupply"@.len() == 11);
    assert("HasHistory"@.len() == 10);
    assert("HasStatistics"@.len() == 13);
    assert("Online"@.len() == 6);
    assert("Energy"@.len() == 6);
    assert("EnergyEmpty"@.len() == 11);
    assert("EnergyFull"@.len() == 10);
    assert("EnergyFullDesign"@.len() == 16);
    assert("EnergyRate"@.len() == 10);
    assert("ChargeCycles"@.len() == 12);
    assert("Luminosity"@.len() == 10);
    assert("Voltage"@.len() == 7);
    assert("TimeToEmpty"@.len() == 11);
    assert("TimeToFull"@.len() == 10);
    assert("Percentage"@.len() == 10);
    assert("Temperature"@.len() == 11);
    assert("IsPresent"@.len() == 9);
    assert("State"@.len() == 5);
    assert("IsRechargeable"@.len() == 14);
    assert("Capacity"@.len() == 8);
    assert("Technology"@.len() == 10);
    assert("WarningLevel"@.len() == 12);
    assert("BatteryLevel"@.len() == 12);
    assert("IconName"@.len() == 8);
    assert("ChargeStartThreshold"@.len() == 20);
    assert("ChargeEndThreshold"@.len() == 18);
    assert("ChargeThresholdEnabled"@.len() == 22);
    assert("ChargeThresholdSupported"@.len() == 24);
    assert("VoltageMinDesign"@.len() == 16);
    assert("VoltageMaxDesign"@.len() == 16);
    assert("CapacityLevel"@.len() == 13);
    assert("BatteryLevel"@[0] == 'B');
    assert("Capacity"@[0] == 'C');
    assert("CapacityLevel"@[0] == 'C');
    assert("ChargeCycles"@[0] == 'C');
    assert("Energy"@[0] == 'E');
    assert("EnergyEmpty"@[0] == 'E');
    assert("EnergyFull"@[0] == 'E');
    assert("EnergyFull"@[6] == 'F');
    assert("EnergyFullDesign"@[0] == 'E');
    assert("EnergyRate"@[0] == 'E');
    assert("EnergyRate"@[6] == 'R');
    assert("HasHistory"@[0] == 'H');
    assert("HasStatistics"@[0] == 'H');
    assert("IconName"@[0] == 'I');
    assert("Luminosity"@[0] == 'L');
    assert("Model"@[0] == 'M');
    assert("NativePath"@[0] == 'N');
    assert("Online"@[0] == 'O');
    assert("Percentage"@[0] == 'P');
    assert("PowerSupply"@[0] == 'P');
    assert("Serial"@[0] == 'S');
    assert("State"@[0] == 'S');
    assert("Technology"@[0] == 'T');
    assert("Technology"@[1] == 'e');
    assert("Temperature"@[0] == 'T');
    assert("Temperature"@[1] == 'e');
    assert("TimeToEmpty"@[0] == 'T');
    assert("TimeToEmpty"@[1] == 'i');
    assert("TimeToFull"@[0] == 'T');
    assert("TimeToFull"@[1] == 'i');
    assert("UpdateTime"@[0] == 'U');
    assert("Vendor"@[0] == 'V');
    assert("VoltageMaxDesign"@[0] == 'V');
    assert("VoltageMaxDesign"@[8] == 'a');
    assert("VoltageMinDesign"@[0] == 'V');
    assert("VoltageMinDesign"@[8] == 'i');
    assert("WarningLevel"@[0] == 'W');
    lemma_record_lookup(v, "NativePath"@);
    lemma_record_lookup(v, "Vendor"@);
    lemma_record_lookup(v, "Model"@);
    lemma_record_lookup(v, "Serial"@);
    lemma_record_lookup(v, "UpdateTime"@);
    lemma_record_lookup(v, "Type"@);
    lemma_record_lookup(v, "PowerSupply"@);
    lemma_record_lookup(v, "HasHistory"@);
    lemma_record_lookup(v, "HasStatistics"@);
    lemma_record_lookup(v, "Online"@);
    lemma_record_lookup(v, "Energy"@);
    lemma_record_lookup(v, "EnergyEmpty"@);
    lemma_record_lookup(v, "EnergyFull"@);
    lemma_record_lookup(v, "EnergyFullDesign"@);
    lemma_record_lookup(v, "EnergyRate"@);
    lemma_record_lookup(v, "ChargeCycles"@);
    lemma_record_lookup(v, "Luminosity"@);
    lemma_record_lookup(v, "Voltage"@);
    lemma_record_lookup(v, "TimeToEmpty"@);
    lemma_record_lookup(v, "TimeToFull"@);
    lemma_record_lookup(v, "Percentage"@);
    lemma_record_lookup(v, "Temperature"@);
    lemma_record_lookup(v, "IsPresent"@);
    lemma_record_lookup(v, "State"@);
    lemma_record_lookup(v, "IsRechargeable"@);
    lemma_record_lookup(v, "Capacity"@);
    lemma_record_lookup(v, "Technology"@);
    lemma_record_lookup(v, "WarningLevel"@);
    lemma_record_lookup(v, "BatteryLevel"@);
    lemma_record_lookup(v, "IconName"@);
    lemma_record_lookup(v, "ChargeStartThreshold"@);
    lemma_record_lookup(v, "ChargeEndThreshold"@);
    lemma_record_lookup(v, "ChargeThresholdEnabled"@);
    lemma_record_lookup(v, "ChargeThresholdSupported"@);
    lemma_record_lookup(v, "VoltageMinDesign"@);
    lemma_record_lookup(v, "VoltageMaxDesign"@);
    lemma_record_lookup(v, "CapacityLevel"@);
    if v.type_ is Some {
        crate::properties::lemma_type_code_round_trip(v.type_->0);
    }
    if v.state is Some {
        crate::properties::lemma_state_code_round_trip(v.state->0);
    }
    if v.technology is Some {
        crate::properties::lemma_technology_code_round_trip(v.technology->0);
    }
    if v.warning_level is Some {
        crate::properties::lemma_warning_level_code_round_trip(v.warning_level->0);
    }
    if v.battery_level is Some {
        crate::properties::lemma_battery_level_code_round_trip(v.battery_level->0);
    }
    if v.capacity_level is Some {
        crate::properties::lemma_capacity_level_text_round_trip(v.capacity_level->0);
    }
    assert(spec_snapshot_of(spec_record_of(v)) =~= v);
}

} // verus!
