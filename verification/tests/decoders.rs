use upower_registry::properties::{
    Type, State, Technology, WarningLevel, BatteryLevel, CapacityLevel,
};

#[test]
fn type_decodes_known_codes() {
    assert_eq!(Type::from_code(1), Type::LinePower);
    assert_eq!(Type::from_code(2), Type::Battery);
    assert_eq!(Type::from_code(11), Type::Computer);
    assert_eq!(Type::from_code(26), Type::Wearable);
}

#[test]
fn type_code_collision_is_resolved_in_favour_of_toy() {
    // The definitive mapping for the colliding code 27 is Toy; the
    // shadowed BluetoothGeneric encodes as the same shared code but can
    // never be produced by decoding.
    assert_eq!(Type::from_code(27), Type::Toy);
    assert_eq!(Type::Toy.code(), 27);
    assert_eq!(Type::BluetoothGeneric.code(), 27);
    assert_eq!(Type::from_code(Type::BluetoothGeneric.code()), Type::Toy);
}

#[test]
fn type_unknown_codes_decode_to_unknown() {
    assert_eq!(Type::from_code(0), Type::Unknown);
    assert_eq!(Type::from_code(28), Type::Unknown);
    assert_eq!(Type::from_code(29), Type::Unknown);
    assert_eq!(Type::from_code(999), Type::Unknown);
    assert_eq!(Type::from_code(u32::MAX), Type::Unknown);
}

#[test]
fn type_codes_round_trip() {
    for code in 0u32..=27 {
        assert_eq!(Type::from_code(code).code(), code);
    }
}

#[test]
fn state_decodes_known_codes() {
    assert_eq!(State::from_code(1), State::Charging);
    assert_eq!(State::from_code(2), State::Discharging);
    assert_eq!(State::from_code(3), State::Empty);
    assert_eq!(State::from_code(4), State::FullyCharged);
    assert_eq!(State::from_code(5), State::PendingCharge);
    assert_eq!(State::from_code(6), State::PendingDischarge);
}

#[test]
fn state_unknown_codes_decode_to_unknown() {
    assert_eq!(State::from_code(0), State::Unknown);
    assert_eq!(State::from_code(7), State::Unknown);
    assert_eq!(State::from_code(u32::MAX), State::Unknown);
}

#[test]
fn technology_decodes_known_codes() {
    assert_eq!(Technology::from_code(1), Technology::LithiumIon);
    assert_eq!(Technology::from_code(2), Technology::LithiumPolymer);
    assert_eq!(Technology::from_code(3), Technology::LithiumIronPhosphate);
    assert_eq!(Technology::from_code(4), Technology::LeadAcid);
    assert_eq!(Technology::from_code(5), Technology::NickelCadmium);
    assert_eq!(Technology::from_code(6), Technology::NickelMetalHydride);
}

#[test]
fn technology_unknown_codes_decode_to_unknown() {
    assert_eq!(Technology::from_code(0), Technology::Unknown);
    assert_eq!(Technology::from_code(7), Technology::Unknown);
}

#[test]
fn warning_level_decodes_known_codes() {
    assert_eq!(WarningLevel::from_code(1), WarningLevel::NoWarning);
    assert_eq!(WarningLevel::from_code(2), WarningLevel::Discharging);
    assert_eq!(WarningLevel::from_code(3), WarningLevel::Low);
    assert_eq!(WarningLevel::from_code(4), WarningLevel::Critical);
    assert_eq!(WarningLevel::from_code(5), WarningLevel::Action);
}

#[test]
fn warning_level_unknown_codes_decode_to_unknown() {
    assert_eq!(WarningLevel::from_code(0), WarningLevel::Unknown);
    assert_eq!(WarningLevel::from_code(6), WarningLevel::Unknown);
}

#[test]
fn battery_level_decodes_known_codes() {
    assert_eq!(BatteryLevel::from_code(1), BatteryLevel::NotApplicable);
    assert_eq!(BatteryLevel::from_code(3), BatteryLevel::Low);
    assert_eq!(BatteryLevel::from_code(4), BatteryLevel::Critical);
    assert_eq!(BatteryLevel::from_code(6), BatteryLevel::Normal);
    assert_eq!(BatteryLevel::from_code(7), BatteryLevel::High);
    assert_eq!(BatteryLevel::from_code(8), BatteryLevel::Full);
}

#[test]
fn battery_level_gap_codes_decode_to_unknown() {
    // The table is non-contiguous: the gaps decode to Unknown like any
    // other code outside the table.
    assert_eq!(BatteryLevel::from_code(0), BatteryLevel::Unknown);
    assert_eq!(BatteryLevel::from_code(2), BatteryLevel::Unknown);
    assert_eq!(BatteryLevel::from_code(5), BatteryLevel::Unknown);
    assert_eq!(BatteryLevel::from_code(9), BatteryLevel::Unknown);
}

#[test]
fn capacity_level_matches_case_insensitively() {
    // Scenario: the raw token "NORMAL" decodes to Normal.
    assert_eq!(CapacityLevel::from_text("NORMAL"), CapacityLevel::Normal);
    assert_eq!(CapacityLevel::from_text("normal"), CapacityLevel::Normal);
    assert_eq!(CapacityLevel::from_text("CrItIcAl"), CapacityLevel::Critical);
    assert_eq!(CapacityLevel::from_text("low"), CapacityLevel::Low);
    assert_eq!(CapacityLevel::from_text("High"), CapacityLevel::High);
    assert_eq!(CapacityLevel::from_text("FULL"), CapacityLevel::Full);
}

#[test]
fn capacity_level_unknown_tokens_decode_to_unknown() {
    assert_eq!(CapacityLevel::from_text(""), CapacityLevel::Unknown);
    assert_eq!(CapacityLevel::from_text("plentiful"), CapacityLevel::Unknown);
    assert_eq!(CapacityLevel::from_text("norma"), CapacityLevel::Unknown);
    assert_eq!(CapacityLevel::from_text("normall"), CapacityLevel::Unknown);
    assert_eq!(CapacityLevel::from_text("unknown"), CapacityLevel::Unknown);
}

#[test]
fn capacity_level_canonical_text_round_trips() {
    let levels = vec![
        CapacityLevel::Unknown,
        CapacityLevel::Critical,
        CapacityLevel::Low,
        CapacityLevel::Normal,
        CapacityLevel::High,
        CapacityLevel::Full,
    ];
    for level in levels {
        assert_eq!(CapacityLevel::from_text(level.canonical_text().as_str()), level);
    }
}

#[test]
fn unknown_variants_encode_as_zero() {
    assert_eq!(Type::Unknown.code(), 0);
    assert_eq!(State::Unknown.code(), 0);
    assert_eq!(Technology::Unknown.code(), 0);
    assert_eq!(WarningLevel::Unknown.code(), 0);
    assert_eq!(BatteryLevel::Unknown.code(), 0);
    assert_eq!(CapacityLevel::Unknown.canonical_text(), "unknown");
}
