//! The six closed domain enums and their decoders.
//!
//! Each decoder is a total function from a raw wire code (or, for the
//! capacity level, a raw text token) to a closed enum. A code or token
//! absent from the table decodes to the reserved `Unknown` variant and
//! never to an error: the host service may grow new enumerants over
//! time, and a hard failure on a valid future code would break forward
//! compatibility. Each enum also has a canonical encoding, under which
//! `Unknown` is written as code `0` (or as the token `"unknown"`), so
//! that decoding a canonical encoding restores the variant exactly —
//! with the one documented exception of the shadowed device category
//! `BluetoothGeneric`, which shares its code with `Toy`.

use vstd::prelude::*;
use crate::text::{seq_eq_fold, str_eq_fold};

verus! {

/// Device category.
///
/// The code table ends at `27`, which means `Toy`: that is the
/// definitive mapping for a code that some descriptions of the wire
/// protocol also attach to `BluetoothGeneric`. The `BluetoothGeneric`
/// variant is kept, but it is shadowed by `Toy` at that shared code:
/// no raw code decodes to it, and it encodes as the same `27`, so
/// decoding cannot restore it (see [`lemma_type_code_round_trip`]).
#[derive(Debug, Clone, Copy, PartialEq, Eq, Structural)]
pub enum Type {
    Unknown,
    LinePower,
    Battery,
    Ups,
    Monitor,
    Mouse,
    Keyboard,
    Pda,
    Phone,
    MediaPlayer,
    Tablet,
    Computer,
    GamingInput,
    Pen,
    Touchpad,
    Modem,
    Network,
    Headset,
    Speakers,
    Headphones,
    Video,
    OtherAudio,
    RemoteControl,
    Printer,
    Scanner,
    Camera,
    Wearable,
    Toy,
    BluetoothGeneric,
}

impl Type {
    /// The codes the table knows; everything else decodes to `Unknown`.
    pub open spec fn spec_known_code(v: u32) -> bool {
        1 <= v <= 27
    }

    pub open spec fn spec_from_code(v: u32) -> Type {
        if v == 1 { Type::LinePower }
        else if v == 2 { Type::Battery }
        else if v == 3 { Type::Ups }
        else if v == 4 { Type::Monitor }
        else if v == 5 { Type::Mouse }
        else if v == 6 { Type::Keyboard }
        else if v == 7 { Type::Pda }
        else if v == 8 { Type::Phone }
        else if v == 9 { Type::MediaPlayer }
        else if v == 10 { Type::Tablet }
        else if v == 11 { Type::Computer }
        else if v == 12 { Type::GamingInput }
        else if v == 13 { Type::Pen }
        else if v == 14 { Type::Touchpad }
        else if v == 15 { Type::Modem }
        else if v == 16 { Type::Network }
        else if v == 17 { Type::Headset }
        else if v == 18 { Type::Speakers }
        else if v == 19 { Type::Headphones }
        else if v == 20 { Type::Video }
        else if v == 21 { Type::OtherAudio }
        else if v == 22 { Type::RemoteControl }
        else if v == 23 { Type::Printer }
        else if v == 24 { Type::Scanner }
        else if v == 25 { Type::Camera }
        else if v == 26 { Type::Wearable }
        else if v == 27 { Type::Toy }
        else { Type::Unknown }
    }

    /// Canonical code of a variant; `Unknown` is written as `0`, and
    /// the shadowed `BluetoothGeneric` as the `27` it shares with
    /// `Toy`.
    pub open spec fn spec_code(self) -> u32 {
        match self {
            Type::Unknown => 0,
            Type::LinePower => 1,
            Type::Battery => 2,
            Type::Ups => 3,
            Type::Monitor => 4,
            Type::Mouse => 5,
            Type::Keyboard => 6,
            Type::Pda => 7,
            Type::Phone => 8,
            Type::MediaPlayer => 9,
            Type::Tablet => 10,
            Type::Computer => 11,
            Type::GamingInput => 12,
            Type::Pen => 13,
            Type::Touchpad => 14,
            Type::Modem => 15,
            Type::Network => 16,
            Type::Headset => 17,
            Type::Speakers => 18,
            Type::Headphones => 19,
            Type::Video => 20,
            Type::OtherAudio => 21,
            Type::RemoteControl => 22,
            Type::Printer => 23,
            Type::Scanner => 24,
            Type::Camera => 25,
            Type::Wearable => 26,
            Type::Toy => 27,
            Type::BluetoothGeneric => 27,
        }
    }

    /// Decodes a raw device-category code; total, never an error.
    pub fn from_code(v: u32) -> (r: Type)
        ensures
            r == Type::spec_from_code(v),
    {
        match v {
            1 => Type::LinePower,
            2 => Type::Battery,
            3 => Type::Ups,
            4 => Type::Monitor,
            5 => Type::Mouse,
            6 => Type::Keyboard,
            7 => Type::Pda,
            8 => Type::Phone,
            9 => Type::MediaPlayer,
            10 => Type::Tablet,
            11 => Type::Computer,
            12 => Type::GamingInput,
            13 => Type::Pen,
            14 => Type::Touchpad,
            15 => Type::Modem,
            16 => Type::Network,
            17 => Type::Headset,
            18 => Type::Speakers,
            19 => Type::Headphones,
            20 => Type::Video,
            21 => Type::OtherAudio,
            22 => Type::RemoteControl,
            23 => Type::Printer,
            24 => Type::Scanner,
            25 => Type::Camera,
            26 => Type::Wearable,
            27 => Type::Toy,
            _ => Type::Unknown,
        }
    }

    /// Canonical code of this variant.
    pub fn code(self) -> (c: u32)
        ensures
            c == self.spec_code(),
    {
        match self {
            Type::Unknown => 0,
            Type::LinePower => 1,
            Type::Battery => 2,
            Type::Ups => 3,
            Type::Monitor => 4,
            Type::Mouse => 5,
            Type::Keyboard => 6,
            Type::Pda => 7,
            Type::Phone => 8,
            Type::MediaPlayer => 9,
            Type::Tablet => 10,
            Type::Computer => 11,
            Type::GamingInput => 12,
            Type::Pen => 13,
            Type::Touchpad => 14,
            Type::Modem => 15,
            Type::Network => 16,
            Type::Headset => 17,
            Type::Speakers => 18,
            Type::Headphones => 19,
            Type::Video => 20,
            Type::OtherAudio => 21,
            Type::RemoteControl => 22,
            Type::Printer => 23,
            Type::Scanner => 24,
            Type::Camera => 25,
            Type::Wearable => 26,
            Type::Toy => 27,
            Type::BluetoothGeneric => 27,
        }
    }
}

/// A raw device-category code outside the table decodes to `Unknown`,
/// never to an error.
pub proof fn lemma_type_decode_unknown(v: u32)
    requires
        !Type::spec_known_code(v),
    ensures
        Type::spec_from_code(v) == Type::Unknown,
{
}

/// Decoding the canonical code of a variant restores the variant — for
/// every variant but the shadowed `BluetoothGeneric`, whose shared code
/// `27` decodes to `Toy`, the definitive side of the collision.
pub proof fn lemma_type_code_round_trip(t: Type)
    requires
        !(t is BluetoothGeneric),
    ensures
        Type::spec_from_code(t.spec_code()) == t,
{
}

/// On codes the table knows, encoding the decoded variant restores the
/// code; an unrecognised code instead decodes to `Unknown`, which
/// re-encodes as `0` — lossy by design.
pub proof fn lemma_type_known_code_round_trip(v: u32)
    requires
        Type::spec_known_code(v),
    ensures
        Type::spec_from_code(v).spec_code() == v,
{
}

/// Charge state.
#[derive(Debug, Clone, Copy, PartialEq, Eq, Structural)]
pub enum State {
    Unknown,
    Charging,
    Discharging,
    Empty,
    FullyCharged,
    PendingCharge,
    PendingDischarge,
}

impl State {
    pub open spec fn spec_known_code(v: u32) -> bool {
        1 <= v <= 6
    }

    pub open spec fn spec_from_code(v: u32) -> State {
        if v == 1 { State::Charging }
        else if v == 2 { State::Discharging }
        else if v == 3 { State::Empty }
        else if v == 4 { State::FullyCharged }
        else if v == 5 { State::PendingCharge }
        else if v == 6 { State::PendingDischarge }
        else { State::Unknown }
    }

    pub open spec fn spec_code(self) -> u32 {
        match self {
            State::Unknown => 0,
            State::Charging => 1,
            State::Discharging => 2,
            State::Empty => 3,
            State::FullyCharged => 4,
            State::PendingCharge => 5,
            State::PendingDischarge => 6,
        }
    }

    /// Decodes a raw charge-state code; total, never an error.
    pub fn from_code(v: u32) -> (r: State)
        ensures
            r == State::spec_from_code(v),
    {
        match v {
            1 => State::Charging,
            2 => State::Discharging,
            3 => State::Empty,
            4 => State::FullyCharged,
            5 => State::PendingCharge,
            6 => State::PendingDischarge,
            _ => State::Unknown,
        }
    }

    pub fn code(self) -> (c: u32)
        ensures
            c == self.spec_code(),
    {
        match self {
            State::Unknown => 0,
            State::Charging => 1,
            State::Discharging => 2,
            State::Empty => 3,
            State::FullyCharged => 4,
            State::PendingCharge => 5,
            State::PendingDischarge => 6,
        }
    }
}

/// A raw charge-state code outside the table decodes to `Unknown`.
pub proof fn lemma_state_decode_unknown(v: u32)
    requires
        !State::spec_known_code(v),
    ensures
        State::spec_from_code(v) == State::Unknown,
{
}

/// Decoding the canonical code of any variant restores the variant.
pub proof fn lemma_state_code_round_trip(t: State)
    ensures
        State::spec_from_code(t.spec_code()) == t,
{
}

pub proof fn lemma_state_known_code_round_trip(v: u32)
    requires
        State::spec_known_code(v),
    ensures
        State::spec_from_code(v).spec_code() == v,
{
}

/// Battery chemistry.
#[derive(Debug, Clone, Copy, PartialEq, Eq, Structural)]
pub enum Technology {
    Unknown,
    LithiumIon,
    LithiumPolymer,
    LithiumIronPhosphate,
    LeadAcid,
    NickelCadmium,
    NickelMetalHydride,
}

impl Technology {
    pub open spec fn spec_known_code(v: u32) -> bool {
        1 <= v <= 6
    }

    pub open spec fn spec_from_code(v: u32) -> Technology {
        if v == 1 { Technology::LithiumIon }
        else if v == 2 { Technology::LithiumPolymer }
        else if v == 3 { Technology::LithiumIronPhosphate }
        else if v == 4 { Technology::LeadAcid }
        else if v == 5 { Technology::NickelCadmium }
        else if v == 6 { Technology::NickelMetalHydride }
        else { Technology::Unknown }
    }

    pub open spec fn spec_code(self) -> u32 {
        match self {
            Technology::Unknown => 0,
            Technology::LithiumIon => 1,
            Technology::LithiumPolymer => 2,
            Technology::LithiumIronPhosphate => 3,
            Technology::LeadAcid => 4,
            Technology::NickelCadmium => 5,
            Technology::NickelMetalHydride => 6,
        }
    }

    /// Decodes a raw battery-chemistry code; total, never an error.
    pub fn from_code(v: u32) -> (r: Technology)
        ensures
            r == Technology::spec_from_code(v),
    {
        match v {
            1 => Technology::LithiumIon,
            2 => Technology::LithiumPolymer,
            3 => Technology::LithiumIronPhosphate,
            4 => Technology::LeadAcid,
            5 => Technology::NickelCadmium,
            6 => Technology::NickelMetalHydride,
            _ => Technology::Unknown,
        }
    }

    pub fn code(self) -> (c: u32)
        ensures
            c == self.spec_code(),
    {
        match self {
            Technology::Unknown => 0,
            Technology::LithiumIon => 1,
            Technology::LithiumPolymer => 2,
            Technology::LithiumIronPhosphate => 3,
            Technology::LeadAcid => 4,
            Technology::NickelCadmium => 5,
            Technology::NickelMetalHydride => 6,
        }
    }
}

/// A raw battery-chemistry code outside the table decodes to `Unknown`.
pub proof fn lemma_technology_decode_unknown(v: u32)
    requires
        !Technology::spec_known_code(v),
    ensures
        Technology::spec_from_code(v) == Technology::Unknown,
{
}

/// Decoding the canonical code of any variant restores the variant.
pub proof fn lemma_technology_code_round_trip(t: Technology)
    ensures
        Technology::spec_from_code(t.spec_code()) == t,
{
}

pub proof fn lemma_technology_known_code_round_trip(v: u32)
    requires
        Technology::spec_known_code(v),
    ensures
        Technology::spec_from_code(v).spec_code() == v,
{
}

/// Warning level; `Discharging` is only meaningful for uninterruptible
/// power supplies.
#[derive(Debug, Clone, Copy, PartialEq, Eq, Structural)]
pub enum WarningLevel {
    Unknown,
    NoWarning,
    Discharging,
    Low,
    Critical,
    Action,
}

impl WarningLevel {
    pub open spec fn spec_known_code(v: u32) -> bool {
        1 <= v <= 5
    }

    pub open spec fn spec_from_code(v: u32) -> WarningLevel {
        if v == 1 { WarningLevel::NoWarning }
        else if v == 2 { WarningLevel::Discharging }
        else if v == 3 { WarningLevel::Low }
        else if v == 4 { WarningLevel::Critical }
        else if v == 5 { WarningLevel::Action }
        else { WarningLevel::Unknown }
    }

    pub open spec fn spec_code(self) -> u32 {
        match self {
            WarningLevel::Unknown => 0,
            WarningLevel::NoWarning => 1,
            WarningLevel::Discharging => 2,
            WarningLevel::Low => 3,
            WarningLevel::Critical => 4,
            WarningLevel::Action => 5,
        }
    }

    /// Decodes a raw warning-level code; total, never an error.
    pub fn from_code(v: u32) -> (r: WarningLevel)
        ensures
            r == WarningLevel::spec_from_code(v),
    {
        match v {
            1 => WarningLevel::NoWarning,
            2 => WarningLevel::Discharging,
            3 => WarningLevel::Low,
            4 => WarningLevel::Critical,
            5 => WarningLevel::Action,
            _ => WarningLevel::Unknown,
        }
    }

    pub fn code(self) -> (c: u32)
        ensures
            c == self.spec_code(),
    {
        match self {
            WarningLevel::Unknown => 0,
            WarningLevel::NoWarning => 1,
            WarningLevel::Discharging => 2,
            WarningLevel::Low => 3,
            WarningLevel::Critical => 4,
            WarningLevel::Action => 5,
        }
    }
}

/// A raw warning-level code outside the table decodes to `Unknown`.
pub proof fn lemma_warning_level_decode_unknown(v: u32)
    requires
        !WarningLevel::spec_known_code(v),
    ensures
        WarningLevel::spec_from_code(v) == WarningLevel::Unknown,
{
}

/// Decoding the canonical code of any variant restores the variant.
pub proof fn lemma_warning_level_code_round_trip(t: WarningLevel)
    ensures
        WarningLevel::spec_from_code(t.spec_code()) == t,
{
}

pub proof fn lemma_warning_level_known_code_round_trip(v: u32)
    requires
        WarningLevel::spec_known_code(v),
    ensures
        WarningLevel::spec_from_code(v).spec_code() == v,
{
}

/// Coarse battery level. The code table is non-contiguous: `None` means
/// the battery does not report a coarse level at all.
#[derive(Debug, Clone, Copy, PartialEq, Eq, Structural)]
pub enum BatteryLevel {
    Unknown,
    NotApplicable,
    Low,
    Critical,
    Normal,
    High,
    Full,
}

impl BatteryLevel {
    pub open spec fn spec_known_code(v: u32) -> bool {
        v == 1 || v == 3 || v == 4 || v == 6 || v == 7 || v == 8
    }

    pub open spec fn spec_from_code(v: u32) -> BatteryLevel {
        if v == 1 { BatteryLevel::NotApplicable }
        else if v == 3 { BatteryLevel::Low }
        else if v == 4 { BatteryLevel::Critical }
        else if v == 6 { BatteryLevel::Normal }
        else if v == 7 { BatteryLevel::High }
        else if v == 8 { BatteryLevel::Full }
        else { BatteryLevel::Unknown }
    }

    pub open spec fn spec_code(self) -> u32 {
        match self {
            BatteryLevel::Unknown => 0,
            BatteryLevel::NotApplicable => 1,
            BatteryLevel::Low => 3,
            BatteryLevel::Critical => 4,
            BatteryLevel::Normal => 6,
            BatteryLevel::High => 7,
            BatteryLevel::Full => 8,
        }
    }

    /// Decodes a raw coarse-battery-level code; total, never an error.
    pub fn from_code(v: u32) -> (r: BatteryLevel)
        ensures
            r == BatteryLevel::spec_from_code(v),
    {
        match v {
            1 => BatteryLevel::NotApplicable,
            3 => BatteryLevel::Low,
            4 => BatteryLevel::Critical,
            6 => BatteryLevel::Normal,
            7 => BatteryLevel::High,
            8 => BatteryLevel::Full,
            _ => BatteryLevel::Unknown,
        }
    }

    pub fn code(self) -> (c: u32)
        ensures
            c == self.spec_code(),
    {
        match self {
            BatteryLevel::Unknown => 0,
            BatteryLevel::NotApplicable => 1,
            BatteryLevel::Low => 3,
            BatteryLevel::Critical => 4,
            BatteryLevel::Normal => 6,
            BatteryLevel::High => 7,
            BatteryLevel::Full => 8,
        }
    }
}

/// A raw coarse-battery-level code outside the (non-contiguous) table
/// decodes to `Unknown`; in particular the gap codes `2` and `5` do.
pub proof fn lemma_battery_level_decode_unknown(v: u32)
    requires
        !BatteryLevel::spec_known_code(v),
    ensures
        BatteryLevel::spec_from_code(v) == BatteryLevel::Unknown,
{
}

/// Decoding the canonical code of any variant restores the variant.
pub proof fn lemma_battery_level_code_round_trip(t: BatteryLevel)
    ensures
        BatteryLevel::spec_from_code(t.spec_code()) == t,
{
}

pub proof fn lemma_battery_level_known_code_round_trip(v: u32)
    requires
        BatteryLevel::spec_known_code(v),
    ensures
        BatteryLevel::spec_from_code(v).spec_code() == v,
{
}

/// Capacity level, decoded from a raw text token by ASCII
/// case-insensitive match.
#[derive(Debug, Clone, Copy, PartialEq, Eq, Structural)]
pub enum CapacityLevel {
    Unknown,
    Critical,
    Low,
    Normal,
    High,
    Full,
}

impl CapacityLevel {
    /// The tokens the table knows, matched case-insensitively.
    pub open spec fn spec_known_token(s: Seq<char>) -> bool {
        seq_eq_fold(s, "critical"@) || seq_eq_fold(s, "low"@) || seq_eq_fold(s, "normal"@)
            || seq_eq_fold(s, "high"@) || seq_eq_fold(s, "full"@)
    }

    pub open spec fn spec_from_text(s: Seq<char>) -> CapacityLevel {
        if seq_eq_fold(s, "critical"@) { CapacityLevel::Critical }
        else if seq_eq_fold(s, "low"@) { CapacityLevel::Low }
        else if seq_eq_fold(s, "normal"@) { CapacityLevel::Normal }
        else if seq_eq_fold(s, "high"@) { CapacityLevel::High }
        else if seq_eq_fold(s, "full"@) { CapacityLevel::Full }
        else { CapacityLevel::Unknown }
    }

    /// Canonical token of a variant; `Unknown` is written `"unknown"`,
    /// which no table entry matches.
    pub open spec fn spec_text(self) -> Seq<char> {
        match self {
            CapacityLevel::Unknown => "unknown"@,
            CapacityLevel::Critical => "critical"@,
            CapacityLevel::Low => "low"@,
            CapacityLevel::Normal => "normal"@,
            CapacityLevel::High => "high"@,
            CapacityLevel::Full => "full"@,
        }
    }

    /// Decodes a raw capacity-level token, case-insensitively; total,
    /// never an error.
    pub fn from_text(s: &str) -> (r: CapacityLevel)
        ensures
            r == CapacityLevel::spec_from_text(s@),
    {
        if str_eq_fold(s, "critical") {
            CapacityLevel::Critical
        } else if str_eq_fold(s, "low") {
            CapacityLevel::Low
        } else if str_eq_fold(s, "normal") {
            CapacityLevel::Normal
        } else if str_eq_fold(s, "high") {
            CapacityLevel::High
        } else if str_eq_fold(s, "full") {
            CapacityLevel::Full
        } else {
            CapacityLevel::Unknown
        }
    }

    /// Canonical token of this variant.
    pub fn canonical_text(self) -> (r: String)
        ensures
            r@ == self.spec_text(),
    {
        match self {
            CapacityLevel::Unknown => "unknown".to_owned(),
            CapacityLevel::Critical => "critical".to_owned(),
            CapacityLevel::Low => "low".to_owned(),
            CapacityLevel::Normal => "normal".to_owned(),
            CapacityLevel::High => "high".to_owned(),
            CapacityLevel::Full => "full".to_owned(),
        }
    }
}

/// A raw capacity-level token outside the table decodes to `Unknown`.
pub proof fn lemma_capacity_level_decode_unknown(s: Seq<char>)
    requires
        !CapacityLevel::spec_known_token(s),
    ensures
        CapacityLevel::spec_from_text(s) == CapacityLevel::Unknown,
{
}

/// Decoding the canonical token of any variant restores the variant.
pub proof fn lemma_capacity_level_text_round_trip(t: CapacityLevel)
    ensures
        CapacityLevel::spec_from_text(t.spec_text()) == t,
{
    reveal_strlit("unknown");
    reveal_strlit("critical");
    reveal_strlit("low");
    reveal_strlit("normal");
    reveal_strlit("high");
    reveal_strlit("full");
    assert(!crate::text::char_eq_fold("high"@[0], "full"@[0]));
    assert(!crate::text::char_eq_fold("full"@[0], "high"@[0]));
}

} // verus!
