//! Fetch planning: which remote requests a registry build performs.
//!
//! All remote work is the caller's: the library only decides, from the
//! chosen granularity, which requests to make for one device, and folds
//! the caller's per-field answers back into a record. Bulk granularity
//! (the recommended default) fetches every property of a device in one
//! call, bounding the remote-call count by the number of devices;
//! per-field granularity issues one call per property.

use vstd::prelude::*;
use crate::raw::{RawValue, RawV, RecordV, record_view};

verus! {

/// How many remote calls a device's property fetch takes, selected once
/// per build.
#[derive(Debug, Clone, Copy, PartialEq, Eq, Structural)]
pub enum FetchGranularity {
    Bulk,
    PerField,
}

/// One remote request for the caller to perform against the property
/// source.
#[derive(Debug, Clone, PartialEq)]
pub enum FetchRequest {
    /// Fetch every property of the device in one call.
    GetAll { handle: String },
    /// Fetch the one named property of the device.
    Get { handle: String, name: String },
}

/// The mathematical model of a request.
pub enum FetchRequestV {
    GetAll { handle: Seq<char> },
    Get { handle: Seq<char>, name: Seq<char> },
}

impl View for FetchRequest {
    type V = FetchRequestV;

    open spec fn view(&self) -> FetchRequestV {
        match self {
            FetchRequest::GetAll { handle } => FetchRequestV::GetAll { handle: handle@ },
            FetchRequest::Get { handle, name } => FetchRequestV::Get {
                handle: handle@,
                name: name@,
            },
        }
    }
}

pub open spec fn requests_view(s: Seq<FetchRequest>) -> Seq<FetchRequestV> {
    s.map(|i: int, q: FetchRequest| q@)
}

pub open spec fn names_view(s: Seq<String>) -> Seq<Seq<char>> {
    s.map(|i: int, n: String| n@)
}

/// The wire names of the field table, in table order.
pub open spec fn spec_wire_names() -> Seq<Seq<char>> {
    seq![
        "NativePath"@,
        "Vendor"@,
        "Model"@,
        "Serial"@,
        "UpdateTime"@,
        "Type"@,
        "PowerSupply"@,
        "HasHistory"@,
        "HasStatistics"@,
        "Online"@,
        "Energy"@,
        "EnergyEmpty"@,
        "EnergyFull"@,
        "EnergyFullDesign"@,
        "EnergyRate"@,
        "ChargeCycles"@,
        "Luminosity"@,
        "Voltage"@,
        "TimeToEmpty"@,
        "TimeToFull"@,
        "Percentage"@,
        "Temperature"@,
        "IsPresent"@,
        "State"@,
        "IsRechargeable"@,
        "Capacity"@,
        "Technology"@,
        "WarningLevel"@,
        "BatteryLevel"@,
        "IconName"@,
        "ChargeStartThreshold"@,
        "ChargeEndThreshold"@,
        "ChargeThresholdEnabled"@,
        "ChargeThresholdSupported"@,
        "VoltageMinDesign"@,
        "VoltageMaxDesign"@,
        "CapacityLevel"@,
    ]
}

/// The field table as an inspectable value: every wire name a snapshot
/// reads, in table order.
pub fn wire_names() -> (r: Vec<String>)
    ensures
        names_view(r@) == spec_wire_names(),
{
    let mut r: Vec<String> = Vec::new();
    r.push("NativePath".to_owned());
    r.push("Vendor".to_owned());
    r.push("Model".to_owned());
    r.push("Serial".to_owned());
    r.push("UpdateTime".to_owned());
    r.push("Type".to_owned());
    r.push("PowerSupply".to_owned());
    r.push("HasHistory".to_owned());
    r.push("HasStatistics".to_owned());
    r.push("Online".to_owned());
    r.push("Energy".to_owned());
    r.push("EnergyEmpty".to_owned());
    r.push("EnergyFull".to_owned());
    r.push("EnergyFullDesign".to_owned());
    r.push("EnergyRate".to_owned());
    r.push("ChargeCycles".to_owned());
    r.push("Luminosity".to_owned());
    r.push("Voltage".to_owned());
    r.push("TimeToEmpty".to_owned());
    r.push("TimeToFull".to_owned());
    r.push("Percentage".to_owned());
    r.push("Temperature".to_owned());
    r.push("IsPresent".to_owned());
    r.push("State".to_owned());
    r.push("IsRechargeable".to_owned());
    r.push("Capacity".to_owned());
    r.push("Technology".to_owned());
    r.push("WarningLevel".to_owned());
    r.push("BatteryLevel".to_owned());
    r.push("IconName".to_owned());
    r.push("ChargeStartThreshold".to_owned());
    r.push("ChargeEndThreshold".to_owned());
    r.push("ChargeThresholdEnabled".to_owned());
    r.push("ChargeThresholdSupported".to_owned());
    r.push("VoltageMinDesign".to_owned());
    r.push("VoltageMaxDesign".to_owned());
    r.push("CapacityLevel".to_owned());
    proof {
        assert(names_view(r@) =~= spec_wire_names());
    }
    r
}

/// The requests that fetch one device's properties under the chosen
/// granularity: a single bulk request, or one request per field-table
/// name, in table order.
pub open spec fn spec_plan(handle: Seq<char>, granularity: FetchGranularity) -> Seq<FetchRequestV> {
    match granularity {
        FetchGranularity::Bulk => seq![(FetchRequestV::GetAll { handle })],
        FetchGranularity::PerField => spec_wire_names().map(
            |i: int, n: Seq<char>| FetchRequestV::Get { handle, name: n },
        ),
    }
}

/// Plans the remote requests for one device.
pub fn plan_requests(handle: &str, granularity: FetchGranularity) -> (r: Vec<FetchRequest>)
    ensures
        requests_view(r@) == spec_plan(handle@, granularity),
{
    match granularity {
        FetchGranularity::Bulk => {
            let mut r: Vec<FetchRequest> = Vec::new();
            r.push(FetchRequest::GetAll { handle: handle.to_owned() });
            proof {
                assert(requests_view(r@) =~= spec_plan(handle@, FetchGranularity::Bulk));
            }
            r
        },
        FetchGranularity::PerField => {
            let names = wire_names();
            let ghost target = spec_plan(handle@, FetchGranularity::PerField);
            let mut r: Vec<FetchRequest> = Vec::new();
            let mut i: usize = 0;
            proof {
                assert(requests_view(r@) =~= target.take(0int));
            }
            while i < names.len()
                invariant
                    i <= names@.len(),
                    names_view(names@) == spec_wire_names(),
                    target == spec_plan(handle@, FetchGranularity::PerField),
                    target.len() == names@.len(),
                    requests_view(r@) == target.take(i as int),
                decreases names@.len() - i,
            {
                let name = names[i].clone();
                let q = FetchRequest::Get { handle: handle.to_owned(), name };
                let ghost pre = r@;
                proof {
                    assert(names_view(names@)[i as int] == names@[i as int]@);
                    assert(q@ == target[i as int]);
                }
                r.push(q);
                proof {
                    assert(r@ == pre.push(q));
                    assert(requests_view(r@) =~= requests_view(pre).push(q@));
                    assert(requests_view(r@) =~= target.take(i as int + 1));
                }
                i = i + 1;
            }
            proof {
                assert(target.take(names@.len() as int) =~= target);
            }
            r
        },
    }
}

/// The model of one per-field answer: the wire name asked for, and the
/// value if that fetch succeeded.
pub open spec fn opt_value_view(o: Option<RawValue>) -> Option<RawV> {
    match o {
        Some(v) => Some(v@),
        None => None,
    }
}

pub open spec fn parts_view(p: Seq<(String, Option<RawValue>)>) -> Seq<(Seq<char>, Option<RawV>)> {
    p.map(|i: int, e: (String, Option<RawValue>)| (e.0@, opt_value_view(e.1)))
}

/// The record that a sequence of per-field answers folds into: the
/// successful answers, under their names, in answer order; failed
/// fields are simply absent.
pub open spec fn spec_merge(parts: Seq<(Seq<char>, Option<RawV>)>) -> RecordV
    decreases parts.len(),
{
    if parts.len() == 0 {
        Seq::empty()
    } else {
        spec_merge(parts.drop_last()) + match parts.last().1 {
            Some(v) => seq![(parts.last().0, v)],
            None => Seq::empty(),
        }
    }
}

/// Folds per-field answers into one device's record, keeping every
/// successful field in answer order and dropping the failed ones.
pub fn merge_responses(parts: &Vec<(String, Option<RawValue>)>) -> (r: Vec<(String, RawValue)>)
    ensures
        record_view(r@) == spec_merge(parts_view(parts@)),
{
    let ghost pv = parts_view(parts@);
    let mut r: Vec<(String, RawValue)> = Vec::new();
    let mut i: usize = 0;
    proof {
        assert(pv.take(0int) =~= Seq::<(Seq<char>, Option<RawV>)>::empty());
        assert(record_view(r@) =~= spec_merge(pv.take(0int)));
    }
    while i < parts.len()
        invariant
            i <= parts@.len(),
            pv == parts_view(parts@),
            pv.len() == parts@.len(),
            record_view(r@) == spec_merge(pv.take(i as int)),
        decreases parts@.len() - i,
    {
        let e = &parts[i];
        let ghost pre = record_view(r@);
        proof {
            assert(pv[i as int] == (parts@[i as int].0@, opt_value_view(parts@[i as int].1)));
            assert(pv.take(i as int + 1).drop_last() =~= pv.take(i as int));
            assert(pv.take(i as int + 1).last() == pv[i as int]);
        }
        match &e.1 {
            Some(v) => {
                r.push((e.0.clone(), v.duplicate()));
                proof {
                    assert(record_view(r@) =~= pre + seq![(pv[i as int].0, pv[i as int].1->0)]);
                }
            },
            None => {
                proof {
                    assert(record_view(r@) =~= pre + Seq::<(Seq<char>, RawV)>::empty());
                }
            },
        }
        i = i + 1;
    }
    proof {
        assert(pv.take(parts@.len() as int) =~= pv);
    }
    r
}

} // verus!
