//! The device registry: an ordered collection of snapshots.
//!
//! A build runs the assembler once per enumerated device, in
//! enumeration order, under one fault-tolerance policy. Under the
//! permissive policy every device yields a best-effort snapshot and all
//! per-field failures are collected, tagged with their device handle.
//! Under the strict policy a device with any failing field is omitted
//! from the registry and one device-level failure is recorded; devices
//! already assembled are never affected. Once built, the registry is
//! read-only.

use vstd::prelude::*;
use crate::raw::{RawValue, Diagnostic, DiagnosticV, RecordV, record_view, diags_view};
use crate::snapshot::{
    UPowerDevice, DeviceSnapshotView, DeviceReadFailed, DeviceReadFailedV, spec_snapshot_of,
    spec_complete, spec_diags_of, assemble_permissive, assemble_strict,
};

verus! {

/// Whole-device fault-tolerance policy, selected once per build.
///
/// `Strict` omits a device from the registry on its first field
/// failure; `Permissive` (the recommended default for heterogeneous
/// device populations) keeps a best-effort snapshot with the failed
/// fields absent.
#[derive(Debug, Clone, Copy, PartialEq, Eq, Structural)]
pub enum FetchPolicy {
    Strict,
    Permissive,
}

/// A transport-level failure, fatal for the whole build: the remote
/// calls themselves are performed by the caller, who reports one of
/// these instead of handing inputs to [`UPower::build`]. Neither is
/// retried; a later build simply re-fetches everything.
#[derive(Debug, Clone, Copy, PartialEq, Eq, Structural)]
pub enum BuildError {
    /// The property source could not be reached at all.
    ConnectionError,
    /// The device-listing call failed.
    EnumerationFailed,
}

/// One device's input to a registry build: its handle and the record
/// its property fetch produced. A handle is only meaningful within the
/// build that enumerated it.
#[derive(Debug, Clone, PartialEq)]
pub struct DeviceFetch {
    pub handle: String,
    pub record: Vec<(String, RawValue)>,
}

/// The model of one device's fetched record.
pub open spec fn fetch_record(d: DeviceFetch) -> RecordV {
    record_view(d.record@)
}

/// The snapshots a build produces, in enumeration order: every device
/// under the permissive policy, and exactly the complete devices under
/// the strict policy.
pub open spec fn spec_build_devices(inputs: Seq<DeviceFetch>, policy: FetchPolicy) -> Seq<
    DeviceSnapshotView,
>
    decreases inputs.len(),
{
    if inputs.len() == 0 {
        Seq::empty()
    } else {
        let rest = spec_build_devices(inputs.drop_last(), policy);
        let last = inputs.last();
        if policy is Permissive || spec_complete(fetch_record(last)) {
            rest.push(spec_snapshot_of(fetch_record(last)))
        } else {
            rest
        }
    }
}

/// Tags each per-field diagnostic with the handle of the device it
/// belongs to.
pub open spec fn tag_diags(handle: Seq<char>, ds: Seq<DiagnosticV>) -> Seq<DeviceReadFailedV> {
    ds.map(|i: int, g: DiagnosticV| DeviceReadFailedV { handle, field: g.field, cause: g.cause })
}

/// All per-field failures of one device, tagged with its handle.
pub open spec fn device_diags(d: DeviceFetch) -> Seq<DeviceReadFailedV> {
    tag_diags(d.handle@, spec_diags_of(fetch_record(d)))
}

/// The failures a build reports, in enumeration order: under the
/// permissive policy every per-field failure of every device; under the
/// strict policy one entry per omitted device, carrying its first
/// failing field.
pub open spec fn spec_build_failures(inputs: Seq<DeviceFetch>, policy: FetchPolicy) -> Seq<
    DeviceReadFailedV,
>
    decreases inputs.len(),
{
    if inputs.len() == 0 {
        Seq::empty()
    } else {
        let rest = spec_build_failures(inputs.drop_last(), policy);
        let last = inputs.last();
        match policy {
            FetchPolicy::Permissive => rest + device_diags(last),
            FetchPolicy::Strict => if spec_complete(fetch_record(last)) {
                rest
            } else {
                rest.push(
                    DeviceReadFailedV {
                        handle: last.handle@,
                        field: spec_diags_of(fetch_record(last))[0].field,
                        cause: spec_diags_of(fetch_record(last))[0].cause,
                    },
                )
            },
        }
    }
}

pub open spec fn devices_view(s: Seq<UPowerDevice>) -> Seq<DeviceSnapshotView> {
    s.map(|i: int, d: UPowerDevice| d@)
}

pub open spec fn failures_view(s: Seq<DeviceReadFailed>) -> Seq<DeviceReadFailedV> {
    s.map(|i: int, f: DeviceReadFailed| f@)
}

/// The registry: the snapshots of one build, in enumeration order.
/// It is assembled once and then treated as immutable, shared for
/// reading; a caller wanting fresher data builds a new one.
#[derive(Debug, PartialEq)]
pub struct UPower {
    devices: Vec<UPowerDevice>,
}

impl View for UPower {
    type V = Seq<DeviceSnapshotView>;

    closed spec fn view(&self) -> Seq<DeviceSnapshotView> {
        devices_view(self.devices@)
    }
}

/// Appends one device's diagnostics to the build's failure list,
/// tagged with the device's handle.
fn append_failures(failures: &mut Vec<DeviceReadFailed>, handle: &str, diags: &Vec<Diagnostic>)
    ensures
        failures_view(final(failures)@) == failures_view(old(failures)@) + tag_diags(
            handle@,
            diags_view(diags@),
        ),
{
    let ghost target = tag_diags(handle@, diags_view(diags@));
    let mut j: usize = 0;
    while j < diags.len()
        invariant
            j <= diags@.len(),
            target == tag_diags(handle@, diags_view(diags@)),
            target.len() == diags@.len(),
            failures_view(failures@) == failures_view(old(failures)@) + target.take(j as int),
        decreases diags@.len() - j,
    {
        let g = &diags[j];
        let ghost pre = failures@;
        let f = DeviceReadFailed { handle: handle.to_owned(), field: g.field.clone(), cause: g.cause };
        proof {
            assert(diags_view(diags@)[j as int] == diags@[j as int]@);
            assert(target[j as int] == (DeviceReadFailedV {
                handle: handle@,
                field: diags@[j as int]@.field,
                cause: diags@[j as int]@.cause,
            }));
            assert(f@ == target[j as int]);
        }
        failures.push(f);
        proof {
            assert(failures@ == pre.push(f));
            assert(failures_view(failures@) =~= failures_view(pre).push(f@));
            assert(failures_view(failures@) =~= failures_view(old(failures)@) + target.take(
                j as int + 1,
            ));
        }
        j = j + 1;
    }
    proof {
        assert(target.take(diags@.len() as int) =~= target);
    }
}

impl UPower {
    /// Builds the registry from the fetched inputs, one device at a
    /// time, in the order the enumeration produced them. Devices are
    /// independent: a failure in one never affects another.
    pub fn build(inputs: &Vec<DeviceFetch>, policy: FetchPolicy) -> (res: (
        UPower,
        Vec<DeviceReadFailed>,
    ))
        ensures
            res.0@ == spec_build_devices(inputs@, policy),
            failures_view(res.1@) == spec_build_failures(inputs@, policy),
    {
        let mut devices: Vec<UPowerDevice> = Vec::new();
        let mut failures: Vec<DeviceReadFailed> = Vec::new();
        let mut i: usize = 0;
        proof {
            assert(inputs@.take(0int) =~= Seq::<DeviceFetch>::empty());
            assert(devices_view(devices@) =~= Seq::<DeviceSnapshotView>::empty());
            assert(failures_view(failures@) =~= Seq::<DeviceReadFailedV>::empty());
        }
        while i < inputs.len()
            invariant
                i <= inputs@.len(),
                devices_view(devices@) == spec_build_devices(inputs@.take(i as int), policy),
                failures_view(failures@) == spec_build_failures(inputs@.take(i as int), policy),
            decreases inputs@.len() - i,
        {
            let d = &inputs[i];
            let ghost pre_devices = devices_view(devices@);
            let ghost pre_failures = failures_view(failures@);
            match policy {
                FetchPolicy::Permissive => {
                    let (snapshot, diags) = assemble_permissive(&d.record);
                    devices.push(snapshot);
                    append_failures(&mut failures, d.handle.as_str(), &diags);
                    proof {
                        assert(devices_view(devices@) =~= pre_devices.push(
                            spec_snapshot_of(fetch_record(inputs@[i as int])),
                        ));
                    }
                },
                FetchPolicy::Strict => {
                    match assemble_strict(d.handle.as_str(), &d.record) {
                        Ok(snapshot) => {
                            devices.push(snapshot);
                            proof {
                                assert(devices_view(devices@) =~= pre_devices.push(
                                    spec_snapshot_of(fetch_record(inputs@[i as int])),
                                ));
                            }
                        },
                        Err(failure) => {
                            failures.push(failure);
                            proof {
                                assert(failures_view(failures@) =~= pre_failures.push(failure@));
                            }
                        },
                    }
                },
            }
            proof {
                assert(inputs@.take(i as int + 1).drop_last() =~= inputs@.take(i as int));
                assert(inputs@.take(i as int + 1).last() == inputs@[i as int]);
            }
            i = i + 1;
        }
        proof {
            assert(inputs@.take(inputs@.len() as int) =~= inputs@);
        }
        (UPower { devices }, failures)
    }

    /// The snapshots of this build, in enumeration order; a read-only
    /// view.
    pub fn devices(&self) -> (r: &Vec<UPowerDevice>)
        ensures
            devices_view(r@) == self@,
    {
        &self.devices
    }
}

/// Registry order equals enumeration order: under the permissive policy
/// a build yields exactly one snapshot per input device, and the
/// snapshot at each position is assembled from the input at the same
/// position — for any input sequence, so in particular for any
/// permutation of the same devices.
pub proof fn lemma_registry_preserves_order(inputs: Seq<DeviceFetch>)
    ensures
        spec_build_devices(inputs, FetchPolicy::Permissive).len() == inputs.len(),
        forall|i: int|
            0 <= i < inputs.len() ==> spec_build_devices(inputs, FetchPolicy::Permissive)[i]
                == spec_snapshot_of(fetch_record(inputs[i])),
    decreases inputs.len(),
{
    if inputs.len() > 0 {
        lemma_registry_preserves_order(inputs.drop_last());
    }
}

/// The strict policy keeps the enumeration order of the devices it
/// retains: a strict build equals a permissive build of the complete
/// inputs alone, with the incomplete ones filtered out in place.
#[verifier::rlimit(50)]
pub proof fn lemma_strict_build_is_filtered_permissive(inputs: Seq<DeviceFetch>)
    ensures
        spec_build_devices(inputs, FetchPolicy::Strict) == spec_build_devices(
            inputs.filter(|d: DeviceFetch| spec_complete(fetch_record(d))),
            FetchPolicy::Permissive,
        ),
    decreases inputs.len(),
{
    reveal(Seq::filter);
    let pred = |d: DeviceFetch| spec_complete(fetch_record(d));
    if inputs.len() > 0 {
        lemma_strict_build_is_filtered_permissive(inputs.drop_last());
        let rest = inputs.drop_last().filter(pred);
        if pred(inputs.last()) {
            assert(inputs.filter(pred) == rest.push(inputs.last()));
            assert(rest.push(inputs.last()).drop_last() =~= rest);
        } else {
            assert(inputs.filter(pred) == rest);
        }
    }
}

} // verus!
