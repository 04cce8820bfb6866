//! In-memory registry of power-management device metadata.
//!
//! The library assembles strongly typed device snapshots out of the
//! loosely typed property records that a host power service hands back:
//! raw wire codes are decoded into closed enums (unrecognised codes
//! degrade to `Unknown` instead of failing), percentage-like thresholds
//! are validated into a bounded integer, and per-field fetch failures
//! are tolerated or rejected according to a fault-tolerance policy.
//! The remote calls themselves are performed by the caller; the library
//! works on plain values and is verified end to end.

pub mod text;
pub mod properties;
pub mod bounded;
pub mod raw;
pub mod snapshot;
pub mod registry;
pub mod fetch;

pub use bounded::BoundedU32;
pub use snapshot::UPowerDevice;
pub use registry::UPower;
