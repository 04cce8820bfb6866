//! The bounded percentage integer and its validator.
//!
//! In deliberate contrast with the enum decoders, validation fails
//! instead of coercing: a threshold percentage outside `[0, 100]`
//! signals a real anomaly in the reported hardware state and must be
//! surfaced, not silently absorbed.

use vstd::prelude::*;

verus! {

/// Raised when a percentage-like raw integer falls outside `[0, 100]`.
#[derive(Debug, Clone, Copy, PartialEq, Eq, Structural)]
pub struct ValidationError {
    /// The rejected raw value.
    pub value: u32,
}

/// An unsigned integer confined to the closed range `[0, 100]`.
/// Construction goes through [`BoundedU32::validate`] alone, so a value
/// of this type is within range for its whole life.
#[derive(Debug, Clone, Copy, PartialEq, Eq, Structural)]
pub struct BoundedU32(u32);

impl BoundedU32 {
    /// The wrapped value.
    pub closed spec fn spec_value(self) -> u32 {
        self.0
    }

    /// The range invariant, enforced at every construction.
    #[verifier::type_invariant]
    pub closed spec fn inv(self) -> bool {
        self.0 <= 100
    }

    /// Validates a raw integer into the bounded range. Succeeds exactly
    /// on `0 <= v <= 100` and reports the offending value otherwise.
    pub fn validate(v: u32) -> (r: Result<BoundedU32, ValidationError>)
        ensures
            r is Ok <==> v <= 100,
            r is Ok ==> r->Ok_0.spec_value() == v,
            r is Err ==> r->Err_0 == (ValidationError { value: v }),
    {
        if v <= 100 {
            Ok(BoundedU32(v))
        } else {
            Err(ValidationError { value: v })
        }
    }

    /// Reads the wrapped value back; it is always within `[0, 100]`.
    pub fn get(self) -> (v: u32)
        ensures
            v == self.spec_value(),
            v <= 100,
    {
        proof {
            use_type_invariant(&self);
        }
        self.0
    }
}

} // verus!
