//! Raw property values and the typed accessors over a fetched record.
//!
//! A record is the ordered list of `(wire name, raw value)` pairs that
//! one device's property fetch produced. The accessors here look a
//! field up by wire name, coerce it to the expected wire type, and
//! report each failure as an explicit diagnostic instead of deciding
//! policy themselves: whether a failed field aborts the device is the
//! assembler's choice.

use vstd::prelude::*;
use crate::text::str_eq;
use crate::bounded::BoundedU32;

verus! {

/// An IEEE-754 double carried opaquely as its raw 64-bit pattern. The
/// library stores and transports measurements without interpreting
/// them; callers convert to and from a native double at the boundary.
#[derive(Debug, Clone, Copy, PartialEq, Eq, Structural)]
pub struct FloatBits(pub u64);

impl FloatBits {
    /// The raw bit pattern.
    pub open spec fn spec_bits(self) -> u64 {
        self.0
    }
}

/// A raw property value as the property source returns it: a tagged
/// union of signed integer, unsigned integer, floating point (as its
/// bit pattern), boolean and text.
#[derive(Debug, Clone, PartialEq)]
pub enum RawValue {
    Int(i64),
    Uint(u64),
    Float(FloatBits),
    Bool(bool),
    Text(String),
}

/// The mathematical model of a raw value; text is modelled as its
/// character sequence.
pub enum RawV {
    Int(i64),
    Uint(u64),
    Float(u64),
    Bool(bool),
    Text(Seq<char>),
}

impl View for RawValue {
    type V = RawV;

    open spec fn view(&self) -> RawV {
        match self {
            RawValue::Int(v) => RawV::Int(*v),
            RawValue::Uint(v) => RawV::Uint(*v),
            RawValue::Float(b) => RawV::Float(b.0),
            RawValue::Bool(v) => RawV::Bool(*v),
            RawValue::Text(s) => RawV::Text(s@),
        }
    }
}

impl RawValue {
    /// An exact copy of this raw value.
    pub fn duplicate(&self) -> (r: RawValue)
        ensures
            r == *self,
    {
        match self {
            RawValue::Int(v) => RawValue::Int(*v),
            RawValue::Uint(v) => RawValue::Uint(*v),
            RawValue::Float(b) => RawValue::Float(*b),
            RawValue::Bool(v) => RawValue::Bool(*v),
            RawValue::Text(s) => RawValue::Text(s.clone()),
        }
    }
}

/// Why one field of a record could not be read.
#[derive(Debug, Clone, Copy, PartialEq, Eq, Structural)]
pub enum FieldError {
    /// The property was absent from the record: its fetch failed or the
    /// device does not expose it.
    Unavailable,
    /// The property was present with a different wire type than the
    /// field expects.
    WrongType,
    /// A percentage-like property was outside `[0, 100]`; carries the
    /// rejected value.
    OutOfRange(u32),
}

/// One per-field failure, kept with full context.
#[derive(Debug, Clone, PartialEq)]
pub struct Diagnostic {
    /// The wire name of the field that failed.
    pub field: String,
    pub cause: FieldError,
}

/// The mathematical model of a diagnostic.
pub struct DiagnosticV {
    pub field: Seq<char>,
    pub cause: FieldError,
}

impl View for Diagnostic {
    type V = DiagnosticV;

    open spec fn view(&self) -> DiagnosticV {
        DiagnosticV { field: self.field@, cause: self.cause }
    }
}

/// The model of a record: wire names and raw values, in fetch order.
pub type RecordV = Seq<(Seq<char>, RawV)>;

pub open spec fn record_view(r: Seq<(String, RawValue)>) -> RecordV {
    r.map(|i: int, e: (String, RawValue)| (e.0@, e.1@))
}

pub open spec fn diags_view(d: Seq<Diagnostic>) -> Seq<DiagnosticV> {
    d.map(|i: int, e: Diagnostic| e@)
}

/// The first value recorded under `name`, if any.
pub open spec fn spec_lookup(r: RecordV, name: Seq<char>) -> Option<RawV>
    decreases r.len(),
{
    if r.len() == 0 {
        None
    } else if r[0].0 == name {
        Some(r[0].1)
    } else {
        spec_lookup(r.drop_first(), name)
    }
}

pub open spec fn spec_get_text(r: RecordV, name: Seq<char>) -> Result<Seq<char>, FieldError> {
    match spec_lookup(r, name) {
        Some(RawV::Text(s)) => Ok(s),
        Some(_) => Err(FieldError::WrongType),
        None => Err(FieldError::Unavailable),
    }
}

pub open spec fn spec_get_bool(r: RecordV, name: Seq<char>) -> Result<bool, FieldError> {
    match spec_lookup(r, name) {
        Some(RawV::Bool(v)) => Ok(v),
        Some(_) => Err(FieldError::WrongType),
        None => Err(FieldError::Unavailable),
    }
}

pub open spec fn spec_get_u64(r: RecordV, name: Seq<char>) -> Result<u64, FieldError> {
    match spec_lookup(r, name) {
        Some(RawV::Uint(v)) => Ok(v),
        Some(_) => Err(FieldError::WrongType),
        None => Err(FieldError::Unavailable),
    }
}

/// An unsigned field that must fit the 32-bit wire type.
pub open spec fn spec_get_u32(r: RecordV, name: Seq<char>) -> Result<u32, FieldError> {
    match spec_lookup(r, name) {
        Some(RawV::Uint(v)) => if v <= u32::MAX { Ok(v as u32) } else { Err(FieldError::WrongType) },
        Some(_) => Err(FieldError::WrongType),
        None => Err(FieldError::Unavailable),
    }
}

pub open spec fn spec_get_i64(r: RecordV, name: Seq<char>) -> Result<i64, FieldError> {
    match spec_lookup(r, name) {
        Some(RawV::Int(v)) => Ok(v),
        Some(_) => Err(FieldError::WrongType),
        None => Err(FieldError::Unavailable),
    }
}

/// A signed field that must fit the 32-bit wire type.
pub open spec fn spec_get_i32(r: RecordV, name: Seq<char>) -> Result<i32, FieldError> {
    match spec_lookup(r, name) {
        Some(RawV::Int(v)) => if i32::MIN <= v && v <= i32::MAX {
            Ok(v as i32)
        } else {
            Err(FieldError::WrongType)
        },
        Some(_) => Err(FieldError::WrongType),
        None => Err(FieldError::Unavailable),
    }
}

pub open spec fn spec_get_float(r: RecordV, name: Seq<char>) -> Result<u64, FieldError> {
    match spec_lookup(r, name) {
        Some(RawV::Float(b)) => Ok(b),
        Some(_) => Err(FieldError::WrongType),
        None => Err(FieldError::Unavailable),
    }
}

/// A percentage-like unsigned field, validated into `[0, 100]`.
pub open spec fn spec_get_threshold(r: RecordV, name: Seq<char>) -> Result<u32, FieldError> {
    match spec_get_u32(r, name) {
        Ok(v) => if v <= 100 { Ok(v) } else { Err(FieldError::OutOfRange(v)) },
        Err(e) => Err(e),
    }
}

/// The one-element diagnostic list for a failed field, or the empty
/// list for a successful one.
pub open spec fn spec_diag<T>(res: Result<T, FieldError>, name: Seq<char>) -> Seq<DiagnosticV> {
    match res {
        Ok(_) => Seq::empty(),
        Err(e) => seq![(DiagnosticV { field: name, cause: e })],
    }
}

/// The zero- or one-entry record segment a single optional field
/// serializes to.
pub open spec fn opt_entry(name: Seq<char>, o: Option<RawV>) -> RecordV {
    match o {
        Some(v) => seq![(name, v)],
        None => Seq::empty(),
    }
}

/// Looking a name up in a one-field segment finds the field's value
/// exactly when the names agree and the field is present.
pub proof fn lemma_lookup_opt_entry(name: Seq<char>, o: Option<RawV>, n: Seq<char>)
    ensures
        spec_lookup(opt_entry(name, o), n) == (if n == name && o is Some {
            o
        } else {
            None::<RawV>
        }),
{
    match o {
        Some(v) => {
            assert(opt_entry(name, o) == seq![(name, v)]);
            assert(seq![(name, v)].len() == 1);
            assert(seq![(name, v)][0] == (name, v));
            if n != name {
                assert(seq![(name, v)].drop_first() =~= Seq::<(Seq<char>, RawV)>::empty());
                assert(spec_lookup(Seq::<(Seq<char>, RawV)>::empty(), n) is None);
            }
        },
        None => {
            assert(opt_entry(name, o) =~= Seq::<(Seq<char>, RawV)>::empty());
        },
    }
}

/// Looking a name up in a concatenation first searches the front part
/// and falls through to the back part only when the front has no entry
/// under that name.
pub proof fn lemma_lookup_concat(a: RecordV, b: RecordV, n: Seq<char>)
    ensures
        spec_lookup(a + b, n) == (match spec_lookup(a, n) {
            Some(v) => Some(v),
            None => spec_lookup(b, n),
        }),
    decreases a.len(),
{
    if a.len() == 0 {
        assert(a + b =~= b);
    } else {
        assert((a + b)[0] == a[0]);
        if a[0].0 != n {
            assert((a + b).drop_first() =~= a.drop_first() + b);
            lemma_lookup_concat(a.drop_first(), b, n);
        }
    }
}

/// Finds the first entry recorded under `name`.
pub fn lookup<'a>(r: &'a Vec<(String, RawValue)>, name: &str) -> (res: Option<&'a RawValue>)
    ensures
        res is Some ==> spec_lookup(record_view(r@), name@) == Some(res->0@),
        res is None ==> spec_lookup(record_view(r@), name@) is None,
{
    let ghost rv = record_view(r@);
    proof {
        assert(rv.skip(0) =~= rv);
    }
    let mut i: usize = 0;
    while i < r.len()
        invariant
            i <= r@.len(),
            rv == record_view(r@),
            rv.len() == r@.len(),
            spec_lookup(rv, name@) == spec_lookup(rv.skip(i as int), name@),
        decreases r@.len() - i,
    {
        let entry = &r[i];
        proof {
            assert(rv[i as int] == (r@[i as int].0@, r@[i as int].1@));
            assert(rv.skip(i as int)[0] == rv[i as int]);
        }
        if str_eq(entry.0.as_str(), name) {
            return Some(&entry.1);
        }
        proof {
            assert(rv.skip(i as int).drop_first() =~= rv.skip(i as int + 1));
        }
        i = i + 1;
    }
    proof {
        assert(rv.skip(r@.len() as int) =~= Seq::empty());
    }
    None
}

/// Records one failure against a field.
fn push_diag(diags: &mut Vec<Diagnostic>, name: &str, cause: FieldError)
    ensures
        diags_view(final(diags)@) == diags_view(old(diags)@) + seq![
            (DiagnosticV { field: name@, cause: cause }),
        ],
{
    let d = Diagnostic { field: name.to_owned(), cause };
    diags.push(d);
    proof {
        assert(diags_view(diags@) =~= diags_view(old(diags)@) + seq![
            (DiagnosticV { field: name@, cause: cause }),
        ]);
    }
}

/// Reads a text field; on failure the field is reported and absent.
pub fn take_text(r: &Vec<(String, RawValue)>, name: &str, diags: &mut Vec<Diagnostic>) -> (res:
    Option<String>)
    ensures
        diags_view(final(diags)@) == diags_view(old(diags)@) + spec_diag(
            spec_get_text(record_view(r@), name@),
            name@,
        ),
        res is Some <==> spec_get_text(record_view(r@), name@) is Ok,
        res is Some ==> res->0@ == spec_get_text(record_view(r@), name@)->Ok_0,
{
    match lookup(r, name) {
        Some(RawValue::Text(s)) => {
            proof {
                assert(diags_view(diags@) =~= diags_view(diags@) + Seq::<DiagnosticV>::empty());
            }
            Some(s.clone())
        },
        Some(_) => {
            push_diag(diags, name, FieldError::WrongType);
            None
        },
        None => {
            push_diag(diags, name, FieldError::Unavailable);
            None
        },
    }
}

/// Reads a boolean field; on failure the field is reported and absent.
pub fn take_bool(r: &Vec<(String, RawValue)>, name: &str, diags: &mut Vec<Diagnostic>) -> (res:
    Option<bool>)
    ensures
        diags_view(final(diags)@) == diags_view(old(diags)@) + spec_diag(
            spec_get_bool(record_view(r@), name@),
            name@,
        ),
        res is Some <==> spec_get_bool(record_view(r@), name@) is Ok,
        res is Some ==> res->0 == spec_get_bool(record_view(r@), name@)->Ok_0,
{
    match lookup(r, name) {
        Some(RawValue::Bool(v)) => {
            proof {
                assert(diags_view(diags@) =~= diags_view(diags@) + Seq::<DiagnosticV>::empty());
            }
            Some(*v)
        },
        Some(_) => {
            push_diag(diags, name, FieldError::WrongType);
            None
        },
        None => {
            push_diag(diags, name, FieldError::Unavailable);
            None
        },
    }
}

/// Reads an unsigned 64-bit field; on failure the field is reported and
/// absent.
pub fn take_u64(r: &Vec<(String, RawValue)>, name: &str, diags: &mut Vec<Diagnostic>) -> (res:
    Option<u64>)
    ensures
        diags_view(final(diags)@) == diags_view(old(diags)@) + spec_diag(
            spec_get_u64(record_view(r@), name@),
            name@,
        ),
        res is Some <==> spec_get_u64(record_view(r@), name@) is Ok,
        res is Some ==> res->0 == spec_get_u64(record_view(r@), name@)->Ok_0,
{
    match lookup(r, name) {
        Some(RawValue::Uint(v)) => {
            proof {
                assert(diags_view(diags@) =~= diags_view(diags@) + Seq::<DiagnosticV>::empty());
            }
            Some(*v)
        },
        Some(_) => {
            push_diag(diags, name, FieldError::WrongType);
            None
        },
        None => {
            push_diag(diags, name, FieldError::Unavailable);
            None
        },
    }
}

/// Reads an unsigned 32-bit field; on failure the field is reported and
/// absent.
pub fn take_u32(r: &Vec<(String, RawValue)>, name: &str, diags: &mut Vec<Diagnostic>) -> (res:
    Option<u32>)
    ensures
        diags_view(final(diags)@) == diags_view(old(diags)@) + spec_diag(
            spec_get_u32(record_view(r@), name@),
            name@,
        ),
        res is Some <==> spec_get_u32(record_view(r@), name@) is Ok,
        res is Some ==> res->0 == spec_get_u32(record_view(r@), name@)->Ok_0,
{
    match lookup(r, name) {
        Some(RawValue::Uint(v)) => {
            let x: u64 = *v;
            if x <= u32::MAX as u64 {
                proof {
                    assert(diags_view(diags@) =~= diags_view(diags@)
                        + Seq::<DiagnosticV>::empty());
                }
                Some(x as u32)
            } else {
                push_diag(diags, name, FieldError::WrongType);
                None
            }
        },
        Some(_) => {
            push_diag(diags, name, FieldError::WrongType);
            None
        },
        None => {
            push_diag(diags, name, FieldError::Unavailable);
            None
        },
    }
}

/// Reads a signed 64-bit field; on failure the field is reported and
/// absent.
pub fn take_i64(r: &Vec<(String, RawValue)>, name: &str, diags: &mut Vec<Diagnostic>) -> (res:
    Option<i64>)
    ensures
        diags_view(final(diags)@) == diags_view(old(diags)@) + spec_diag(
            spec_get_i64(record_view(r@), name@),
            name@,
        ),
        res is Some <==> spec_get_i64(record_view(r@), name@) is Ok,
        res is Some ==> res->0 == spec_get_i64(record_view(r@), name@)->Ok_0,
{
    match lookup(r, name) {
        Some(RawValue::Int(v)) => {
            proof {
                assert(diags_view(diags@) =~= diags_view(diags@) + Seq::<DiagnosticV>::empty());
            }
            Some(*v)
        },
        Some(_) => {
            push_diag(diags, name, FieldError::WrongType);
            None
        },
        None => {
            push_diag(diags, name, FieldError::Unavailable);
            None
        },
    }
}

/// Reads a signed 32-bit field; on failure the field is reported and
/// absent.
pub fn take_i32(r: &Vec<(String, RawValue)>, name: &str, diags: &mut Vec<Diagnostic>) -> (res:
    Option<i32>)
    ensures
        diags_view(final(diags)@) == diags_view(old(diags)@) + spec_diag(
            spec_get_i32(record_view(r@), name@),
            name@,
        ),
        res is Some <==> spec_get_i32(record_view(r@), name@) is Ok,
        res is Some ==> res->0 == spec_get_i32(record_view(r@), name@)->Ok_0,
{
    match lookup(r, name) {
        Some(RawValue::Int(v)) => {
            let x: i64 = *v;
            if i32::MIN as i64 <= x && x <= i32::MAX as i64 {
                proof {
                    assert(diags_view(diags@) =~= diags_view(diags@)
                        + Seq::<DiagnosticV>::empty());
                }
                Some(x as i32)
            } else {
                push_diag(diags, name, FieldError::WrongType);
                None
            }
        },
        Some(_) => {
            push_diag(diags, name, FieldError::WrongType);
            None
        },
        None => {
            push_diag(diags, name, FieldError::Unavailable);
            None
        },
    }
}

/// Reads a floating-point field as its bit pattern; on failure the
/// field is reported and absent.
pub fn take_float(r: &Vec<(String, RawValue)>, name: &str, diags: &mut Vec<Diagnostic>) -> (res:
    Option<FloatBits>)
    ensures
        diags_view(final(diags)@) == diags_view(old(diags)@) + spec_diag(
            spec_get_float(record_view(r@), name@),
            name@,
        ),
        res is Some <==> spec_get_float(record_view(r@), name@) is Ok,
        res is Some ==> res->0.spec_bits() == spec_get_float(record_view(r@), name@)->Ok_0,
{
    match lookup(r, name) {
        Some(RawValue::Float(b)) => {
            proof {
                assert(diags_view(diags@) =~= diags_view(diags@) + Seq::<DiagnosticV>::empty());
            }
            Some(*b)
        },
        Some(_) => {
            push_diag(diags, name, FieldError::WrongType);
            None
        },
        None => {
            push_diag(diags, name, FieldError::Unavailable);
            None
        },
    }
}

/// Reads and validates a percentage-like field; a present, well-typed
/// value outside `[0, 100]` is rejected with its value, and the field
/// stays absent.
pub fn take_threshold(r: &Vec<(String, RawValue)>, name: &str, diags: &mut Vec<Diagnostic>) -> (res:
    Option<BoundedU32>)
    ensures
        diags_view(final(diags)@) == diags_view(old(diags)@) + spec_diag(
            spec_get_threshold(record_view(r@), name@),
            name@,
        ),
        res is Some <==> spec_get_threshold(record_view(r@), name@) is Ok,
        res is Some ==> res->0.spec_value() == spec_get_threshold(record_view(r@), name@)->Ok_0,
{
    match lookup(r, name) {
        Some(RawValue::Uint(v)) => {
            let x: u64 = *v;
            if x <= u32::MAX as u64 {
                match BoundedU32::validate(x as u32) {
                    Ok(b) => {
                        proof {
                            assert(diags_view(diags@) =~= diags_view(diags@)
                                + Seq::<DiagnosticV>::empty());
                        }
                        Some(b)
                    },
                    Err(e) => {
                        push_diag(diags, name, FieldError::OutOfRange(e.value));
                        None
                    },
                }
            } else {
                push_diag(diags, name, FieldError::WrongType);
                None
            }
        },
        Some(_) => {
            push_diag(diags, name, FieldError::WrongType);
            None
        },
        None => {
            push_diag(diags, name, FieldError::Unavailable);
            None
        },
    }
}

} // verus!
