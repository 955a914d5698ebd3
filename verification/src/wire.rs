//! Wire-level argument values. A `WireArgument` is the generic, self-describing
//! form of one call parameter as the ledger's call-building interface accepts
//! it; a `FieldValue` is the typed value of one parameter-structure field
//! before conversion. Wire numbers are unsigned, so a negative field value is
//! not representable and must be rejected rather than coerced.

use vstd::prelude::*;

verus! {

/// The typed value of one field of a parameter structure.
#[derive(Debug, Clone, PartialEq, Eq)]
pub enum FieldValue {
    /// An unsigned integer; always representable on the wire.
    Unsigned(u64),
    /// A signed integer; representable only when it is not negative.
    Signed(i64),
    /// A text value; always representable.
    Text(String),
    /// A boolean value; always representable.
    Flag(bool),
}

/// One generically-typed call argument, ready for the ledger's call builder.
#[derive(Debug, Clone, PartialEq, Eq)]
pub enum WireArgument {
    Number(u64),
    Text(String),
    Flag(bool),
}

/// Whether a field value can be represented in the wire encoding: wire
/// numbers are unsigned integers, so only a negative value is rejected.
pub open spec fn representable(v: FieldValue) -> bool {
    match v {
        FieldValue::Signed(i) => i >= 0,
        _ => true,
    }
}

/// The wire form of a representable field value.
pub open spec fn wire_of(v: FieldValue) -> WireArgument {
    match v {
        FieldValue::Unsigned(n) => WireArgument::Number(n),
        FieldValue::Signed(i) => WireArgument::Number(i as u64),
        FieldValue::Text(s) => WireArgument::Text(s),
        FieldValue::Flag(b) => WireArgument::Flag(b),
    }
}

/// Converts one field value to its wire form, or reports that the value is
/// not representable. This is the whole per-field serialization step: no
/// partial or coerced value is ever produced.
pub fn to_wire(v: &FieldValue) -> (r: Option<WireArgument>)
    ensures
        representable(*v) ==> r == Some(wire_of(*v)),
        !representable(*v) ==> r is None,
{
    match v {
        FieldValue::Unsigned(n) => Some(WireArgument::Number(*n)),
        FieldValue::Signed(i) => {
            if *i >= 0 {
                Some(WireArgument::Number(*i as u64))
            } else {
                None
            }
        },
        FieldValue::Text(s) => Some(WireArgument::Text(s.clone())),
        FieldValue::Flag(b) => Some(WireArgument::Flag(*b)),
    }
}

} // verus!
