//! The argument marshaller: converts a parameter structure's fields, in
//! declaration order, into an ordered sequence of wire arguments. The output
//! order is load-bearing — the target module function binds arguments
//! positionally — so the contract pins both the length and every position.
//! A field whose value is not representable aborts the whole conversion with
//! the name of the first offending field; no partial argument list escapes.

use vstd::prelude::*;

use crate::errors::ServiceError;
use crate::wire::{representable, to_wire, wire_of, FieldValue, WireArgument};

verus! {

/// One declared field of a parameter structure: its name and its value.
#[derive(Debug, Clone, PartialEq, Eq)]
pub struct Field {
    pub name: String,
    pub value: FieldValue,
}

/// The mathematical form of one field: the name as a character sequence.
pub struct FieldModel {
    pub name: Seq<char>,
    pub value: FieldValue,
}

/// The shape of one parameter structure as handed to the marshaller: either
/// a structure with named fields in declaration order, or some other shape
/// (an enumeration-like type), which the marshaller refuses.
#[derive(Debug, Clone, PartialEq, Eq)]
pub enum ParamShape {
    NamedFields(Vec<Field>),
    Variant,
}

pub open spec fn field_model(f: Field) -> FieldModel {
    FieldModel { name: f.name@, value: f.value }
}

pub open spec fn field_models(s: Seq<Field>) -> Seq<FieldModel> {
    Seq::new(s.len(), |i: int| field_model(s[i]))
}

/// Every field's value can be represented on the wire.
pub open spec fn all_representable(s: Seq<FieldModel>) -> bool {
    forall|i: int| 0 <= i < s.len() ==> representable(#[trigger] s[i].value)
}

/// The wire arguments of a fully representable field sequence, position by
/// position: one argument per field, in declaration order.
pub open spec fn wires_of(s: Seq<FieldModel>) -> Seq<WireArgument> {
    Seq::new(s.len(), |i: int| wire_of(s[i].value))
}

/// The index of the first field whose value is not representable (the
/// sequence length when every field is representable).
pub open spec fn first_failing(s: Seq<FieldModel>) -> int
    decreases s.len(),
{
    if s.len() == 0 {
        0
    } else if !representable(s[0].value) {
        0
    } else {
        1 + first_failing(s.skip(1))
    }
}

proof fn lemma_first_failing_at(s: Seq<FieldModel>, i: int)
    requires
        0 <= i < s.len(),
        !representable(s[i].value),
        forall|j: int| 0 <= j < i ==> representable(#[trigger] s[j].value),
    ensures
        first_failing(s) == i,
    decreases i,
{
    if i > 0 {
        let t = s.skip(1);
        assert(forall|j: int| 0 <= j < i - 1 ==> #[trigger] t[j] == s[j + 1]);
        lemma_first_failing_at(t, i - 1);
    }
}

/// What marshalling owes for a given field list: on success, exactly one wire
/// argument per field in declaration order; on failure, the error names the
/// first field whose value is not representable, and no argument list at all.
pub open spec fn marshal_matches(
    fields: Seq<FieldModel>,
    r: Result<Vec<WireArgument>, ServiceError>,
) -> bool {
    match r {
        Ok(ws) => all_representable(fields) && ws@ == wires_of(fields),
        Err(ServiceError::FieldSerializationFailed { field_name }) => {
            &&& !all_representable(fields)
            &&& 0 <= first_failing(fields) < fields.len()
            &&& field_name@ == fields[first_failing(fields)].name
        },
        Err(_) => false,
    }
}

/// Marshals one parameter shape into wire arguments. A shape without named
/// fields is refused outright; for a named-field shape the result is governed
/// by `marshal_matches`: all fields in declaration order, or the first
/// serialization failure and nothing else.
#[verifier::loop_isolation(false)]
pub fn fields_to_wire_values(shape: &ParamShape) -> (r: Result<Vec<WireArgument>, ServiceError>)
    ensures
        match shape {
            ParamShape::NamedFields(fields) => marshal_matches(field_models(fields@), r),
            ParamShape::Variant => r == Err::<Vec<WireArgument>, ServiceError>(
                ServiceError::UnsupportedShape,
            ),
        },
{
    match shape {
        ParamShape::Variant => Err(ServiceError::UnsupportedShape),
        ParamShape::NamedFields(fields) => {
            let ghost m = field_models(fields@);
            let mut out: Vec<WireArgument> = Vec::new();
            let mut i: usize = 0;
            while i < fields.len()
                invariant
                    0 <= i <= fields.len(),
                    m == field_models(fields@),
                    forall|j: int| 0 <= j < i ==> representable(#[trigger] m[j].value),
                    out@ == wires_of(m.take(i as int)),
                decreases fields.len() - i,
            {
                let field = &fields[i];
                match to_wire(&field.value) {
                    Some(w) => {
                        out.push(w);
                        proof {
                            assert(out@ =~= wires_of(m.take(i as int + 1)));
                        }
                    },
                    None => {
                        proof {
                            assert(!representable(m[i as int].value));
                            lemma_first_failing_at(m, i as int);
                            assert(!all_representable(m));
                        }
                        return Err(ServiceError::FieldSerializationFailed {
                            field_name: field.name.clone(),
                        });
                    },
                }
                i = i + 1;
            }
            proof {
                assert(out@ =~= wires_of(m));
            }
            Ok(out)
        },
    }
}

/// Order preservation: for every fully representable field list the wire
/// sequence has exactly one argument per field, and the argument at each
/// position is the wire form of the field declared at that position.
pub proof fn lemma_marshal_preserves_order(fields: Seq<FieldModel>)
    requires
        all_representable(fields),
    ensures
        wires_of(fields).len() == fields.len(),
        forall|i: int|
            0 <= i < fields.len() ==> #[trigger] wires_of(fields)[i] == wire_of(fields[i].value),
{
}

/// Failure totality: whenever some field's value is not representable, any
/// result that meets the marshalling contract is a `FieldSerializationFailed`
/// error carrying the name of the first such field — never a partial argument
/// sequence.
pub proof fn lemma_unrepresentable_field_fails(
    fields: Seq<FieldModel>,
    r: Result<Vec<WireArgument>, ServiceError>,
)
    requires
        !all_representable(fields),
        marshal_matches(fields, r),
    ensures
        r matches Err(ServiceError::FieldSerializationFailed { field_name }) && field_name@
            == fields[first_failing(fields)].name,
{
}

/// Any parameter structure that can list its own fields, in declaration
/// order, as one field-model sequence. Implementations hand that list to the
/// generic marshaller, so the argument list can never drift out of sync with
/// the structure's declaration.
pub trait DoExactSuiJsonValue {
    /// The fields of this structure, in declaration order.
    spec fn wire_shape(&self) -> Seq<FieldModel>;

    /// Converts this structure's fields into wire arguments, governed by the
    /// marshalling contract over `wire_shape`.
    fn fields_to_sui_values(&self) -> (r: Result<Vec<WireArgument>, ServiceError>)
        ensures
            marshal_matches(self.wire_shape(), r),
    ;
}

} // verus!
