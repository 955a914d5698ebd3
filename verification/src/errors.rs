//! The error taxonomy of the call service. Every failure of the pipeline is
//! terminal for the current call and surfaces one of these kinds; no error is
//! downgraded to a default value.

use vstd::prelude::*;

verus! {

/// One error kind per failure path of the marshaller, the pipeline and the
/// effect interpreter.
#[derive(Debug, Clone, PartialEq, Eq)]
pub enum ServiceError {
    /// The marshaller was asked to convert a parameter shape without named
    /// fields (an enumeration-like shape).
    UnsupportedShape,
    /// One field's value cannot be represented in the wire encoding; the name
    /// of the first such field, in declaration order, is carried along.
    FieldSerializationFailed { field_name: String },
    /// The call descriptor is malformed (unparseable module-owner identifier)
    /// or the ledger client rejected the argument shapes.
    BuildFailed,
    /// The signer enumerates no address to act as sender.
    NoSignerAddress,
    /// The signer failed to produce a signature over the transaction bytes.
    SigningFailed,
    /// Transport failure or ledger-side rejection of the signed transaction.
    SubmissionFailed,
    /// The transaction executed but the ledger reported no effects at all.
    NoEffectsReturned,
    /// A publish did not create both an immutable entity (the module) and a
    /// mutable one (its managed state).
    PublishIncomplete,
    /// The created-entity count does not meet the caller's cardinality rule.
    CardinalityMismatch { expected: u64, actual: u64 },
    /// An entity-state read-back could not be issued or interpreted.
    FetchFailed,
}

} // verus!
