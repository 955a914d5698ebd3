//! The transaction execution pipeline. One call runs through four states,
//! `Building -> Signing -> Submitted -> Finalized`, strictly in that order,
//! with a terminal `Aborted` state reachable from any non-terminal state on
//! error. The decisions of the pipeline — which state follows which ledger
//! reply, which address signs, whether a call can be built at all, and what a
//! confirmed result means — are all here, as pure functions; performing the
//! ledger's side of each step (building, signing, submitting) is the
//! caller's.

use vstd::pervasive::unreached;
use vstd::prelude::*;

use crate::effects::{
    extract, lemma_retain_wf, models, retain, CardinalityRule, ExecutionEffects, ExtractedResult,
    effects_wf,
};
use crate::errors::ServiceError;
use crate::ids::{hex_literal_of, lemma_hex_round_trip, parse_hex_literal, EntityId};
use crate::marshal::{fields_to_wire_values, marshal_matches, field_models, ParamShape};
use crate::wire::WireArgument;

verus! {

/// One address the signer can sign for.
#[derive(Debug, Clone, PartialEq, Eq)]
pub struct Address {
    pub bytes: Vec<u8>,
}

/// An unsigned transaction's canonical bytes together with exactly one
/// signature from exactly one sender.
#[derive(Debug, PartialEq, Eq)]
pub struct SignedTransaction {
    pub tx_bytes: Vec<u8>,
    pub signature: Vec<u8>,
}

/// The state of one pipeline run.
#[derive(Debug, PartialEq, Eq)]
pub enum PipelinePhase {
    /// Waiting for the ledger client to build the unsigned transaction.
    Building,
    /// Holding the unsigned transaction's canonical bytes, waiting for the
    /// signer.
    Signing { tx_bytes: Vec<u8> },
    /// The signed transaction is handed over; waiting for local confirmation.
    Submitted { tx: SignedTransaction },
    /// The ledger confirmed execution and reported effects.
    Finalized { effects: ExecutionEffects },
    /// A step failed; the run is over and only the error remains.
    Aborted { error: ServiceError },
}

/// What the ledger client reported when asked to execute the submitted
/// transaction.
#[derive(Debug, PartialEq, Eq)]
pub enum SubmitReply {
    /// Transport failure or ledger-side rejection.
    Refused,
    /// Executed and locally confirmed, with the effects the ledger returned —
    /// possibly none at all, which is abnormal.
    Confirmed { effects: Option<ExecutionEffects> },
}

/// The outcome of the one outside step a pipeline state waits for.
#[derive(Debug, PartialEq, Eq)]
pub enum LedgerEvent {
    /// The unsigned transaction's canonical bytes, if building succeeded.
    Built { tx_bytes: Option<Vec<u8>> },
    /// The signature over those bytes, if signing succeeded.
    Signed { signature: Option<Vec<u8>> },
    /// The execution reply.
    Executed { reply: SubmitReply },
}

/// Which event a phase waits for: building ends with `Built`, signing with
/// `Signed`, submission with `Executed`; terminal phases wait for nothing.
pub open spec fn phase_expects(phase: PipelinePhase, event: LedgerEvent) -> bool {
    match (phase, event) {
        (PipelinePhase::Building, LedgerEvent::Built { .. }) => true,
        (PipelinePhase::Signing { .. }, LedgerEvent::Signed { .. }) => true,
        (PipelinePhase::Submitted { .. }, LedgerEvent::Executed { .. }) => true,
        _ => false,
    }
}

/// The successor of a phase on an event: success moves one state forward,
/// failure aborts with the error of the failing step, and effects-less
/// confirmation is surfaced as `NoEffectsReturned`, never as success.
pub open spec fn step_spec(phase: PipelinePhase, event: LedgerEvent) -> PipelinePhase {
    match (phase, event) {
        (PipelinePhase::Building, LedgerEvent::Built { tx_bytes }) => match tx_bytes {
            Some(tx) => PipelinePhase::Signing { tx_bytes: tx },
            None => PipelinePhase::Aborted { error: ServiceError::BuildFailed },
        },
        (PipelinePhase::Signing { tx_bytes }, LedgerEvent::Signed { signature }) => match signature {
            Some(sig) => PipelinePhase::Submitted {
                tx: SignedTransaction { tx_bytes: tx_bytes, signature: sig },
            },
            None => PipelinePhase::Aborted { error: ServiceError::SigningFailed },
        },
        (PipelinePhase::Submitted { .. }, LedgerEvent::Executed { reply }) => match reply {
            SubmitReply::Refused => PipelinePhase::Aborted {
                error: ServiceError::SubmissionFailed,
            },
            SubmitReply::Confirmed { effects } => match effects {
                Some(e) => PipelinePhase::Finalized { effects: e },
                None => PipelinePhase::Aborted { error: ServiceError::NoEffectsReturned },
            },
        },
        _ => phase,
    }
}

/// How far along a run a phase stands.
pub open spec fn phase_rank(phase: PipelinePhase) -> int {
    match phase {
        PipelinePhase::Building => 0,
        PipelinePhase::Signing { .. } => 1,
        PipelinePhase::Submitted { .. } => 2,
        PipelinePhase::Finalized { .. } => 3,
        PipelinePhase::Aborted { .. } => 4,
    }
}

/// Advances one pipeline run by one step. The order is strict: each step
/// either moves to the immediately following state or aborts; no state is
/// ever skipped and no failed step is ever passed over.
pub fn step(phase: PipelinePhase, event: LedgerEvent) -> (next: PipelinePhase)
    requires
        phase_expects(phase, event),
    ensures
        next == step_spec(phase, event),
        next is Aborted || phase_rank(next) == phase_rank(phase) + 1,
{
    match (phase, event) {
        (PipelinePhase::Building, LedgerEvent::Built { tx_bytes }) => match tx_bytes {
            Some(tx) => PipelinePhase::Signing { tx_bytes: tx },
            None => PipelinePhase::Aborted { error: ServiceError::BuildFailed },
        },
        (PipelinePhase::Signing { tx_bytes }, LedgerEvent::Signed { signature }) => match signature {
            Some(sig) => PipelinePhase::Submitted {
                tx: SignedTransaction { tx_bytes, signature: sig },
            },
            None => PipelinePhase::Aborted { error: ServiceError::SigningFailed },
        },
        (PipelinePhase::Submitted { .. }, LedgerEvent::Executed { reply }) => match reply {
            SubmitReply::Refused => PipelinePhase::Aborted {
                error: ServiceError::SubmissionFailed,
            },
            SubmitReply::Confirmed { effects } => match effects {
                Some(e) => PipelinePhase::Finalized { effects: e },
                None => PipelinePhase::Aborted { error: ServiceError::NoEffectsReturned },
            },
        },
        (p, _) => p,
    }
}

/// Selects the sender: the first address the signer enumerates, or
/// `NoSignerAddress` when the signer holds none.
pub fn choose_sender(addresses: &Vec<Address>) -> (r: Result<&Address, ServiceError>)
    ensures
        match r {
            Ok(a) => addresses@.len() > 0 && *a == addresses@[0],
            Err(e) => addresses@.len() == 0 && e == ServiceError::NoSignerAddress,
        },
{
    if addresses.len() == 0 {
        Err(ServiceError::NoSignerAddress)
    } else {
        Ok(&addresses[0])
    }
}

/// Identifies a target callable unit: the module-owner identifier in its
/// hex-literal form, the module and function names, type arguments and a gas
/// budget.
#[derive(Debug, PartialEq, Eq)]
pub struct CallDescriptor {
    pub package_id_hex: String,
    pub module: String,
    pub function: String,
    pub type_args: Vec<String>,
    pub gas_budget: u64,
}

/// Everything the ledger client needs to build one unsigned function call:
/// the parsed module-owner identifier and the marshalled arguments, in
/// declaration order.
#[derive(Debug, PartialEq, Eq)]
pub struct CallRequest {
    pub package: EntityId,
    pub module: String,
    pub function: String,
    pub type_args: Vec<String>,
    pub arguments: Vec<WireArgument>,
    pub gas_budget: u64,
}

fn clone_strings(v: &Vec<String>) -> (r: Vec<String>)
    ensures
        r@ == v@,
{
    let mut r: Vec<String> = Vec::new();
    let mut i: usize = 0;
    while i < v.len()
        invariant
            0 <= i <= v.len(),
            r@ == v@.take(i as int),
        decreases v.len() - i,
    {
        r.push(v[i].clone());
        proof {
            assert(r@ =~= v@.take(i as int + 1));
        }
        i = i + 1;
    }
    proof {
        assert(r@ =~= v@);
    }
    r
}

/// The building-stage computation: parses the descriptor's module-owner
/// identifier and marshals the parameters. A malformed identifier is
/// `BuildFailed`; a marshalling failure surfaces as such; otherwise the call
/// request carries the parsed identifier, the descriptor's names and budget,
/// and one wire argument per field in declaration order.
pub fn prepare_call(descriptor: &CallDescriptor, shape: &ParamShape) -> (r: Result<
    CallRequest,
    ServiceError,
>)
    ensures
        match r {
            Ok(req) => {
                &&& parse_hex_literal(descriptor.package_id_hex@) == Some(req.package@)
                &&& req.module == descriptor.module
                &&& req.function == descriptor.function
                &&& req.type_args@ == descriptor.type_args@
                &&& req.gas_budget == descriptor.gas_budget
                &&& shape matches ParamShape::NamedFields(fields) && marshal_matches(
                    field_models(fields@),
                    Ok(req.arguments),
                )
            },
            Err(ServiceError::BuildFailed) => parse_hex_literal(descriptor.package_id_hex@)
                is None,
            Err(e) => parse_hex_literal(descriptor.package_id_hex@) is Some
                && fields_to_wire_values_fails_with(shape, e),
        },
{
    let package = match EntityId::from_hex_literal(descriptor.package_id_hex.as_str()) {
        Some(id) => id,
        None => {
            return Err(ServiceError::BuildFailed);
        },
    };
    let arguments = match fields_to_wire_values(shape) {
        Ok(ws) => ws,
        Err(e) => {
            return Err(e);
        },
    };
    Ok(
        CallRequest {
            package,
            module: descriptor.module.clone(),
            function: descriptor.function.clone(),
            type_args: clone_strings(&descriptor.type_args),
            arguments,
            gas_budget: descriptor.gas_budget,
        },
    )
}

/// What a marshalling failure on this shape looks like: the shape is refused
/// outright, or some field's value is not representable and the error names
/// the first such field.
pub open spec fn fields_to_wire_values_fails_with(shape: &ParamShape, e: ServiceError) -> bool {
    match shape {
        ParamShape::NamedFields(fields) => marshal_matches(
            field_models(fields@),
            Err::<Vec<WireArgument>, ServiceError>(e),
        ),
        ParamShape::Variant => e == ServiceError::UnsupportedShape,
    }
}

/// Interprets a publish's confirmed effects: the first immutable created
/// entity is the published module, the first mutable one its managed state,
/// and both come back as hex literals ready for later call descriptors. If
/// either class is empty the publish is incomplete and no identifier is
/// produced.
pub fn publish_outcome(effects: &ExecutionEffects) -> (r: Result<(String, String), ServiceError>)
    requires
        effects_wf(*effects),
    ensures
        ({
            let imm = retain(models(effects.created@), true);
            let mutb = retain(models(effects.created@), false);
            match r {
                Ok(pair) => imm.len() > 0 && mutb.len() > 0 && pair.0@ == hex_literal_of(
                    imm[0].id,
                ) && pair.1@ == hex_literal_of(mutb[0].id),
                Err(e) => (imm.len() == 0 || mutb.len() == 0) && e
                    == ServiceError::PublishIncomplete,
            }
        }),
{
    proof {
        lemma_retain_wf(models(effects.created@), true);
        lemma_retain_wf(models(effects.created@), false);
    }
    match extract(effects, CardinalityRule::FirstOfEachClass) {
        Ok(ExtractedResult::PerClass { immutable, mutable }) => {
            Ok((immutable.to_hex_literal(), mutable.to_hex_literal()))
        },
        _ => Err(ServiceError::PublishIncomplete),
    }
}

/// Interprets a function call's confirmed effects under the expectation that
/// exactly one entity was created: its identifier comes back as a hex
/// literal; any other created count is a `CardinalityMismatch` naming the
/// expected count of one and the actual count, never a guess at which entity
/// to use.
pub fn invoke_outcome(effects: &ExecutionEffects) -> (r: Result<String, ServiceError>)
    requires
        effects_wf(*effects),
    ensures
        match r {
            Ok(hex) => effects.created@.len() == 1 && hex@ == hex_literal_of(
                effects.created@[0].id@,
            ),
            Err(e) => effects.created@.len() != 1 && e == (ServiceError::CardinalityMismatch {
                expected: 1u64,
                actual: effects.created@.len() as u64,
            }),
        },
{
    match extract(effects, CardinalityRule::ExactlyOneCreated) {
        Ok(ExtractedResult::Single { id }) => Ok(id.to_hex_literal()),
        // the exactly-one rule never extracts a per-class pair
        Ok(_) => unreached(),
        Err(e) => Err(e),
    }
}

/// The read-back preparation: parses an entity identifier from its hex
/// form so its state can be fetched; a malformed identifier is a fetch
/// failure before anything is asked of the ledger.
pub fn prepare_fetch(id_hex: &str) -> (r: Result<EntityId, ServiceError>)
    ensures
        match r {
            Ok(id) => parse_hex_literal(id_hex@) == Some(id@),
            Err(e) => parse_hex_literal(id_hex@) is None && e == ServiceError::FetchFailed,
        },
{
    match EntityId::from_hex_literal(id_hex) {
        Some(id) => Ok(id),
        None => Err(ServiceError::FetchFailed),
    }
}

/// The publish-to-invoke round trip: the hex literal a successful publish
/// returns for the published module always parses back to exactly the
/// module's identifier, so it can stand as the module-owner identifier of a
/// later call descriptor.
pub proof fn lemma_published_id_is_callable(effects: ExecutionEffects, pkg_hex: Seq<char>)
    requires
        effects_wf(effects),
        retain(models(effects.created@), true).len() > 0,
        pkg_hex == hex_literal_of(retain(models(effects.created@), true)[0].id),
    ensures
        parse_hex_literal(pkg_hex) == Some(retain(models(effects.created@), true)[0].id),
{
    lemma_retain_wf(models(effects.created@), true);
    lemma_hex_round_trip(retain(models(effects.created@), true)[0].id);
}

} // verus!
