use expansion_service::effects::{EntityReference, ExecutionEffects, OwnershipMode};
use expansion_service::errors::ServiceError;
use expansion_service::ids::EntityId;
use expansion_service::marshal::{Field, ParamShape};
use expansion_service::pipeline::{
    choose_sender, invoke_outcome, prepare_call, prepare_fetch, publish_outcome, step, Address,
    CallDescriptor, LedgerEvent, PipelinePhase, SubmitReply,
};
use expansion_service::wire::{FieldValue, WireArgument};

fn entity(hex: &str, owner: OwnershipMode) -> EntityReference {
    EntityReference { id: EntityId::from_hex_literal(hex).unwrap(), owner }
}

fn effects_with_created(created: Vec<EntityReference>) -> ExecutionEffects {
    ExecutionEffects { created, mutated: Vec::new(), deleted: Vec::new() }
}

#[test]
fn build_success_moves_to_signing() {
    let next = step(
        PipelinePhase::Building,
        LedgerEvent::Built { tx_bytes: Some(vec![1, 2, 3]) },
    );
    assert_eq!(next, PipelinePhase::Signing { tx_bytes: vec![1, 2, 3] });
}

#[test]
fn build_failure_aborts() {
    let next = step(PipelinePhase::Building, LedgerEvent::Built { tx_bytes: None });
    assert_eq!(next, PipelinePhase::Aborted { error: ServiceError::BuildFailed });
}

#[test]
fn signing_success_submits_the_signed_transaction() {
    let next = step(
        PipelinePhase::Signing { tx_bytes: vec![1, 2] },
        LedgerEvent::Signed { signature: Some(vec![9]) },
    );
    match next {
        PipelinePhase::Submitted { tx } => {
            assert_eq!(tx.tx_bytes, vec![1, 2]);
            assert_eq!(tx.signature, vec![9]);
        },
        _ => panic!("expected the submitted phase"),
    }
}

#[test]
fn signing_failure_aborts() {
    let next = step(
        PipelinePhase::Signing { tx_bytes: vec![1, 2] },
        LedgerEvent::Signed { signature: None },
    );
    assert_eq!(next, PipelinePhase::Aborted { error: ServiceError::SigningFailed });
}

fn submitted() -> PipelinePhase {
    step(
        PipelinePhase::Signing { tx_bytes: vec![1] },
        LedgerEvent::Signed { signature: Some(vec![2]) },
    )
}

#[test]
fn refused_submission_aborts() {
    let next = step(submitted(), LedgerEvent::Executed { reply: SubmitReply::Refused });
    assert_eq!(next, PipelinePhase::Aborted { error: ServiceError::SubmissionFailed });
}

#[test]
fn confirmation_without_effects_is_abnormal() {
    let next = step(
        submitted(),
        LedgerEvent::Executed { reply: SubmitReply::Confirmed { effects: None } },
    );
    assert_eq!(next, PipelinePhase::Aborted { error: ServiceError::NoEffectsReturned });
}

#[test]
fn confirmation_with_effects_finalizes() {
    let reported = effects_with_created(vec![entity("0x9", OwnershipMode::SingleOwner)]);
    let next = step(
        submitted(),
        LedgerEvent::Executed { reply: SubmitReply::Confirmed { effects: Some(reported) } },
    );
    match next {
        PipelinePhase::Finalized { effects } => {
            assert_eq!(effects.created.len(), 1);
        },
        _ => panic!("expected the finalized phase"),
    }
}

#[test]
fn sender_is_the_first_enumerated_address() {
    let addresses = vec![Address { bytes: vec![1, 1] }, Address { bytes: vec![2, 2] }];
    let sender = choose_sender(&addresses).unwrap();
    assert_eq!(*sender, Address { bytes: vec![1, 1] });
}

#[test]
fn no_address_means_no_sender() {
    let addresses: Vec<Address> = Vec::new();
    assert_eq!(choose_sender(&addresses), Err(ServiceError::NoSignerAddress));
}

fn scene_descriptor(package_id_hex: &str) -> CallDescriptor {
    CallDescriptor {
        package_id_hex: String::from(package_id_hex),
        module: String::from("scenes"),
        function: String::from("create_scene"),
        type_args: Vec::new(),
        gas_budget: 300000,
    }
}

fn small_shape() -> ParamShape {
    ParamShape::NamedFields(vec![
        Field { name: String::from("power"), value: FieldValue::Unsigned(4) },
    ])
}

#[test]
fn well_formed_descriptor_builds_a_call_request() {
    let req = prepare_call(&scene_descriptor("0x2"), &small_shape()).unwrap();
    assert_eq!(req.package.to_hex_literal(), String::from("0x2"));
    assert_eq!(req.module, String::from("scenes"));
    assert_eq!(req.function, String::from("create_scene"));
    assert!(req.type_args.is_empty());
    assert_eq!(req.arguments, vec![WireArgument::Number(4)]);
    assert_eq!(req.gas_budget, 300000);
}

#[test]
fn malformed_package_id_cannot_be_built() {
    let res = prepare_call(&scene_descriptor("2"), &small_shape());
    assert_eq!(res, Err(ServiceError::BuildFailed));
}

#[test]
fn marshal_failure_surfaces_from_prepare_call() {
    let shape = ParamShape::NamedFields(vec![
        Field { name: String::from("delta"), value: FieldValue::Signed(-3) },
    ]);
    let res = prepare_call(&scene_descriptor("0x2"), &shape);
    assert_eq!(
        res,
        Err(ServiceError::FieldSerializationFailed { field_name: String::from("delta") })
    );
}

#[test]
fn publish_returns_first_immutable_and_first_mutable() {
    let effects = effects_with_created(vec![
        entity("0xe1", OwnershipMode::Immutable),
        entity("0xe2", OwnershipMode::Shared),
    ]);
    let (package_hex, state_hex) = publish_outcome(&effects).unwrap();
    assert_eq!(package_hex, String::from("0xe1"));
    assert_eq!(state_hex, String::from("0xe2"));
}

#[test]
fn publish_without_immutable_entity_is_incomplete() {
    let effects = effects_with_created(vec![entity("0xe2", OwnershipMode::Shared)]);
    assert_eq!(publish_outcome(&effects), Err(ServiceError::PublishIncomplete));
}

#[test]
fn publish_without_mutable_entity_is_incomplete() {
    let effects = effects_with_created(vec![entity("0xe1", OwnershipMode::Immutable)]);
    assert_eq!(publish_outcome(&effects), Err(ServiceError::PublishIncomplete));
}

#[test]
fn published_package_id_feeds_the_next_call() {
    let publish_effects = effects_with_created(vec![
        entity("0x00fe", OwnershipMode::Immutable),
        entity("0xe2", OwnershipMode::Shared),
    ]);
    let (package_hex, _state_hex) = publish_outcome(&publish_effects).unwrap();

    let req = prepare_call(&scene_descriptor(&package_hex), &small_shape()).unwrap();
    assert_eq!(req.package.to_hex_literal(), String::from("0xfe"));
}

#[test]
fn invoke_with_one_created_entity_succeeds() {
    let effects = effects_with_created(vec![entity("0xabc", OwnershipMode::Shared)]);
    assert_eq!(invoke_outcome(&effects), Ok(String::from("0xabc")));
}

#[test]
fn invoke_with_two_created_entities_is_a_mismatch() {
    let effects = effects_with_created(vec![
        entity("0x1", OwnershipMode::Shared),
        entity("0x2", OwnershipMode::Shared),
    ]);
    assert_eq!(
        invoke_outcome(&effects),
        Err(ServiceError::CardinalityMismatch { expected: 1, actual: 2 })
    );
}

#[test]
fn fetch_needs_a_parseable_identifier() {
    assert_eq!(prepare_fetch("xyz"), Err(ServiceError::FetchFailed));
    let id = prepare_fetch("0x77").unwrap();
    assert_eq!(id.to_hex_literal(), String::from("0x77"));
}
