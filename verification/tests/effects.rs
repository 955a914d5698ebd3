use expansion_service::effects::{
    extract, partition_created, CardinalityRule, EntityReference, ExecutionEffects,
    ExtractedResult, OwnershipMode,
};
use expansion_service::errors::ServiceError;
use expansion_service::ids::EntityId;

fn entity(hex: &str, owner: OwnershipMode) -> EntityReference {
    EntityReference { id: EntityId::from_hex_literal(hex).unwrap(), owner }
}

fn effects_with_created(created: Vec<EntityReference>) -> ExecutionEffects {
    ExecutionEffects { created, mutated: Vec::new(), deleted: Vec::new() }
}

#[test]
fn zero_created_violates_exactly_one() {
    let effects = effects_with_created(Vec::new());
    let res = extract(&effects, CardinalityRule::ExactlyOneCreated);
    assert_eq!(
        res,
        Err(ServiceError::CardinalityMismatch { expected: 1, actual: 0 })
    );
}

#[test]
fn exactly_one_created_is_extracted() {
    let effects = effects_with_created(vec![entity("0x7", OwnershipMode::SingleOwner)]);
    let res = extract(&effects, CardinalityRule::ExactlyOneCreated).unwrap();
    match res {
        ExtractedResult::Single { id } => assert_eq!(id.to_hex_literal(), String::from("0x7")),
        _ => panic!("expected the single created entity"),
    }
}

#[test]
fn two_created_violate_exactly_one() {
    let effects = effects_with_created(vec![
        entity("0x1", OwnershipMode::SingleOwner),
        entity("0x2", OwnershipMode::SingleOwner),
    ]);
    let res = extract(&effects, CardinalityRule::ExactlyOneCreated);
    assert_eq!(
        res,
        Err(ServiceError::CardinalityMismatch { expected: 1, actual: 2 })
    );
}

#[test]
fn partition_preserves_order_within_each_class() {
    let effects = effects_with_created(vec![
        entity("0x1", OwnershipMode::SingleOwner),
        entity("0x2", OwnershipMode::Immutable),
        entity("0x3", OwnershipMode::Shared),
        entity("0x4", OwnershipMode::Immutable),
    ]);
    let (immutable, mutable) = partition_created(&effects);
    let imm_hex: Vec<String> = immutable.iter().map(|e| e.id.to_hex_literal()).collect();
    let mut_hex: Vec<String> = mutable.iter().map(|e| e.id.to_hex_literal()).collect();
    assert_eq!(imm_hex, vec![String::from("0x2"), String::from("0x4")]);
    assert_eq!(mut_hex, vec![String::from("0x1"), String::from("0x3")]);
}

#[test]
fn first_of_each_class_takes_the_firsts() {
    let effects = effects_with_created(vec![
        entity("0x5", OwnershipMode::Shared),
        entity("0x6", OwnershipMode::Immutable),
        entity("0x7", OwnershipMode::Immutable),
        entity("0x8", OwnershipMode::SingleOwner),
    ]);
    let res = extract(&effects, CardinalityRule::FirstOfEachClass).unwrap();
    match res {
        ExtractedResult::PerClass { immutable, mutable } => {
            assert_eq!(immutable.to_hex_literal(), String::from("0x6"));
            assert_eq!(mutable.to_hex_literal(), String::from("0x5"));
        },
        _ => panic!("expected one identifier per class"),
    }
}

#[test]
fn missing_class_fails_first_of_each() {
    let only_immutable = effects_with_created(vec![entity("0x6", OwnershipMode::Immutable)]);
    let res = extract(&only_immutable, CardinalityRule::FirstOfEachClass);
    assert_eq!(
        res,
        Err(ServiceError::CardinalityMismatch { expected: 1, actual: 0 })
    );
}
