//! Execution effects and their interpretation. The ledger reports, per
//! confirmed transaction, the entities it created, mutated and deleted, each
//! with an ownership mode. The interpreter partitions the created entities
//! into immutable and mutable subsets — preserving their original order — and
//! applies the caller's cardinality rule: either the expectation is fully met
//! and identifiers come back, or an error comes back and no identifier does.

use vstd::prelude::*;

use crate::errors::ServiceError;
use crate::ids::{wf_id_digits, EntityId};

verus! {

/// The ownership mode of an on-chain entity at creation time.
#[derive(Debug, Clone, Copy, PartialEq, Eq, Structural)]
pub enum OwnershipMode {
    /// Never mutated again (a published module).
    Immutable,
    /// Mutable by its single owner.
    SingleOwner,
    /// Mutable by multiple parties under ledger-enforced rules.
    Shared,
}

/// One entity the transaction touched: its identifier and ownership mode.
#[derive(Debug, PartialEq, Eq)]
pub struct EntityReference {
    pub id: EntityId,
    pub owner: OwnershipMode,
}

/// The confirmed outcome of one transaction.
#[derive(Debug, PartialEq, Eq)]
pub struct ExecutionEffects {
    pub created: Vec<EntityReference>,
    pub mutated: Vec<EntityReference>,
    pub deleted: Vec<EntityReference>,
}

/// The caller's expectation on the created entities of one call.
#[derive(Debug, Clone, Copy, PartialEq, Eq, Structural)]
pub enum CardinalityRule {
    /// Exactly one entity must have been created.
    ExactlyOneCreated,
    /// At least one immutable and at least one mutable entity must have been
    /// created; the first of each class is the meaningful one.
    FirstOfEachClass,
}

/// The identifiers extracted when a cardinality rule is met.
#[derive(Debug, PartialEq, Eq)]
pub enum ExtractedResult {
    /// The single created entity.
    Single { id: EntityId },
    /// The first immutable and the first mutable created entity.
    PerClass { immutable: EntityId, mutable: EntityId },
}

/// The mathematical form of one entity reference: digits and mode.
pub struct RefModel {
    pub id: Seq<u8>,
    pub owner: OwnershipMode,
}

pub open spec fn ref_model(e: EntityReference) -> RefModel {
    RefModel { id: e.id@, owner: e.owner }
}

pub open spec fn models(s: Seq<EntityReference>) -> Seq<RefModel> {
    Seq::new(s.len(), |i: int| ref_model(s[i]))
}

pub open spec fn is_immutable(m: OwnershipMode) -> bool {
    m is Immutable
}

/// The subsequence of `s` whose entries are immutable (when `immutable` is
/// set) or mutable (when it is not), in their original order.
pub open spec fn retain(s: Seq<RefModel>, immutable: bool) -> Seq<RefModel>
    decreases s.len(),
{
    if s.len() == 0 {
        Seq::empty()
    } else if is_immutable(s.last().owner) == immutable {
        retain(s.drop_last(), immutable).push(s.last())
    } else {
        retain(s.drop_last(), immutable)
    }
}

/// Every created entity carries a well-formed identifier.
pub open spec fn effects_wf(e: ExecutionEffects) -> bool {
    forall|i: int| 0 <= i < e.created@.len() ==> wf_id_digits(#[trigger] e.created@[i].id@)
}

/// Retaining a class keeps every identifier well-formed.
pub proof fn lemma_retain_wf(s: Seq<RefModel>, immutable: bool)
    requires
        forall|i: int| 0 <= i < s.len() ==> wf_id_digits(#[trigger] s[i].id),
    ensures
        forall|i: int|
            0 <= i < retain(s, immutable).len() ==> wf_id_digits(
                #[trigger] retain(s, immutable)[i].id,
            ),
    decreases s.len(),
{
    if s.len() > 0 {
        assert(forall|i: int|
            0 <= i < s.drop_last().len() ==> wf_id_digits(#[trigger] s.drop_last()[i].id));
        lemma_retain_wf(s.drop_last(), immutable);
    }
}

/// Partitions the created entities into the immutable and the mutable
/// subset, each in its original order.
#[verifier::loop_isolation(false)]
pub fn partition_created(effects: &ExecutionEffects) -> (r: (Vec<EntityReference>, Vec<
    EntityReference,
>))
    ensures
        models(r.0@) == retain(models(effects.created@), true),
        models(r.1@) == retain(models(effects.created@), false),
{
    let mut immutable: Vec<EntityReference> = Vec::new();
    let mut mutable: Vec<EntityReference> = Vec::new();
    let mut i: usize = 0;
    while i < effects.created.len()
        invariant
            0 <= i <= effects.created.len(),
            models(immutable@) == retain(models(effects.created@.take(i as int)), true),
            models(mutable@) == retain(models(effects.created@.take(i as int)), false),
        decreases effects.created.len() - i,
    {
        let e = &effects.created[i];
        let copy = EntityReference { id: e.id.duplicate(), owner: e.owner };
        proof {
            assert(ref_model(copy) == ref_model(effects.created@[i as int]));
            assert(models(effects.created@.take(i as int + 1)).drop_last() =~= models(
                effects.created@.take(i as int),
            ));
            assert(models(effects.created@.take(i as int + 1)).last() == ref_model(
                effects.created@[i as int],
            ));
        }
        if matches!(copy.owner, OwnershipMode::Immutable) {
            immutable.push(copy);
            proof {
                assert(models(immutable@) =~= retain(
                    models(effects.created@.take(i as int + 1)),
                    true,
                ));
                assert(models(mutable@) =~= retain(
                    models(effects.created@.take(i as int + 1)),
                    false,
                ));
            }
        } else {
            mutable.push(copy);
            proof {
                assert(models(immutable@) =~= retain(
                    models(effects.created@.take(i as int + 1)),
                    true,
                ));
                assert(models(mutable@) =~= retain(
                    models(effects.created@.take(i as int + 1)),
                    false,
                ));
            }
        }
        i = i + 1;
    }
    proof {
        assert(effects.created@.take(effects.created@.len() as int) =~= effects.created@);
    }
    (immutable, mutable)
}

/// Applies a cardinality rule to confirmed effects. Either the rule is fully
/// met and the extracted identifiers come back, or a `CardinalityMismatch`
/// names the expected and the actual count and no identifier is produced.
pub fn extract(effects: &ExecutionEffects, rule: CardinalityRule) -> (r: Result<
    ExtractedResult,
    ServiceError,
>)
    ensures
        match rule {
            CardinalityRule::ExactlyOneCreated => match r {
                Ok(ExtractedResult::Single { id }) => effects.created@.len() == 1 && id@
                    == effects.created@[0].id@,
                Err(e) => effects.created@.len() != 1 && e == (ServiceError::CardinalityMismatch {
                    expected: 1u64,
                    actual: effects.created@.len() as u64,
                }),
                _ => false,
            },
            CardinalityRule::FirstOfEachClass => {
                let imm = retain(models(effects.created@), true);
                let mutb = retain(models(effects.created@), false);
                match r {
                    Ok(ExtractedResult::PerClass { immutable, mutable }) => imm.len() > 0
                        && mutb.len() > 0 && immutable@ == imm[0].id && mutable@ == mutb[0].id,
                    Err(e) => (imm.len() == 0 || mutb.len() == 0) && e == (
                    ServiceError::CardinalityMismatch { expected: 1u64, actual: 0u64 }),
                    _ => false,
                }
            },
        },
{
    match rule {
        CardinalityRule::ExactlyOneCreated => {
            if effects.created.len() == 1 {
                Ok(ExtractedResult::Single { id: effects.created[0].id.duplicate() })
            } else {
                Err(ServiceError::CardinalityMismatch {
                    expected: 1u64,
                    actual: effects.created.len() as u64,
                })
            }
        },
        CardinalityRule::FirstOfEachClass => {
            let (immutable, mutable) = partition_created(effects);
            if immutable.len() == 0 || mutable.len() == 0 {
                proof {
                    assert(models(immutable@).len() == immutable@.len());
                    assert(models(mutable@).len() == mutable@.len());
                }
                Err(ServiceError::CardinalityMismatch { expected: 1u64, actual: 0u64 })
            } else {
                proof {
                    assert(ref_model(immutable@[0]) == models(immutable@)[0]);
                    assert(ref_model(mutable@[0]) == models(mutable@)[0]);
                }
                Ok(ExtractedResult::PerClass {
                    immutable: immutable[0].id.duplicate(),
                    mutable: mutable[0].id.duplicate(),
                })
            }
        },
    }
}

} // verus!
