//! The parameter structures of the callable operations. Each one lists its
//! own fields, in declaration order, for the generic marshaller: the wire
//! argument at each position is always the field declared at that position.

use vstd::prelude::*;

use crate::errors::ServiceError;
use crate::marshal::{
    field_models, fields_to_wire_values, DoExactSuiJsonValue, Field, FieldModel, ParamShape,
};
use crate::wire::{FieldValue, WireArgument};

verus! {

/// The arguments of the scene-creation call, in call-argument order.
#[derive(Debug, Clone, Copy, PartialEq, Eq, Structural)]
pub struct CreateSceneParameter {
    pub power: u64,
    pub radius: u64,
    pub equilibrium: u64,
    pub frames: u64,
    pub frame_interval: u64,
    pub next_frame_block: u64,
    pub max_participant: u64,
    pub min_stake_amount: u64,
}

/// The arguments of the token-mint call, in call-argument order.
#[derive(Debug, Clone, PartialEq, Eq)]
pub struct CoinMintParameter {
    pub object_id: String,
    pub amount: u64,
    pub recipient: String,
}

/// The arguments of the scene-entry call, in call-argument order.
#[derive(Debug, Clone, PartialEq, Eq)]
pub struct EnterParameter {
    pub scene_object_id: String,
    pub stake_xcoin_id: String,
    pub participant: String,
}

impl DoExactSuiJsonValue for CreateSceneParameter {
    open spec fn wire_shape(&self) -> Seq<FieldModel> {
        seq![
            FieldModel { name: "power"@, value: FieldValue::Unsigned(self.power) },
            FieldModel { name: "radius"@, value: FieldValue::Unsigned(self.radius) },
            FieldModel { name: "equilibrium"@, value: FieldValue::Unsigned(self.equilibrium) },
            FieldModel { name: "frames"@, value: FieldValue::Unsigned(self.frames) },
            FieldModel { name: "frame_interval"@, value: FieldValue::Unsigned(self.frame_interval) },
            FieldModel {
                name: "next_frame_block"@,
                value: FieldValue::Unsigned(self.next_frame_block),
            },
            FieldModel {
                name: "max_participant"@,
                value: FieldValue::Unsigned(self.max_participant),
            },
            FieldModel {
                name: "min_stake_amount"@,
                value: FieldValue::Unsigned(self.min_stake_amount),
            },
        ]
    }

    fn fields_to_sui_values(&self) -> (r: Result<Vec<WireArgument>, ServiceError>) {
        let mut fields: Vec<Field> = Vec::new();
        fields.push(Field { name: String::from_str("power"), value: FieldValue::Unsigned(self.power) });
        fields.push(Field { name: String::from_str("radius"), value: FieldValue::Unsigned(self.radius) });
        fields.push(Field {
            name: String::from_str("equilibrium"),
            value: FieldValue::Unsigned(self.equilibrium),
        });
        fields.push(Field { name: String::from_str("frames"), value: FieldValue::Unsigned(self.frames) });
        fields.push(Field {
            name: String::from_str("frame_interval"),
            value: FieldValue::Unsigned(self.frame_interval),
        });
        fields.push(Field {
            name: String::from_str("next_frame_block"),
            value: FieldValue::Unsigned(self.next_frame_block),
        });
        fields.push(Field {
            name: String::from_str("max_participant"),
            value: FieldValue::Unsigned(self.max_participant),
        });
        fields.push(Field {
            name: String::from_str("min_stake_amount"),
            value: FieldValue::Unsigned(self.min_stake_amount),
        });
        proof {
            assert(field_models(fields@) =~= self.wire_shape());
        }
        fields_to_wire_values(&ParamShape::NamedFields(fields))
    }
}

impl DoExactSuiJsonValue for CoinMintParameter {
    open spec fn wire_shape(&self) -> Seq<FieldModel> {
        seq![
            FieldModel { name: "object_id"@, value: FieldValue::Text(self.object_id) },
            FieldModel { name: "amount"@, value: FieldValue::Unsigned(self.amount) },
            FieldModel { name: "recipient"@, value: FieldValue::Text(self.recipient) },
        ]
    }

    fn fields_to_sui_values(&self) -> (r: Result<Vec<WireArgument>, ServiceError>) {
        let mut fields: Vec<Field> = Vec::new();
        fields.push(Field {
            name: String::from_str("object_id"),
            value: FieldValue::Text(self.object_id.clone()),
        });
        fields.push(Field { name: String::from_str("amount"), value: FieldValue::Unsigned(self.amount) });
        fields.push(Field {
            name: String::from_str("recipient"),
            value: FieldValue::Text(self.recipient.clone()),
        });
        proof {
            assert(field_models(fields@) =~= self.wire_shape());
        }
        fields_to_wire_values(&ParamShape::NamedFields(fields))
    }
}

impl DoExactSuiJsonValue for EnterParameter {
    open spec fn wire_shape(&self) -> Seq<FieldModel> {
        seq![
            FieldModel { name: "scene_object_id"@, value: FieldValue::Text(self.scene_object_id) },
            FieldModel { name: "stake_xcoin_id"@, value: FieldValue::Text(self.stake_xcoin_id) },
            FieldModel { name: "participant"@, value: FieldValue::Text(self.participant) },
        ]
    }

    fn fields_to_sui_values(&self) -> (r: Result<Vec<WireArgument>, ServiceError>) {
        let mut fields: Vec<Field> = Vec::new();
        fields.push(Field {
            name: String::from_str("scene_object_id"),
            value: FieldValue::Text(self.scene_object_id.clone()),
        });
        fields.push(Field {
            name: String::from_str("stake_xcoin_id"),
            value: FieldValue::Text(self.stake_xcoin_id.clone()),
        });
        fields.push(Field {
            name: String::from_str("participant"),
            value: FieldValue::Text(self.participant.clone()),
        });
        proof {
            assert(field_models(fields@) =~= self.wire_shape());
        }
        fields_to_wire_values(&ParamShape::NamedFields(fields))
    }
}

/// A ready-made scene parameter set for the demonstration flow.
pub fn mock_scene() -> (p: CreateSceneParameter)
    ensures
        p == (CreateSceneParameter {
            power: 100000,
            radius: 2000,
            equilibrium: 90,
            frames: 1,
            frame_interval: 1,
            next_frame_block: 10,
            max_participant: 10,
            min_stake_amount: 0,
        }),
{
    CreateSceneParameter {
        power: 100000,
        radius: 2000,
        equilibrium: 90,
        frames: 1,
        frame_interval: 1,
        next_frame_block: 10,
        max_participant: 10,

        min_stake_amount: 0,
    }
}

} // verus!
