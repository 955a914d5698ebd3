//! Client-side core of a ledger call service: marshalling of typed parameter
//! structures into ordered wire arguments, the build/sign/submit pipeline as a
//! state machine, and interpretation of execution effects into created-entity
//! identifiers partitioned by ownership mode.

pub mod errors;
pub mod wire;
pub mod marshal;
pub mod primitives;
pub mod ids;
pub mod effects;
pub mod pipeline;
