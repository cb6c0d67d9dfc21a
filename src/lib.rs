//! Client-side object/relational mapping over an embedded table-storage engine.
//!
//! The library holds the logic that sits between typed entities and the engine:
//! - `model` and `schema`: the declared columns, indexes and restrictions of an
//!   entity, and the registry that checks them once;
//! - `types`, `value` and `marshal`: the engine's type tags and codes, domain
//!   values, and the marshalling of texts to and from the engine's buffers;
//! - `planner`: the choice of access path for a set of equality restrictions;
//! - `cursor` and `crud`: the select and mutation protocols. Each is a state
//!   machine: the caller performs the action it returns against the engine and
//!   hands back the engine's answer;
//! - `entity`: how an application type describes its table, with an example;
//! - `error`: the errors of the layer.
use vstd::prelude::*;

pub mod types;
pub mod value;
pub mod model;
pub mod planner;
pub mod error;
pub mod marshal;
pub mod schema;
pub mod cursor;
pub mod crud;
pub mod entity;

verus! {

} // verus!
