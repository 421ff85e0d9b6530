//! A witness-scoped handoff cache for a multi-pass analysis pipeline.
//!
//! An early pass produces, per analyzed definition, an artifact (a
//! control-flow body together with a derived fact set) whose internal data is
//! valid only while a particular analysis session scope is active. A later,
//! independent pass consumes each artifact exactly once. The cache carries the
//! artifacts across the gap between the two passes: `store` erases the
//! artifact's scope marker and files it under its definition's key in a
//! per-worker slot map, and `retrieve` removes it again and re-attaches a
//! marker for the scope the consumer presents.
//!
//! At both ends the caller must present a [`scope::ValidityScope`] witness.
//! The contracts force the witness presented at retrieval to be the scope
//! under which the artifact was stored, or one nested within it, so an
//! artifact can never be carried into a scope where its data is no longer
//! valid.

pub mod artifact;
pub mod definition_id;
pub mod diagnostics;
pub mod laws;
pub mod scope;
pub mod slot_map;
