//! Atomic creation of a linked group of subgraph metadata records
//! (owning subgraph, version, deployment, assignment) against an entity
//! store that applies batches of guarded writes all at once or not at all.

pub mod batch;
pub mod entity;
pub mod guarantees;
pub mod protocol;
pub mod records;
pub mod store;
