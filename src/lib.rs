//! Proposal codex: the closed catalogue of governance proposals, their
//! validation rules, per-kind parameters and weights, the records kept for
//! admitted proposals, and the root-only executors.
pub mod codex;
pub mod creation;
pub mod executors;
pub mod parameters;
pub mod types;
pub mod validation;
pub mod weights;
