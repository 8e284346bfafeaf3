//! Snapshot exports.
pub mod document;
pub mod edit;
pub mod fault;
pub mod laws;
pub mod metrics;
pub mod protocol;
pub mod race;
pub mod task;
pub mod worker;
