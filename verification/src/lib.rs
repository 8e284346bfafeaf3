//! The decisions of a snapshot-export worker and of allocator page reclamation.
//!
//! Everything here is a function of plain values: what the outside world has
//! answered goes in, and what to ask of it next comes out. Databases, object
//! storage, timers, locks and metric registries are driven by the caller.
pub mod allocator;
pub mod exports;
pub mod laws;
pub mod metrics;
pub mod time;
