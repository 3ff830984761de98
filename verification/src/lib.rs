//! Health-check probe core for task-processing services.
//!
//! The library holds the decision logic of a scheduled probe: it models a
//! task's outcome state, decides when a completed task is stale, parses the
//! probe's configuration, and classifies each polled record into a metric
//! emission, a silent pass, or a fatal contract violation. The surrounding
//! process (network polling, metric transport, scheduling) lives outside the
//! library and hands it plain values.

pub mod check;
pub mod config;
pub mod metrics;
pub mod staleness;
pub mod task;

pub use metrics::get_address;
