//! Verified core of a pet-monitoring pipeline: video-analysis job lifecycle,
//! per-day digest aggregation, and the alert escalation / intervention engine.
//!
//! All state transitions and decision rules live here with proved contracts;
//! the surrounding runtime (queues, database, HTTP, notification transports)
//! drives these functions from outside.

pub mod alert;
pub mod api;
pub mod dates;
pub mod digest;
pub mod escalation;
pub mod ids;
pub mod notify;
pub mod quick_actions;
pub mod text;
pub mod video;
