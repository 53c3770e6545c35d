//! Orchestration core for deploying, pausing and deleting cloud workloads:
//! service lifecycle, transactions with rollback and failover, leveled
//! installation of cluster infrastructure, and bounded-retry readiness probing.

pub mod application;
pub mod backup;
pub mod charts;
pub mod encoding;
pub mod errors;
pub mod naming;
pub mod postgresql;
pub mod probe;
pub mod router;
pub mod service;
pub mod text;
pub mod transaction;
pub mod versions;
