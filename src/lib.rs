//! Concurrency core of a URL health checker: the strided partition of the
//! targets over a fixed worker pool, the bounded retry state machine that
//! resolves one target, and the command-line configuration.
pub mod config;
pub mod partition;
pub mod retry;
pub mod targets;
