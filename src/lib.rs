//! Decision logic of a local development-stack supervisor: configuration from
//! environment values, workspace discovery, readiness polling and tracking of
//! the one bootstrap process that was started.
pub mod config;
pub mod error;
pub mod orchestrator;
pub mod readiness;
pub mod supervisor;
pub mod workspace;
