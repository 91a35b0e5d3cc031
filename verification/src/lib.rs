//! Orchestration core for launching a one-off remote task from an existing
//! service definition: selecting the target container, building the run
//! request with overrides, polling for completion, deriving the log stream
//! name, and mapping container exit status to a process exit code.
//!
//! All remote calls (the orchestration backend and the log backend) are made
//! by the surrounding binary; this crate holds the decisions and the data
//! transformations, each with a verified contract.

pub mod digits;
pub mod env;
pub mod exit;
pub mod launch;
pub mod logs;
pub mod model;
pub mod poll;
pub mod resolve;
pub mod select;
pub mod text;
