//! Lifecycle management for a small set of named local development services
//! (a tunnel, a backend, a frontend, a monitoring daemon) belonging to
//! locally registered projects.
//!
//! The crate provides the verified core of such a manager: the process
//! registry, the script/command resolver, the liveness prober's matching
//! rules, the graceful-then-forced termination state machine, and the
//! project detection rules (directory classification, script discovery and
//! port extraction). Filesystem walking, process spawning and signalling are
//! left to a thin unverified shell that feeds plain values to these
//! functions.

pub mod envs;
pub mod escalation;
pub mod gmd;
pub mod names;
pub mod orchestrator;
pub mod ports;
pub mod probe;
pub mod project;
pub mod registry;
pub mod resolver;
pub mod status;
pub mod store;
pub mod text;
