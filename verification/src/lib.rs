//! Verified core of a local service-lifecycle manager.
//!
//! A *service* is a named executable or interpreted script. The manager can
//! start it, stop it, query whether it is running, and register or
//! unregister it for automatic start at login. All interaction with the
//! operating system (process enumeration, spawning, termination, the
//! auto-start store) happens outside this crate; the crate itself holds the
//! decision logic: which action a lifecycle command must take given a
//! point-in-time status snapshot, how raw process-enumeration output is
//! parsed into process identifiers, how working directories are resolved,
//! and how statuses and outcomes are rendered as text. Every function here
//! carries a contract checked by Verus.

pub mod cli;
pub mod errors;
pub mod lifecycle;
pub mod parse;
pub mod registry;
pub mod render;
pub mod service;
pub mod text;
