//! Scripted telemetry generation for exercising endpoint detection tooling.
//!
//! The library holds the decisions of the generator: how a command row is
//! validated and routed, how the roster of spawned processes is kept and
//! classified on teardown, and how each outcome becomes an audit record.
//! The operating-system work itself (spawning, sockets, files, sleeping)
//! is performed by the caller, which hands the outcomes back.

pub mod common;
pub mod text;
pub mod log;
pub mod process;
pub mod commander;
pub mod network;
