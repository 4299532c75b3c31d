//! Lifecycle core of a node-local Container Runtime Interface (CRI) server.
//!
//! This crate verifies the process-wide startup and shutdown sequence around a
//! set of request-serving endpoints reachable over a local socket: binding a
//! listening channel at a configured filesystem path, racing the serving loop
//! against termination signals, and the ordered, single-shot teardown that
//! persists durable state and removes the listening channel.
//!
//! The filesystem and the durable store are modelled as explicit values
//! ([`paths::FsSim`], [`lifecycle::StorageSim`]), so every binding and cleanup
//! decision is a verified transition on that model. A thin unverified shell
//! performs the same transitions against the real operating system.

pub mod config;
pub mod errors;
pub mod lifecycle;
pub mod logging;
pub mod paths;
pub mod server;
