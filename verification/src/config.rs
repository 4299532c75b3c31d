//! The immutable, already-parsed settings this core consumes.

use vstd::prelude::*;
use crate::paths::SockPath;

verus! {

/// Ordered logging severity, least to most verbose.
#[derive(Clone, Copy, PartialEq, Eq, Structural, Debug)]
pub enum LogLevel {
    Error,
    Warn,
    Info,
    Debug,
    Trace,
}

/// Whether the resolved log filter applies process-wide or only to this
/// component's own diagnostic namespace.
#[derive(Clone, Copy, PartialEq, Eq, Structural, Debug)]
pub enum LogScope {
    Global,
    ScopedToOwner,
}

/// Immutable settings: created once before this core runs and never mutated.
pub struct Config {
    /// Where the listening channel is bound. Must be absolute.
    pub sock_path: SockPath,
    /// Where the durable store lives.
    pub storage_path: SockPath,
    /// Requested logging severity.
    pub log_level: LogLevel,
    /// Reach of the requested severity.
    pub log_scope: LogScope,
}

impl Config {
    /// Build a configuration from its parts.
    pub fn new(sock_path: SockPath, storage_path: SockPath, log_level: LogLevel, log_scope: LogScope) -> (c: Config)
        ensures
            c.sock_path == sock_path,
            c.storage_path == storage_path,
            c.log_level == log_level,
            c.log_scope == log_scope,
    {
        Config { sock_path, storage_path, log_level, log_scope }
    }

    /// The configured socket path.
    pub fn sock_path(&self) -> (r: &SockPath)
        ensures
            r == self.sock_path,
    {
        &self.sock_path
    }

    /// The configured storage path.
    pub fn storage_path(&self) -> (r: &SockPath)
        ensures
            r == self.storage_path,
    {
        &self.storage_path
    }

    /// The configured logging severity.
    pub fn log_level(&self) -> (r: LogLevel)
        ensures
            r == self.log_level,
    {
        self.log_level
    }

    /// The configured logging scope.
    pub fn log_scope(&self) -> (r: LogScope)
        ensures
            r == self.log_scope,
    {
        self.log_scope
    }
}

} // verus!
