//! Error taxonomy of the lifecycle core.
//!
//! Every failure is terminal for the current start/stop cycle: nothing here
//! retries automatically. The variant identifies the failing operation.

use vstd::prelude::*;

verus! {

/// The ways a start/stop cycle can fail.
#[derive(Clone, Copy, PartialEq, Eq, Structural, Debug)]
pub enum CriError {
    /// The configured socket path is not absolute. Fatal; prevents startup;
    /// no filesystem mutation is performed.
    ConfigurationError,
    /// Stale-file removal, directory creation, or bind failure. Fatal;
    /// startup aborts.
    FilesystemError,
    /// The durable store could not be opened. Fatal; startup aborts before
    /// any listener is bound.
    StorageOpenError,
    /// The serve loop itself failed, rather than being stopped by a signal.
    TransportError,
    /// The durable flush failed during cleanup. It is reported, and it never
    /// suppresses the subsequent channel-removal step.
    PersistenceError,
}

} // verus!
