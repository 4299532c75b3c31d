//! The shutdown coordination state machine and the storage lifecycle.
//!
//! One start/stop cycle moves through `Starting -> Serving -> Stopping ->
//! Stopped`. While serving, three independently suspending tasks race: the
//! serve loop and one watch per termination signal. Whichever completes
//! first ends the race; the losers are abandoned without cancellation, which
//! is safe because the process is about to exit.

use vstd::prelude::*;

verus! {

/// Phases of one start/stop cycle, in order.
#[derive(Clone, Copy, PartialEq, Eq, Structural, Debug)]
pub enum Phase {
    Starting,
    Serving,
    Stopping,
    Stopped,
}

/// What ended the three-way race between the serve loop and the two
/// termination-signal watches. Only the first arrival matters.
#[derive(Clone, Copy, PartialEq, Eq, Structural, Debug)]
pub enum RaceOutcome {
    /// The serve loop ended normally.
    ServeCompleted,
    /// The serve loop ended with a transport error.
    ServeFailed,
    /// An interrupt-class signal arrived.
    Interrupt,
    /// A terminate-class signal arrived.
    Terminate,
}

/// Coordinates the race between the serve loop and the termination signals,
/// and pins the order of the teardown that follows.
pub struct ShutdownCoordinator {
    pub phase: Phase,
}

impl ShutdownCoordinator {
    /// A cycle begins with the listener bound and the services registered,
    /// but nothing live yet.
    pub fn new() -> (c: ShutdownCoordinator)
        ensures
            c.phase == Phase::Starting,
    {
        ShutdownCoordinator { phase: Phase::Starting }
    }

    /// Arm the two signal watches, strictly before the serve loop begins
    /// accepting connections, then let the three tasks go live. A signal
    /// delivered in the narrow window before arming is lost; that is an
    /// accepted limitation of the design, not a defect.
    pub fn arm_and_serve(&mut self)
        requires
            old(self).phase == Phase::Starting,
        ensures
            final(self).phase == Phase::Serving,
    {
        self.phase = Phase::Serving;
    }

    /// Whichever of the three racing tasks completes first ends the race.
    /// Every outcome — normal completion, transport error, or either signal —
    /// funnels into the same teardown path.
    pub fn resolve(&mut self, _outcome: RaceOutcome)
        requires
            old(self).phase == Phase::Serving,
        ensures
            final(self).phase == Phase::Stopping,
    {
        self.phase = Phase::Stopping;
    }

    /// Teardown is complete; the cycle is over. `Stopped` is terminal: no
    /// transition accepts it as a starting phase.
    pub fn finish(&mut self)
        requires
            old(self).phase == Phase::Stopping,
        ensures
            final(self).phase == Phase::Stopped,
    {
        self.phase = Phase::Stopped;
    }
}

/// The lifecycle's view of the durable store: opened once, shared with the
/// service layer while serving, persisted exactly once at shutdown. The
/// store's contents and on-disk format are the storage engine's business;
/// this tracks only what the lifecycle owes the engine.
pub struct StorageSim {
    pub persist_count: u64,
}

impl StorageSim {
    /// Open the durable store: no flush has happened yet on this handle.
    pub fn open() -> (s: StorageSim)
        ensures
            s.persist_count == 0,
    {
        StorageSim { persist_count: 0 }
    }

    /// Flush accumulated state to durable storage.
    pub fn persist(&mut self)
        requires
            old(self).persist_count < u64::MAX,
        ensures
            final(self).persist_count == old(self).persist_count + 1,
    {
        self.persist_count = self.persist_count + 1;
    }
}

} // verus!
