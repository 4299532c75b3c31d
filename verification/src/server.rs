//! The orchestrating entity: one start/stop cycle around the serving loop.

use vstd::prelude::*;
use crate::config::Config;
use crate::errors::CriError;
use crate::lifecycle::Phase;
use crate::lifecycle::RaceOutcome;
use crate::lifecycle::ShutdownCoordinator;
use crate::lifecycle::StorageSim;
use crate::logging::LoggerInit;
use crate::logging::spec_log_filter;
use crate::logging::resolve_log_filter;
use crate::paths::fs_after_bind;
use crate::paths::FsSim;
use crate::paths::SockPath;

verus! {

/// The bound local endpoint. Its backing filesystem entry is created once
/// per server start and deleted exactly once during cleanup.
pub struct ListeningChannel {
    pub path: SockPath,
}

impl ListeningChannel {
    /// The backing path is always absolute and nonempty.
    pub open spec fn wf(self) -> bool {
        self.path@.absolute && self.path@.wf()
    }
}

/// The two service groups exposed over the local endpoint.
#[derive(Clone, Copy, PartialEq, Eq, Structural, Debug)]
pub enum ServiceKind {
    Runtime,
    Image,
}

/// An inbound request as the interceptor sees it: which service group it
/// addresses and the method it names. The request/response schema of the
/// service groups is out of scope here.
pub struct CriRequest {
    pub service: ServiceKind,
    pub method: String,
}

/// A rejection an interceptor could return to the client in place of the
/// request. The default interceptor never produces one.
#[derive(Debug)]
pub struct Rejection {
    pub method: String,
}

/// What one start/stop cycle did: the log filter it applied, how often
/// durable state was flushed, and how the cycle ended.
pub struct CycleReport {
    pub filter: &'static str,
    pub persist_count: u64,
    pub result: Result<(), CriError>,
}

/// Server is the main instance to run the Container Runtime Interface.
/// It owns the configuration and, across the span of one start, the storage
/// handle and the listening channel. A single instance supports exactly one
/// start/stop cycle: starting consumes it.
pub struct Server {
    pub config: Config,
}

impl Server {
    /// Create a new server instance.
    pub fn new(config: Config) -> (s: Server)
        ensures
            s.config == config,
    {
        Server { config }
    }

    /// Turn the configured path into a bound, accept-ready listening channel
    /// on the filesystem `fs`.
    ///
    /// A relative path is rejected before any filesystem mutation. A stale
    /// entry from a prior crashed run is removed first; otherwise the
    /// holding directory is created along with any missing ancestors. On the
    /// model these operations succeed; on the real filesystem their failures
    /// surface as `FilesystemError` at the unverified edge.
    pub fn unix_domain_listener(&self, fs: &mut FsSim) -> (r: Result<ListeningChannel, CriError>)
        requires
            old(fs).wf(),
            self.config.sock_path@.wf(),
        ensures
            final(fs).wf(),
            !self.config.sock_path@.absolute ==> r == Err::<ListeningChannel, CriError>(
                CriError::ConfigurationError,
            ) && final(fs)@ == old(fs)@,
            self.config.sock_path@.absolute ==> (r matches Ok(c) && c.path@
                == self.config.sock_path@ && c.wf() && final(fs)@ == fs_after_bind(
                old(fs)@,
                self.config.sock_path@,
            )),
    {
        let sock_path = self.config.sock_path();
        if !sock_path.absolute {
            return Err(CriError::ConfigurationError);
        }
        if fs.exists_file(sock_path) {
            fs.remove_entry(sock_path);
            fs.create_entry(sock_path);
            proof {
                assert(fs@.files =~= old(fs)@.files);
                assert(fs@ =~= fs_after_bind(old(fs)@, sock_path@));
            }
        } else {
            fs.create_dir_all(sock_path);
            fs.create_entry(sock_path);
            proof {
                assert(fs@ =~= fs_after_bind(old(fs)@, sock_path@));
            }
        }
        Ok(ListeningChannel { path: sock_path.clone_of() })
    }

    /// Invoked once per inbound request, uniformly across both registered
    /// service groups, before the request reaches handler logic. It inspects
    /// the request, emits exactly one diagnostic record describing it, and
    /// always allows it through unchanged. This is the single extension
    /// point for future authorization or rate limiting.
    pub fn intercept(req: CriRequest) -> (r: (Result<CriRequest, Rejection>, String))
        ensures
            r.0 == Ok::<CriRequest, Rejection>(req),
            r.1 == req.method,
    {
        let record = req.method.clone();
        (Ok(req), record)
    }

    /// Persist durable state, then remove the listening channel's backing
    /// entry, in that fixed order. Both steps run whatever ended the race;
    /// on the model both succeed, and the real shell aggregates their
    /// failures with [`cleanup_outcome`] so that neither suppresses the other.
    pub fn cleanup(
        &self,
        coord: &mut ShutdownCoordinator,
        storage: &mut StorageSim,
        fs: &mut FsSim,
        channel: &ListeningChannel,
    )
        requires
            old(coord).phase == Phase::Stopping,
            old(storage).persist_count == 0,
            old(fs).wf(),
            old(fs)@.files.contains(channel.path@),
        ensures
            final(coord).phase == Phase::Stopped,
            final(storage).persist_count == 1,
            final(fs).wf(),
            final(fs)@.files == old(fs)@.files.remove(channel.path@),
            final(fs)@.dirs == old(fs)@.dirs,
            !final(fs)@.files.contains(channel.path@),
    {
        storage.persist();
        fs.remove_entry(&channel.path);
        coord.finish();
    }

    /// One full start/stop cycle on the modelled process: resolve and apply
    /// the log filter, open the durable store, bind the listener, race the
    /// serve loop against the two signal watches, and tear down exactly once.
    ///
    /// `storage_opens` is whether the external storage engine could open the
    /// store; `outcome` is whichever of the three racing tasks completed
    /// first. Cleanup runs for every outcome, a transport error included; a
    /// transport error is still reported as the cycle's failure.
    pub fn start(
        self,
        logger: &mut LoggerInit,
        fs: &mut FsSim,
        storage_opens: bool,
        outcome: RaceOutcome,
    ) -> (r: CycleReport)
        requires
            old(fs).wf(),
            self.config.sock_path@.wf(),
        ensures
            final(logger).initialized,
            final(fs).wf(),
            r.filter@ == spec_log_filter(self.config.log_scope, self.config.log_level),
            !storage_opens ==> r.result == Err::<(), CriError>(CriError::StorageOpenError)
                && final(fs)@ == old(fs)@ && r.persist_count == 0,
            storage_opens && !self.config.sock_path@.absolute ==> r.result == Err::<(), CriError>(
                CriError::ConfigurationError,
            ) && final(fs)@ == old(fs)@ && r.persist_count == 0,
            storage_opens && self.config.sock_path@.absolute ==> r.persist_count == 1
                && !final(fs)@.files.contains(self.config.sock_path@) && final(fs)@.files
                == fs_after_bind(old(fs)@, self.config.sock_path@).files.remove(
                self.config.sock_path@,
            ) && final(fs)@.dirs == fs_after_bind(old(fs)@, self.config.sock_path@).dirs,
            storage_opens && self.config.sock_path@.absolute && outcome == RaceOutcome::ServeFailed
                ==> r.result == Err::<(), CriError>(CriError::TransportError),
            storage_opens && self.config.sock_path@.absolute && outcome != RaceOutcome::ServeFailed
                ==> r.result == Ok::<(), CriError>(()),
    {
        let filter = resolve_log_filter(self.config.log_scope(), self.config.log_level());
        let _first = logger.try_init();
        if !storage_opens {
            return CycleReport { filter, persist_count: 0, result: Err(CriError::StorageOpenError) };
        }
        let mut storage = StorageSim::open();
        let mut coord = ShutdownCoordinator::new();
        let channel = match self.unix_domain_listener(fs) {
            Ok(c) => c,
            Err(e) => {
                return CycleReport { filter, persist_count: 0, result: Err(e) };
            },
        };
        coord.arm_and_serve();
        coord.resolve(outcome);
        self.cleanup(&mut coord, &mut storage, fs, &channel);
        let failed = match outcome {
            RaceOutcome::ServeFailed => true,
            _ => false,
        };
        let result = if failed {
            Err(CriError::TransportError)
        } else {
            Ok(())
        };
        CycleReport { filter, persist_count: storage.persist_count, result }
    }
}

/// Aggregate the outcomes of the two teardown steps, both of which are
/// always attempted: a persistence failure is reported and never suppresses
/// the channel-removal step, whose own failure is reported in turn.
pub fn cleanup_outcome(persist_res: Result<(), CriError>, remove_res: Result<(), CriError>) -> (r:
    Result<(), CriError>)
    ensures
        persist_res is Err ==> r == Err::<(), CriError>(CriError::PersistenceError),
        persist_res is Ok && remove_res is Err ==> r == Err::<(), CriError>(
            CriError::FilesystemError,
        ),
        persist_res is Ok && remove_res is Ok ==> r == Ok::<(), CriError>(()),
{
    if persist_res.is_err() {
        Err(CriError::PersistenceError)
    } else if remove_res.is_err() {
        Err(CriError::FilesystemError)
    } else {
        Ok(())
    }
}

} // verus!
