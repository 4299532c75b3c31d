//! Whole start/stop cycles: the shutdown race, teardown order, logging
//! resolution, and the interceptor.

use cri_server::config::Config;
use cri_server::config::LogLevel;
use cri_server::config::LogScope;
use cri_server::errors::CriError;
use cri_server::lifecycle::Phase;
use cri_server::lifecycle::RaceOutcome;
use cri_server::lifecycle::ShutdownCoordinator;
use cri_server::lifecycle::StorageSim;
use cri_server::logging::resolve_log_filter;
use cri_server::logging::LoggerInit;
use cri_server::paths::FsSim;
use cri_server::paths::SockPath;
use cri_server::server::cleanup_outcome;
use cri_server::server::CriRequest;
use cri_server::server::Server;
use cri_server::server::ServiceKind;

fn abs_path(components: &[&str]) -> SockPath {
    SockPath {
        absolute: true,
        components: components.iter().map(|c| c.to_string()).collect(),
    }
}

fn server_for(sock_path: SockPath) -> Server {
    let config = Config::new(
        sock_path,
        abs_path(&["var", "lib", "store"]),
        LogLevel::Info,
        LogScope::Global,
    );
    Server::new(config)
}

#[test]
fn interrupt_persists_once_and_removes_socket() {
    let sock_path = abs_path(&["run", "cri", "server.sock"]);
    let mut fs = FsSim::new();
    let mut logger = LoggerInit::new();
    let sut = server_for(sock_path.clone_of());

    let report = sut.start(&mut logger, &mut fs, true, RaceOutcome::Interrupt);

    assert_eq!(report.persist_count, 1);
    assert!(!fs.exists_file(&sock_path));
    assert!(report.result.is_ok());
    assert_eq!(report.filter, "info");
}

#[test]
fn terminate_persists_once_and_removes_socket() {
    let sock_path = abs_path(&["run", "cri", "server.sock"]);
    let mut fs = FsSim::new();
    let mut logger = LoggerInit::new();
    let sut = server_for(sock_path.clone_of());

    let report = sut.start(&mut logger, &mut fs, true, RaceOutcome::Terminate);

    assert_eq!(report.persist_count, 1);
    assert!(!fs.exists_file(&sock_path));
    assert!(report.result.is_ok());
}

#[test]
fn transport_error_still_runs_cleanup() {
    // The resolved behavior for a serve-loop failure: cleanup still runs —
    // storage is persisted once and the socket entry is removed — and the
    // transport error is reported as the cycle's failure.
    let sock_path = abs_path(&["run", "cri", "server.sock"]);
    let mut fs = FsSim::new();
    let mut logger = LoggerInit::new();
    let sut = server_for(sock_path.clone_of());

    let report = sut.start(&mut logger, &mut fs, true, RaceOutcome::ServeFailed);

    assert_eq!(report.persist_count, 1);
    assert!(!fs.exists_file(&sock_path));
    assert!(matches!(report.result, Err(CriError::TransportError)));
}

#[test]
fn storage_open_failure_aborts_before_binding() {
    let sock_path = abs_path(&["run", "cri", "server.sock"]);
    let mut fs = FsSim::new();
    let mut logger = LoggerInit::new();
    let sut = server_for(sock_path.clone_of());

    let report = sut.start(&mut logger, &mut fs, false, RaceOutcome::Interrupt);

    assert!(matches!(report.result, Err(CriError::StorageOpenError)));
    assert_eq!(report.persist_count, 0);
    assert_eq!(fs.files.len(), 0);
    assert_eq!(fs.dirs.len(), 0);
}

#[test]
fn relative_socket_path_fails_whole_cycle() {
    let sock_path = SockPath {
        absolute: false,
        components: vec!["not".to_string(), "absolute".to_string(), "path".to_string()],
    };
    let mut fs = FsSim::new();
    let mut logger = LoggerInit::new();
    let sut = server_for(sock_path);

    let report = sut.start(&mut logger, &mut fs, true, RaceOutcome::Interrupt);

    assert!(matches!(report.result, Err(CriError::ConfigurationError)));
    assert_eq!(report.persist_count, 0);
    assert_eq!(fs.files.len(), 0);
    assert_eq!(fs.dirs.len(), 0);
}

#[test]
fn coordinator_arms_watches_before_serving() {
    // The signal watches are armed strictly before the serve loop accepts
    // connections: the machine has no transition that delivers a race
    // outcome in the Starting phase. A signal in that narrow window is lost;
    // an accepted limitation of the design.
    let mut coord = ShutdownCoordinator::new();
    assert_eq!(coord.phase, Phase::Starting);
    coord.arm_and_serve();
    assert_eq!(coord.phase, Phase::Serving);
    coord.resolve(RaceOutcome::Interrupt);
    assert_eq!(coord.phase, Phase::Stopping);
    coord.finish();
    assert_eq!(coord.phase, Phase::Stopped);
}

#[test]
fn storage_persist_counts_flushes() {
    let mut storage = StorageSim::open();
    assert_eq!(storage.persist_count, 0);
    storage.persist();
    assert_eq!(storage.persist_count, 1);
}

#[test]
fn interceptor_allows_request_through_unchanged() {
    let req = CriRequest {
        service: ServiceKind::Runtime,
        method: "ListContainers".to_string(),
    };
    let (res, record) = Server::intercept(req);
    let back = res.expect("default interceptor never rejects");
    assert_eq!(back.service, ServiceKind::Runtime);
    assert_eq!(back.method, "ListContainers");
    assert_eq!(record, "ListContainers"); // exactly one diagnostic record
}

#[test]
fn interceptor_covers_both_service_groups() {
    let req = CriRequest {
        service: ServiceKind::Image,
        method: "PullImage".to_string(),
    };
    let (res, record) = Server::intercept(req);
    let back = res.expect("default interceptor never rejects");
    assert_eq!(back.service, ServiceKind::Image);
    assert_eq!(back.method, "PullImage");
    assert_eq!(record, "PullImage");
}

#[test]
fn log_filter_global_scope_is_plain_severity() {
    assert_eq!(resolve_log_filter(LogScope::Global, LogLevel::Error), "error");
    assert_eq!(resolve_log_filter(LogScope::Global, LogLevel::Warn), "warn");
    assert_eq!(resolve_log_filter(LogScope::Global, LogLevel::Info), "info");
    assert_eq!(resolve_log_filter(LogScope::Global, LogLevel::Debug), "debug");
    assert_eq!(resolve_log_filter(LogScope::Global, LogLevel::Trace), "trace");
}

#[test]
fn log_filter_scoped_names_the_component() {
    assert_eq!(
        resolve_log_filter(LogScope::ScopedToOwner, LogLevel::Debug),
        "cri_server=debug"
    );
    assert_eq!(
        resolve_log_filter(LogScope::ScopedToOwner, LogLevel::Info),
        "cri_server=info"
    );
}

#[test]
fn logger_init_is_idempotent() {
    let mut logger = LoggerInit::new();
    assert!(logger.try_init()); // first attempt installs
    assert!(!logger.try_init()); // second attempt is a no-op, not an error
    assert!(logger.initialized);
}

#[test]
fn cleanup_outcome_reports_both_steps() {
    assert!(cleanup_outcome(Ok(()), Ok(())).is_ok());
    assert!(matches!(
        cleanup_outcome(Err(CriError::PersistenceError), Ok(())),
        Err(CriError::PersistenceError)
    ));
    assert!(matches!(
        cleanup_outcome(Ok(()), Err(CriError::FilesystemError)),
        Err(CriError::FilesystemError)
    ));
    assert!(matches!(
        cleanup_outcome(Err(CriError::PersistenceError), Err(CriError::FilesystemError)),
        Err(CriError::PersistenceError)
    ));
}
