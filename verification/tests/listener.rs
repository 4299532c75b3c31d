//! The socket listener manager: binding decisions on the modelled filesystem.

use cri_server::config::Config;
use cri_server::config::LogLevel;
use cri_server::config::LogScope;
use cri_server::errors::CriError;
use cri_server::paths::FsSim;
use cri_server::paths::SockPath;
use cri_server::server::Server;

fn abs_path(components: &[&str]) -> SockPath {
    SockPath {
        absolute: true,
        components: components.iter().map(|c| c.to_string()).collect(),
    }
}

fn rel_path(components: &[&str]) -> SockPath {
    SockPath {
        absolute: false,
        components: components.iter().map(|c| c.to_string()).collect(),
    }
}

fn server_for(sock_path: SockPath) -> Server {
    let config = Config::new(
        sock_path,
        abs_path(&["var", "lib", "store"]),
        LogLevel::Info,
        LogScope::Global,
    );
    Server::new(config)
}

#[test]
fn unix_domain_listener_success() {
    // The holding directory exists (as a fresh temporary directory would),
    // the entry itself does not.
    let sock_path = abs_path(&["tmp", "dir", "test.sock"]);
    let mut fs = FsSim::new();
    fs.create_dir_all(&sock_path);
    let sut = server_for(sock_path.clone_of());

    assert!(!fs.exists_file(&sock_path));
    sut.unix_domain_listener(&mut fs).unwrap();
    assert!(fs.exists_file(&sock_path));
}

#[test]
fn unix_domain_listener_success_exists() {
    // A stale entry already sits at the path, as after a crashed run.
    let sock_path = abs_path(&["tmp", "stale.sock"]);
    let mut fs = FsSim::new();
    fs.create_dir_all(&sock_path);
    fs.create_entry(&sock_path);
    let sut = server_for(sock_path.clone_of());

    assert!(fs.exists_file(&sock_path));
    sut.unix_domain_listener(&mut fs).unwrap();
    assert!(fs.exists_file(&sock_path));
}

#[test]
fn unix_domain_listener_fail_not_absolute() {
    let sock_path = rel_path(&["not", "absolute", "path"]);
    let mut fs = FsSim::new();
    let sut = server_for(sock_path);

    assert!(sut.unix_domain_listener(&mut fs).is_err());
}

#[test]
fn binding_with_parent_creates_only_the_entry() {
    let sock_path = abs_path(&["run", "cri", "server.sock"]);
    let mut fs = FsSim::new();
    fs.create_dir_all(&sock_path);
    let dirs_before = fs.dirs.len();
    assert_eq!(dirs_before, 2); // "/run" and "/run/cri"
    assert_eq!(fs.files.len(), 0);

    let sut = server_for(sock_path.clone_of());
    let channel = sut.unix_domain_listener(&mut fs).unwrap();

    assert!(channel.path.same_path(&sock_path));
    assert_eq!(fs.files.len(), 1);
    assert!(fs.exists_file(&sock_path));
    assert_eq!(fs.dirs.len(), dirs_before); // no directories created
}

#[test]
fn binding_without_parent_creates_ancestors_then_entry() {
    let sock_path = abs_path(&["run", "cri", "server.sock"]);
    let mut fs = FsSim::new();

    let sut = server_for(sock_path.clone_of());
    sut.unix_domain_listener(&mut fs).unwrap();

    assert!(fs.exists_dir(&abs_path(&["run"])));
    assert!(fs.exists_dir(&abs_path(&["run", "cri"])));
    assert_eq!(fs.dirs.len(), 2);
    assert!(fs.exists_file(&sock_path));
    assert_eq!(fs.files.len(), 1);
}

#[test]
fn binding_over_stale_entry_leaves_exactly_one_entry() {
    let sock_path = abs_path(&["run", "cri", "server.sock"]);
    let mut fs = FsSim::new();
    fs.create_dir_all(&sock_path);
    fs.create_entry(&sock_path);
    let dirs_before = fs.dirs.len();
    assert_eq!(fs.files.len(), 1);

    let sut = server_for(sock_path.clone_of());
    sut.unix_domain_listener(&mut fs).unwrap();

    assert_eq!(fs.files.len(), 1); // removed, then bound anew
    assert!(fs.exists_file(&sock_path));
    assert_eq!(fs.dirs.len(), dirs_before);
}

#[test]
fn binding_relative_path_touches_nothing() {
    let sock_path = rel_path(&["some", "relative.sock"]);
    let mut fs = FsSim::new();
    let sut = server_for(sock_path);

    let res = sut.unix_domain_listener(&mut fs);

    assert!(matches!(res, Err(CriError::ConfigurationError)));
    assert_eq!(fs.files.len(), 0);
    assert_eq!(fs.dirs.len(), 0);
}

#[test]
fn same_path_compares_by_value() {
    let a = abs_path(&["run", "cri.sock"]);
    let b = abs_path(&["run", "cri.sock"]);
    let c = abs_path(&["run", "other.sock"]);
    let d = rel_path(&["run", "cri.sock"]);
    assert!(a.same_path(&b));
    assert!(!a.same_path(&c));
    assert!(!a.same_path(&d));
    assert!(a.same_path(&a.clone_of()));
}
