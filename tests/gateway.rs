use mc_servers::{
    backup_file, create_server, plan_attach, plan_backup, plan_logs, plan_remove, plan_restore,
    status_call, status_from_ps, CreateRequest, GatewayCall, IoKind, ServerConfig, ServerError,
    ServerStatus, ServerType, Timestamp,
};

fn registry_with(name: &str) -> ServerConfig {
    let mut config = ServerConfig::new();
    let req = CreateRequest {
        name: name.to_string(),
        server_type: ServerType::Vanilla,
        version: "1.20.2".to_string(),
        memory: "4G".to_string(),
        port: "25570".to_string(),
        mod_loader_version: None,
        java_args: None,
    };
    create_server(&mut config, ".mc-servers", req, Timestamp { secs: 0, nanos: 0 }).unwrap();
    config
}

#[test]
fn call_templates() {
    let up = GatewayCall::Up { dir: "d".to_string() };
    assert_eq!(up.program(), "docker-compose");
    assert_eq!(up.args(), vec!["up", "-d"]);
    assert_eq!(up.workdir(), Some("d".to_string()));
    assert_eq!(GatewayCall::Down { dir: "d".to_string() }.args(), vec!["down"]);
    assert_eq!(GatewayCall::Logs { dir: "d".to_string(), follow: true }.args(), vec!["logs", "-f"]);
    assert_eq!(GatewayCall::Logs { dir: "d".to_string(), follow: false }.args(), vec!["logs"]);
    assert_eq!(GatewayCall::Probe.program(), "docker");
    assert_eq!(GatewayCall::Probe.args(), vec!["--version"]);
    assert_eq!(GatewayCall::Probe.workdir(), None);
    let ps = status_call("alice");
    assert_eq!(ps.program(), "docker");
    assert_eq!(ps.args(), vec!["ps", "-q", "-f", "name=mc-alice"]);
    let tar = GatewayCall::ArchiveCreate { dir: "d".to_string(), dest: "x.tar.gz".to_string() };
    assert_eq!(tar.program(), "tar");
    assert_eq!(tar.args(), vec!["-czf", "x.tar.gz", "."]);
    let untar = GatewayCall::ArchiveExtract { dir: "d".to_string(), src: "x.tar.gz".to_string() };
    assert_eq!(untar.args(), vec!["-xzf", "x.tar.gz"]);
}

#[test]
fn outcomes_follow_exit_status() {
    let up = GatewayCall::Up { dir: "d".to_string() };
    assert!(up.outcome(true, String::new()).is_ok());
    let r = up.outcome(false, "no such file".to_string());
    assert!(matches!(r, Err(ServerError::DockerCommandFailed(ref m)) if m == "no such file"));
    let logs = GatewayCall::Logs { dir: "d".to_string(), follow: false };
    let r = logs.outcome(false, "x".to_string());
    assert!(matches!(r, Err(ServerError::DockerCommandFailed(ref m)) if m == "Failed to show logs"));
    let attach = GatewayCall::Attach { container: "mc-a".to_string() };
    let r = attach.outcome(false, "x".to_string());
    assert!(
        matches!(r, Err(ServerError::DockerCommandFailed(ref m)) if m == "Failed to attach to console")
    );
}

#[test]
fn status_is_derived_from_output() {
    assert_eq!(status_from_ps(&b"3f2a9c\n".to_vec()), ServerStatus::Running);
    assert_eq!(status_from_ps(&Vec::new()), ServerStatus::Stopped);
}

#[test]
fn logs_and_console_plans() {
    let config = registry_with("alice");
    let c = plan_logs(&config, "alice", true).unwrap();
    assert!(matches!(c, GatewayCall::Logs { ref dir, follow: true } if dir == ".mc-servers/alice"));
    let c = plan_attach(&config, "alice").unwrap();
    assert_eq!(c.args(), vec!["attach", "mc-alice"]);
    assert!(matches!(plan_logs(&config, "bob", false), Err(ServerError::ServerNotFound(_))));
    assert!(matches!(plan_attach(&config, "bob"), Err(ServerError::ServerNotFound(_))));
}

#[test]
fn backup_goes_to_timestamped_archive() {
    assert_eq!(
        backup_file(".mc-servers", "alice", "20240131_235959"),
        ".mc-servers/backups/alice_20240131_235959.tar.gz"
    );
    let config = registry_with("alice");
    let c = plan_backup(&config, "alice", ".mc-servers", "20240131_235959").unwrap();
    assert_eq!(c.workdir(), Some(".mc-servers/alice".to_string()));
    assert_eq!(c.args(), vec!["-czf", ".mc-servers/backups/alice_20240131_235959.tar.gz", "."]);
    assert!(matches!(
        plan_backup(&config, "bob", ".mc-servers", "x"),
        Err(ServerError::ServerNotFound(ref n)) if n == "bob"
    ));
}

#[test]
fn restore_checks_server_then_archive() {
    let config = registry_with("alice");
    let p = plan_restore(&config, "alice", "/tmp/a.tar.gz", true).unwrap();
    assert_eq!(p.stop.args(), vec!["down"]);
    assert_eq!(p.stop.workdir(), Some(".mc-servers/alice".to_string()));
    assert_eq!(p.extract.args(), vec!["-xzf", "/tmp/a.tar.gz"]);
    assert_eq!(p.extract.workdir(), Some(".mc-servers/alice".to_string()));
    let r = plan_restore(&config, "alice", "/tmp/a.tar.gz", false);
    assert!(matches!(r, Err(ServerError::Io { kind: IoKind::NotFound, .. })));
    let r = plan_restore(&config, "bob", "/tmp/a.tar.gz", false);
    assert!(matches!(r, Err(ServerError::ServerNotFound(_))));
}

#[test]
fn remove_plan_stops_then_deletes() {
    let config = registry_with("alice");
    let p = plan_remove(&config, "alice").unwrap();
    assert_eq!(p.data_path, ".mc-servers/alice");
    assert_eq!(p.stop.program(), "docker-compose");
    assert!(matches!(plan_remove(&config, "bob"), Err(ServerError::ServerNotFound(_))));
}
