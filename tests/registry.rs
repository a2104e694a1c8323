use mc_servers::{
    create_server, finish_remove, is_valid_server_name, plan_start, plan_stop, record_start,
    CreateRequest, GatewayCall, ModLoader, ServerConfig, ServerError, ServerType, Timestamp,
};

fn request(name: &str, server_type: ServerType) -> CreateRequest {
    CreateRequest {
        name: name.to_string(),
        server_type,
        version: "LATEST".to_string(),
        memory: "2G".to_string(),
        port: "25565".to_string(),
        mod_loader_version: None,
        java_args: None,
    }
}

fn at(secs: i64) -> Timestamp {
    Timestamp { secs, nanos: 0 }
}

#[test]
fn alice_paper_server_is_registered() {
    let mut config = ServerConfig::new();
    let d = create_server(&mut config, ".mc-servers", request("alice", ServerType::Paper), at(100))
        .unwrap();
    assert_eq!(config.names(), vec!["alice".to_string()]);
    let info = config.get("alice").unwrap();
    assert_eq!(info.server_type.label(), "PAPER");
    assert_eq!(info.version, "LATEST");
    assert_eq!(info.port, "25565");
    assert_eq!(info.memory, "2G");
    assert_eq!(info.data_path, ".mc-servers/alice");
    assert_eq!(info.mod_loader, None);
    assert_eq!(info.mod_loader_version, None);
    assert_eq!(info.created_at, at(100));
    assert_eq!(info.last_started, None);
    assert_eq!(d.service.ports, vec!["25565:25565".to_string()]);
    assert_eq!(
        d.service.environment,
        vec!["EULA=TRUE", "MEMORY=2G", "VERSION=LATEST", "TYPE=PAPER"]
    );
    assert_eq!(d.service.container_name, "mc-alice");
    assert_eq!(d.service.volumes, vec![".mc-servers/alice:/data".to_string()]);
    assert_eq!(d.service.image, "itzg/minecraft-server");
    assert_eq!(d.service.restart, "unless-stopped");
    assert_eq!(d.version, "3.8");
    assert_eq!(d.service_name, "alice");
    assert!(d.service.stdin_open && d.service.tty);
}

#[test]
fn bob_forge_server_gets_loader_variables() {
    let mut config = ServerConfig::new();
    let mut req = request("bob", ServerType::Forge);
    req.mod_loader_version = Some("47.1.0".to_string());
    let d = create_server(&mut config, ".mc-servers", req, at(5)).unwrap();
    let env = &d.service.environment;
    assert!(env.contains(&"TYPE=FORGE".to_string()));
    assert_eq!(env.iter().filter(|e| *e == "TYPE=FORGE").count(), 2);
    assert!(env.contains(&"FORGE_VERSION=47.1.0".to_string()));
    let info = config.get("bob").unwrap();
    assert_eq!(info.mod_loader, Some(ModLoader::Forge));
    assert_eq!(info.mod_loader_version, Some("47.1.0".to_string()));
}

#[test]
fn fabric_server_with_java_args() {
    let mut config = ServerConfig::new();
    let mut req = request("fab", ServerType::Fabric);
    req.mod_loader_version = Some("0.14.21".to_string());
    req.java_args = Some("-XX:+UseG1GC".to_string());
    let d = create_server(&mut config, "base", req, at(5)).unwrap();
    assert_eq!(
        d.service.environment,
        vec![
            "EULA=TRUE",
            "MEMORY=2G",
            "VERSION=LATEST",
            "TYPE=FABRIC",
            "TYPE=FABRIC",
            "FABRIC_VERSION=0.14.21",
            "JVM_OPTS=-XX:+UseG1GC",
        ]
    );
}

#[test]
fn loader_version_is_dropped_without_loader() {
    let mut config = ServerConfig::new();
    let mut req = request("van", ServerType::Vanilla);
    req.mod_loader_version = Some("1.0".to_string());
    let d = create_server(&mut config, "base", req, at(5)).unwrap();
    assert_eq!(d.service.environment.len(), 4);
    assert_eq!(config.get("van").unwrap().mod_loader_version, None);
}

#[test]
fn create_existing_name_fails_and_changes_nothing() {
    let mut config = ServerConfig::new();
    create_server(&mut config, "base", request("alice", ServerType::Paper), at(1)).unwrap();
    let r = create_server(&mut config, "base", request("alice", ServerType::Vanilla), at(2));
    assert!(matches!(r, Err(ServerError::ServerExists(ref n)) if n == "alice"));
    assert_eq!(config.names().len(), 1);
    let info = config.get("alice").unwrap();
    assert_eq!(info.server_type, ServerType::Paper);
    assert_eq!(info.created_at, at(1));
}

#[test]
fn create_with_bad_name_fails() {
    for bad in ["has space", "a/b", "", "dot.name"] {
        let mut config = ServerConfig::new();
        let r = create_server(&mut config, "base", request(bad, ServerType::Paper), at(1));
        assert!(matches!(r, Err(ServerError::InvalidServerName(ref n)) if n == bad));
        assert!(config.is_empty());
    }
}

#[test]
fn name_validation() {
    assert!(is_valid_server_name("alice"));
    assert!(is_valid_server_name("my-server_2"));
    assert!(is_valid_server_name("Caf\u{e9}"));
    assert!(!is_valid_server_name("a b"));
    assert!(!is_valid_server_name("a/b"));
    assert!(!is_valid_server_name(""));
}

#[test]
fn start_unknown_name_fails_without_calls() {
    let mut config = ServerConfig::new();
    create_server(&mut config, "base", request("alice", ServerType::Paper), at(1)).unwrap();
    let r = plan_start(&config, Some("ghost"));
    assert!(matches!(r, Err(ServerError::ServerNotFound(ref n)) if n == "ghost"));
    let r = plan_stop(&config, Some("ghost"));
    assert!(matches!(r, Err(ServerError::ServerNotFound(_))));
}

#[test]
fn start_named_and_all() {
    let mut config = ServerConfig::new();
    create_server(&mut config, "base", request("alice", ServerType::Paper), at(1)).unwrap();
    create_server(&mut config, "base", request("bob", ServerType::Paper), at(1)).unwrap();
    let one = plan_start(&config, Some("bob")).unwrap();
    assert_eq!(one.len(), 1);
    assert_eq!(one[0].0, "bob");
    assert!(matches!(one[0].1, GatewayCall::Up { ref dir } if dir == "base/bob"));
    let mut all: Vec<String> = plan_start(&config, None).unwrap().into_iter().map(|c| c.0).collect();
    all.sort();
    assert_eq!(all, vec!["alice".to_string(), "bob".to_string()]);
    let stops = plan_stop(&config, None).unwrap();
    assert!(stops.iter().all(|(_, c)| matches!(c, GatewayCall::Down { .. })));
    assert!(plan_start(&ServerConfig::new(), None).unwrap().is_empty());
}

#[test]
fn start_outcome_updates_last_started_only_on_success() {
    let mut config = ServerConfig::new();
    create_server(&mut config, "base", request("alice", ServerType::Paper), at(1)).unwrap();
    let r = record_start(
        &mut config,
        "alice",
        Err(ServerError::DockerCommandFailed("boom".to_string())),
        at(9),
    );
    assert!(matches!(r, Err(ServerError::DockerCommandFailed(ref m)) if m == "boom"));
    assert_eq!(config.get("alice").unwrap().last_started, None);
    record_start(&mut config, "alice", Ok(()), at(10)).unwrap();
    assert_eq!(config.get("alice").unwrap().last_started, Some(at(10)));
    assert_eq!(config.get("alice").unwrap().created_at, at(1));
}

#[test]
fn remove_forgets_the_name() {
    let mut config = ServerConfig::new();
    create_server(&mut config, "base", request("alice", ServerType::Paper), at(1)).unwrap();
    create_server(&mut config, "base", request("bob", ServerType::Paper), at(1)).unwrap();
    let r = finish_remove(
        &mut config,
        "alice",
        Err(ServerError::Io { kind: mc_servers::IoKind::Other, message: "denied".to_string() }),
    );
    assert!(r.is_err());
    assert!(config.contains("alice"));
    finish_remove(&mut config, "alice", Ok(())).unwrap();
    assert!(!config.contains("alice"));
    assert!(config.contains("bob"));
    assert_eq!(config.names(), vec!["bob".to_string()]);
}

#[test]
fn server_type_labels_round_trip() {
    for t in [
        ServerType::Vanilla,
        ServerType::Paper,
        ServerType::Forge,
        ServerType::Fabric,
        ServerType::Spigot,
        ServerType::Purpur,
    ] {
        assert_eq!(ServerType::from_label(&t.label()), Some(t));
    }
    assert_eq!(ServerType::from_label("paper"), None);
    assert_eq!(ServerType::Fabric.mod_loader(), Some(ModLoader::Fabric));
    assert_eq!(ServerType::Spigot.mod_loader(), None);
    assert_eq!(ModLoader::Forge.label(), "FORGE");
}
