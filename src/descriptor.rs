use vstd::prelude::*;
use vstd::string::*;
use crate::names::{container_name, container_name_of};
use crate::registry::{loader_label, type_label, ModLoader, ServerInfo};

verus! {

/// The port the game listens on inside the container.
pub const CONTAINER_PORT: &'static str = "25565";

/// The runtime image every server runs.
pub const SERVER_IMAGE: &'static str = "itzg/minecraft-server";

/// The variable that carries the version of a mod loader.
pub open spec fn loader_version_key(l: ModLoader) -> Seq<char> {
    match l {
        ModLoader::Forge => "FORGE_VERSION"@,
        ModLoader::Fabric => "FABRIC_VERSION"@,
    }
}

/// The environment handed to the container of a server.
pub open spec fn env_of(info: ServerInfo) -> Seq<Seq<char>> {
    let base = seq![
        "EULA=TRUE"@,
        "MEMORY="@ + info.memory@,
        "VERSION="@ + info.version@,
        "TYPE="@ + type_label(info.server_type),
    ];
    let loader = match info.mod_loader {
        Some(l) => seq!["TYPE="@ + loader_label(l)] + match info.mod_loader_version {
            Some(v) => seq![loader_version_key(l) + "="@ + v@],
            None => Seq::<Seq<char>>::empty(),
        },
        None => Seq::<Seq<char>>::empty(),
    };
    let jvm = match info.java_args {
        Some(a) => seq!["JVM_OPTS="@ + a@],
        None => Seq::<Seq<char>>::empty(),
    };
    base + loader + jvm
}

/// The host-to-container port mapping of a server.
pub open spec fn port_mapping_of(port: Seq<char>) -> Seq<char> {
    port + ":"@ + CONTAINER_PORT@
}

/// The volume mapping of a server's data directory.
pub open spec fn volume_of(data_path: Seq<char>) -> Seq<char> {
    data_path + ":/data"@
}

/// The views of a list of strings.
pub open spec fn views(v: Seq<String>) -> Seq<Seq<char>> {
    v.map_values(|s: String| s@)
}

/// How the container runtime runs one server.
#[derive(Debug, Clone)]
pub struct MinecraftService {
    pub image: String,
    pub container_name: String,
    pub ports: Vec<String>,
    pub environment: Vec<String>,
    pub volumes: Vec<String>,
    pub restart: String,
    pub stdin_open: bool,
    pub tty: bool,
}

/// The orchestration document of one server: a single service under the
/// server's name.
#[derive(Debug, Clone)]
pub struct ComposeConfig {
    pub version: String,
    pub service_name: String,
    pub service: MinecraftService,
}

/// `d` is the orchestration document of server `name` as `info` describes it.
pub open spec fn describes(d: ComposeConfig, name: Seq<char>, info: ServerInfo) -> bool {
    &&& d.version@ == "3.8"@
    &&& d.service_name@ == name
    &&& d.service.image@ == SERVER_IMAGE@
    &&& d.service.container_name@ == container_name_of(name)
    &&& views(d.service.ports@) == seq![port_mapping_of(info.port@)]
    &&& views(d.service.environment@) == env_of(info)
    &&& views(d.service.volumes@) == seq![volume_of(info.data_path@)]
    &&& d.service.restart@ == "unless-stopped"@
    &&& d.service.stdin_open
    &&& d.service.tty
}

/// `prefix` followed by `value`.
fn joined(prefix: &str, value: &str) -> (r: String)
    ensures
        r@ == prefix@ + value@,
{
    String::from_str(prefix).concat(value)
}

/// The environment handed to the container of a server.
pub fn environment_for(info: &ServerInfo) -> (r: Vec<String>)
    ensures
        views(r@) == env_of(*info),
{
    let mut env: Vec<String> = Vec::new();
    env.push(String::from_str("EULA=TRUE"));
    env.push(joined("MEMORY=", info.memory.as_str()));
    env.push(joined("VERSION=", info.version.as_str()));
    let t = info.server_type.label();
    env.push(joined("TYPE=", t.as_str()));
    match info.mod_loader {
        Some(l) => {
            let ll = l.label();
            env.push(joined("TYPE=", ll.as_str()));
            match &info.mod_loader_version {
                Some(v) => {
                    let key = match l {
                        ModLoader::Forge => String::from_str("FORGE_VERSION="),
                        ModLoader::Fabric => String::from_str("FABRIC_VERSION="),
                    };
                    proof {
                        reveal_strlit("FORGE_VERSION=");
                        reveal_strlit("FABRIC_VERSION=");
                        reveal_strlit("FORGE_VERSION");
                        reveal_strlit("FABRIC_VERSION");
                        reveal_strlit("=");
                        assert(key@ == loader_version_key(l) + "="@);
                    }
                    env.push(key.concat(v.as_str()));
                },
                None => {},
            }
        },
        None => {},
    }
    match &info.java_args {
        Some(a) => {
            env.push(joined("JVM_OPTS=", a.as_str()));
        },
        None => {},
    }
    assert(views(env@) =~= env_of(*info));
    env
}

/// The orchestration document of server `name`, derived in full from `info`.
pub fn generate(name: &str, info: &ServerInfo) -> (r: ComposeConfig)
    ensures
        describes(r, name@, *info),
{
    let mut ports: Vec<String> = Vec::new();
    let p = joined(info.port.as_str(), ":");
    ports.push(p.concat(CONTAINER_PORT));
    let mut volumes: Vec<String> = Vec::new();
    volumes.push(joined(info.data_path.as_str(), ":/data"));
    let service = MinecraftService {
        image: String::from_str(SERVER_IMAGE),
        container_name: container_name(name),
        ports,
        environment: environment_for(info),
        volumes,
        restart: String::from_str("unless-stopped"),
        stdin_open: true,
        tty: true,
    };
    assert(views(service.ports@) =~= seq![port_mapping_of(info.port@)]);
    assert(views(service.volumes@) =~= seq![volume_of(info.data_path@)]);
    ComposeConfig {
        version: String::from_str("3.8"),
        service_name: String::from_str(name),
        service,
    }
}

} // verus!
