use vstd::prelude::*;
use vstd::string::*;
use crate::descriptor::{describes, generate, ComposeConfig};
use crate::error::{IoKind, ServerError};
use crate::gateway::GatewayCall;
use crate::names::{container_name, container_name_of, data_path_for, data_path_of, is_valid_server_name, valid_name};
use crate::registry::{loader_of, started_at, ServerConfig, ServerInfo, ServerType, Timestamp};

verus! {

/// What the user chose for a new server.
#[derive(Debug, Clone)]
pub struct CreateRequest {
    pub name: String,
    pub server_type: ServerType,
    pub version: String,
    pub memory: String,
    pub port: String,
    /// The mod loader's version; kept only for server types that come with a
    /// mod loader.
    pub mod_loader_version: Option<String>,
    pub java_args: Option<String>,
}

/// `info` is what creating `req` under base directory `base` at `now` records.
pub open spec fn records(info: ServerInfo, req: CreateRequest, base: Seq<char>, now: Timestamp) -> bool {
    &&& info.version == req.version
    &&& info.port == req.port
    &&& info.memory == req.memory
    &&& info.data_path@ == data_path_of(base, req.name@)
    &&& info.server_type == req.server_type
    &&& info.mod_loader == loader_of(req.server_type)
    &&& info.mod_loader_version == (if loader_of(req.server_type) is Some {
        req.mod_loader_version
    } else {
        None
    })
    &&& info.java_args == req.java_args
    &&& info.created_at == now
    &&& info.last_started is None
}

/// Registers a new server and returns its orchestration document.
///
/// The name is checked first, then whether it is taken; on either failure the
/// registry is left as it was. The caller writes the document into the
/// server's data directory before it saves the registry.
pub fn create_server(
    config: &mut ServerConfig,
    base: &str,
    req: CreateRequest,
    now: Timestamp,
) -> (r: Result<ComposeConfig, ServerError>)
    requires
        old(config).wf(),
    ensures
        final(config).wf(),
        r is Ok <==> valid_name(req.name@) && !old(config)@.contains_key(req.name@),
        !valid_name(req.name@) ==> (r matches Err(ServerError::InvalidServerName(n)) && n@
            == req.name@),
        old(config)@.contains_key(req.name@) ==> (r matches Err(
            ServerError::ServerExists(n),
        ) && n@ == req.name@),
        r is Err ==> final(config)@ == old(config)@,
        r matches Ok(d) ==> {
            &&& final(config)@ == old(config)@.insert(req.name@, final(config)@[req.name@])
            &&& records(final(config)@[req.name@], req, base@, now)
            &&& describes(d, req.name@, final(config)@[req.name@])
        },
{
    let ghost req0 = req;
    proof {
        if config@.contains_key(req.name@) {
            config.lemma_names_valid(req.name@);
        }
    }
    let CreateRequest { name, server_type, version, memory, port, mod_loader_version, java_args } =
        req;
    if !is_valid_server_name(name.as_str()) {
        return Err(ServerError::InvalidServerName(name));
    }
    if config.contains(name.as_str()) {
        return Err(ServerError::ServerExists(name));
    }
    let data_path = data_path_for(base, name.as_str());
    let mod_loader = server_type.mod_loader();
    let mod_loader_version = if mod_loader.is_some() {
        mod_loader_version
    } else {
        None
    };
    let info = ServerInfo {
        version,
        port,
        memory,
        data_path,
        server_type,
        mod_loader,
        mod_loader_version,
        java_args,
        created_at: now,
        last_started: None,
    };
    let d = generate(name.as_str(), &info);
    let ghost n = name@;
    config.insert_new(name, info);
    assert(config@[n] == info);
    assert(records(info, req0, base@, now));
    Ok(d)
}

/// `c` starts (when `start`) or stops the service in directory `dir`.
pub open spec fn call_for(c: GatewayCall, start: bool, dir: Seq<char>) -> bool {
    if start {
        c matches GatewayCall::Up { dir: d } && d@ == dir
    } else {
        c matches GatewayCall::Down { dir: d } && d@ == dir
    }
}

/// What a target of `start` or `stop` names: one server, or all.
pub open spec fn target_view(t: Option<&str>) -> Option<Seq<char>> {
    match t {
        Some(n) => Some(n@),
        None => None,
    }
}

/// `v` starts (or stops) each server that `target` names in registry `m`, once.
pub open spec fn plans(
    m: Map<Seq<char>, ServerInfo>,
    target: Option<Seq<char>>,
    v: Seq<(String, GatewayCall)>,
    start: bool,
) -> bool {
    &&& forall|i: int| 0 <= i < v.len() ==> #[trigger] m.contains_key(v[i].0@) && call_for(
        v[i].1,
        start,
        m[v[i].0@].data_path@,
    )
    &&& forall|i: int, j: int| 0 <= i < j < v.len() ==> v[i].0@ != v[j].0@
    &&& match target {
        Some(n) => v.len() == 1 && v[0].0@ == n,
        None => forall|k: Seq<char>| #[trigger]
            m.contains_key(k) ==> exists|i: int| 0 <= i < v.len() && v[i].0@ == k,
    }
}

/// The calls that start (or stop) each server `target` names.
fn plan_calls(config: &ServerConfig, target: Option<&str>, start: bool) -> (r: Result<
    Vec<(String, GatewayCall)>,
    ServerError,
>)
    requires
        config.wf(),
    ensures
        r is Err <==> (target matches Some(n) && !config@.contains_key(n@)),
        r matches Err(e) ==> (e matches ServerError::ServerNotFound(m) && Some(m@) == target_view(
            target,
        )),
        r matches Ok(v) ==> plans(config@, target_view(target), v@, start),
{
    let mut v: Vec<(String, GatewayCall)> = Vec::new();
    match target {
        Some(n) => {
            match config.get(n) {
                Some(info) => {
                    let dir = info.data_path.clone();
                    let c = if start {
                        GatewayCall::Up { dir }
                    } else {
                        GatewayCall::Down { dir }
                    };
                    v.push((String::from_str(n), c));
                    Ok(v)
                },
                None => Err(ServerError::ServerNotFound(String::from_str(n))),
            }
        },
        None => {
            let names = config.names();
            let mut i: usize = 0;
            while i < names.len()
                invariant
                    config.wf(),
                    i <= names@.len(),
                    v@.len() == i,
                    forall|a: int, b: int| 0 <= a < b < names@.len() ==> names@[a]@ != names@[b]@,
                    forall|k: Seq<char>|
                        config@.contains_key(k) <==> exists|a: int|
                            0 <= a < names@.len() && names@[a]@ == k,
                    forall|j: int| 0 <= j < i ==> v@[j].0@ == #[trigger] names@[j]@,
                    forall|j: int| 0 <= j < i ==> #[trigger] config@.contains_key(v@[j].0@) && call_for(
                        v@[j].1,
                        start,
                        config@[v@[j].0@].data_path@,
                    ),
                decreases names@.len() - i,
            {
                let n = names[i].clone();
                assert(config@.contains_key(names@[i as int]@));
                let info = config.get(n.as_str()).unwrap();
                let dir = info.data_path.clone();
                let c = if start {
                    GatewayCall::Up { dir }
                } else {
                    GatewayCall::Down { dir }
                };
                v.push((n, c));
                i = i + 1;
            }
            assert forall|k: Seq<char>| #[trigger]
                config@.contains_key(k) implies exists|a: int| 0 <= a < v@.len() && v@[a].0@ == k by {
                let a = choose|a: int| 0 <= a < names@.len() && names@[a]@ == k;
                assert(v@[a].0@ == names@[a]@);
            }
            assert forall|a: int, b: int| 0 <= a < b < v@.len() implies v@[a].0@ != v@[b].0@ by {
                assert(v@[a].0@ == names@[a]@);
                assert(v@[b].0@ == names@[b]@);
            }
            Ok(v)
        },
    }
}

/// The calls that start the servers `target` names: one, or all when it is
/// `None`. An unknown name yields `ServerNotFound` and no call at all.
pub fn plan_start(config: &ServerConfig, target: Option<&str>) -> (r: Result<
    Vec<(String, GatewayCall)>,
    ServerError,
>)
    requires
        config.wf(),
    ensures
        r is Err <==> (target matches Some(n) && !config@.contains_key(n@)),
        r matches Err(e) ==> (e matches ServerError::ServerNotFound(m) && Some(m@) == target_view(
            target,
        )),
        r matches Ok(v) ==> plans(config@, target_view(target), v@, true),
{
    plan_calls(config, target, true)
}

/// The calls that stop the servers `target` names: one, or all when it is
/// `None`. An unknown name yields `ServerNotFound` and no call at all.
pub fn plan_stop(config: &ServerConfig, target: Option<&str>) -> (r: Result<
    Vec<(String, GatewayCall)>,
    ServerError,
>)
    requires
        config.wf(),
    ensures
        r is Err <==> (target matches Some(n) && !config@.contains_key(n@)),
        r matches Err(e) ==> (e matches ServerError::ServerNotFound(m) && Some(m@) == target_view(
            target,
        )),
        r matches Ok(v) ==> plans(config@, target_view(target), v@, false),
{
    plan_calls(config, target, false)
}

/// Takes in the outcome of starting server `name`: a success records `now` as
/// its last start, a failure is handed back and leaves the registry as it was.
pub fn record_start(
    config: &mut ServerConfig,
    name: &str,
    outcome: Result<(), ServerError>,
    now: Timestamp,
) -> (r: Result<(), ServerError>)
    requires
        old(config).wf(),
    ensures
        final(config).wf(),
        outcome is Ok ==> r is Ok,
        outcome matches Err(e) ==> (r matches Err(e2) && e2 == e),
        outcome is Err ==> final(config)@ == old(config)@,
        outcome is Ok && old(config)@.contains_key(name@) ==> final(config)@ == old(config)@.insert(
            name@,
            started_at(old(config)@[name@], now),
        ),
        outcome is Ok && !old(config)@.contains_key(name@) ==> final(config)@ == old(config)@,
{
    match outcome {
        Ok(()) => {
            config.set_last_started(name, now);
            Ok(())
        },
        Err(e) => Err(e),
    }
}

/// The call that shows the logs of server `name`, following them if `follow`.
pub fn plan_logs(config: &ServerConfig, name: &str, follow: bool) -> (r: Result<GatewayCall, ServerError>)
    requires
        config.wf(),
    ensures
        r is Ok <==> config@.contains_key(name@),
        r matches Err(e) ==> (e matches ServerError::ServerNotFound(m) && m@ == name@),
        r matches Ok(c) ==> (c matches GatewayCall::Logs { dir, follow: f } && f == follow && dir@
            == config@[name@].data_path@),
{
    match config.get(name) {
        Some(info) => Ok(GatewayCall::Logs { dir: info.data_path.clone(), follow }),
        None => Err(ServerError::ServerNotFound(String::from_str(name))),
    }
}

/// The call that attaches the terminal to the console of server `name`.
pub fn plan_attach(config: &ServerConfig, name: &str) -> (r: Result<GatewayCall, ServerError>)
    requires
        config.wf(),
    ensures
        r is Ok <==> config@.contains_key(name@),
        r matches Err(e) ==> (e matches ServerError::ServerNotFound(m) && m@ == name@),
        r matches Ok(c) ==> (c matches GatewayCall::Attach { container } && container@
            == container_name_of(name@)),
{
    if config.contains(name) {
        Ok(GatewayCall::Attach { container: container_name(name) })
    } else {
        Err(ServerError::ServerNotFound(String::from_str(name)))
    }
}

/// The call that asks whether the container of server `name` runs. It reads
/// nothing from the registry.
pub fn status_call(name: &str) -> (r: GatewayCall)
    ensures
        r matches GatewayCall::Ps { container } && container@ == container_name_of(name@),
{
    GatewayCall::Ps { container: container_name(name) }
}

/// The archive a backup of server `name` taken at `stamp` goes to.
pub open spec fn backup_file_of(config_dir: Seq<char>, name: Seq<char>, stamp: Seq<char>) -> Seq<
    char,
> {
    config_dir + "/backups/"@ + name + "_"@ + stamp + ".tar.gz"@
}

/// The archive a backup of server `name` taken at `stamp` goes to, under the
/// configuration directory `config_dir`.
pub fn backup_file(config_dir: &str, name: &str, stamp: &str) -> (r: String)
    ensures
        r@ == backup_file_of(config_dir@, name@, stamp@),
{
    let s = String::from_str(config_dir).concat("/backups/");
    let s = s.concat(name).concat("_");
    s.concat(stamp).concat(".tar.gz")
}

/// The call that archives the data directory of server `name` into the backup
/// directory, under a name made of `name` and the local time `stamp`
/// (`YYYYMMDD_HHMMSS`).
pub fn plan_backup(config: &ServerConfig, name: &str, config_dir: &str, stamp: &str) -> (r: Result<
    GatewayCall,
    ServerError,
>)
    requires
        config.wf(),
    ensures
        r is Ok <==> config@.contains_key(name@),
        r matches Err(e) ==> (e matches ServerError::ServerNotFound(m) && m@ == name@),
        r matches Ok(c) ==> (c matches GatewayCall::ArchiveCreate { dir, dest } && dir@
            == config@[name@].data_path@ && dest@ == backup_file_of(config_dir@, name@, stamp@)),
{
    match config.get(name) {
        Some(info) => Ok(
            GatewayCall::ArchiveCreate {
                dir: info.data_path.clone(),
                dest: backup_file(config_dir, name, stamp),
            },
        ),
        None => Err(ServerError::ServerNotFound(String::from_str(name))),
    }
}

/// The two steps of a restore: stopping the server, whose failure does not
/// hold the restore back, then extracting the archive into its data directory.
#[derive(Debug, Clone)]
pub struct RestorePlan {
    pub stop: GatewayCall,
    pub extract: GatewayCall,
}

/// The steps that restore server `name` from the archive at `archive`;
/// `archive_exists` says whether that file is there.
pub fn plan_restore(config: &ServerConfig, name: &str, archive: &str, archive_exists: bool) -> (r: Result<
    RestorePlan,
    ServerError,
>)
    requires
        config.wf(),
    ensures
        r is Ok <==> config@.contains_key(name@) && archive_exists,
        !config@.contains_key(name@) ==> (r matches Err(ServerError::ServerNotFound(m)) && m@
            == name@),
        config@.contains_key(name@) && !archive_exists ==> (r matches Err(
            ServerError::Io { kind, .. },
        ) && kind == IoKind::NotFound),
        r matches Ok(p) ==> {
            &&& p.stop matches GatewayCall::Down { dir } && dir@ == config@[name@].data_path@
            &&& p.extract matches GatewayCall::ArchiveExtract { dir, src } && dir@
                == config@[name@].data_path@ && src@ == archive@
        },
{
    match config.get(name) {
        Some(info) => {
            if !archive_exists {
                return Err(
                    ServerError::Io {
                        kind: IoKind::NotFound,
                        message: String::from_str("Backup file not found"),
                    },
                );
            }
            Ok(
                RestorePlan {
                    stop: GatewayCall::Down { dir: info.data_path.clone() },
                    extract: GatewayCall::ArchiveExtract {
                        dir: info.data_path.clone(),
                        src: String::from_str(archive),
                    },
                },
            )
        },
        None => Err(ServerError::ServerNotFound(String::from_str(name))),
    }
}

/// The steps of a removal that come before the registry changes: stopping the
/// server, whose failure does not hold the removal back, then deleting its data
/// directory.
#[derive(Debug, Clone)]
pub struct RemovePlan {
    pub stop: GatewayCall,
    pub data_path: String,
}

/// The steps that remove server `name`.
pub fn plan_remove(config: &ServerConfig, name: &str) -> (r: Result<RemovePlan, ServerError>)
    requires
        config.wf(),
    ensures
        r is Ok <==> config@.contains_key(name@),
        r matches Err(e) ==> (e matches ServerError::ServerNotFound(m) && m@ == name@),
        r matches Ok(p) ==> {
            &&& p.stop matches GatewayCall::Down { dir } && dir@ == config@[name@].data_path@
            &&& p.data_path@ == config@[name@].data_path@
        },
{
    match config.get(name) {
        Some(info) => Ok(
            RemovePlan {
                stop: GatewayCall::Down { dir: info.data_path.clone() },
                data_path: info.data_path.clone(),
            },
        ),
        None => Err(ServerError::ServerNotFound(String::from_str(name))),
    }
}

/// Takes in the outcome of deleting the data directory of server `name`: on
/// success the entry leaves the registry; on failure the error is handed back
/// and the registry stays as it was.
pub fn finish_remove(config: &mut ServerConfig, name: &str, removal: Result<(), ServerError>) -> (r:
    Result<(), ServerError>)
    requires
        old(config).wf(),
    ensures
        final(config).wf(),
        removal is Ok ==> r is Ok && final(config)@ == old(config)@.remove(name@),
        removal matches Err(e) ==> (r matches Err(e2) && e2 == e && final(config)@ == old(config)@),
{
    match removal {
        Ok(()) => {
            config.remove(name);
            Ok(())
        },
        Err(e) => Err(e),
    }
}

} // verus!
