use vstd::prelude::*;
use vstd::string::*;
use crate::error::ServerError;

verus! {

/// One invocation of an external tool: the container runtime, its
/// orchestration sub-tool, or the archive tool.
#[derive(Debug, Clone)]
pub enum GatewayCall {
    /// Asks the runtime for its version, to learn whether it is there.
    Probe,
    /// Brings up the service described in directory `dir`, detached.
    Up { dir: String },
    /// Takes down the service described in directory `dir`.
    Down { dir: String },
    /// Shows the logs of the service in `dir`, following them if `follow`.
    Logs { dir: String, follow: bool },
    /// Attaches the terminal to the console of a container.
    Attach { container: String },
    /// Lists the ids of running containers of that name.
    Ps { container: String },
    /// Archives the contents of `dir` into the gzipped tarball `dest`.
    ArchiveCreate { dir: String, dest: String },
    /// Extracts the gzipped tarball `src` into `dir`.
    ArchiveExtract { dir: String, src: String },
}

/// Whether a container is running, as the runtime reports it.
#[derive(Debug, Clone, Copy, PartialEq, Eq, Structural)]
pub enum ServerStatus {
    Running,
    Stopped,
}

/// The executable a call runs.
pub open spec fn program_of(c: GatewayCall) -> Seq<char> {
    match c {
        GatewayCall::Probe | GatewayCall::Attach { .. } | GatewayCall::Ps { .. } => "docker"@,
        GatewayCall::Up { .. } | GatewayCall::Down { .. } | GatewayCall::Logs { .. } => "docker-compose"@,
        GatewayCall::ArchiveCreate { .. } | GatewayCall::ArchiveExtract { .. } => "tar"@,
    }
}

/// The directory a call runs in, if it needs one.
pub open spec fn workdir_of(c: GatewayCall) -> Option<Seq<char>> {
    match c {
        GatewayCall::Up { dir } => Some(dir@),
        GatewayCall::Down { dir } => Some(dir@),
        GatewayCall::Logs { dir, .. } => Some(dir@),
        GatewayCall::ArchiveCreate { dir, .. } => Some(dir@),
        GatewayCall::ArchiveExtract { dir, .. } => Some(dir@),
        _ => None,
    }
}

/// The arguments a call passes.
pub open spec fn args_of(c: GatewayCall) -> Seq<Seq<char>> {
    match c {
        GatewayCall::Probe => seq!["--version"@],
        GatewayCall::Up { .. } => seq!["up"@, "-d"@],
        GatewayCall::Down { .. } => seq!["down"@],
        GatewayCall::Logs { follow, .. } => if follow {
            seq!["logs"@, "-f"@]
        } else {
            seq!["logs"@]
        },
        GatewayCall::Attach { container } => seq!["attach"@, container@],
        GatewayCall::Ps { container } => seq!["ps"@, "-q"@, "-f"@, "name="@ + container@],
        GatewayCall::ArchiveCreate { dest, .. } => seq!["-czf"@, dest@, "."@],
        GatewayCall::ArchiveExtract { src, .. } => seq!["-xzf"@, src@],
    }
}

/// What a failed call reports: the fixed message of the calls that stream to
/// the terminal, else what the tool wrote to its error stream.
pub open spec fn failure_message_of(c: GatewayCall, stderr: Seq<char>) -> Seq<char> {
    match c {
        GatewayCall::Logs { .. } => "Failed to show logs"@,
        GatewayCall::Attach { .. } => "Failed to attach to console"@,
        _ => stderr,
    }
}

fn strings1(a: &str) -> (r: Vec<String>)
    ensures
        r@.map_values(|s: String| s@) == seq![a@],
{
    let mut v: Vec<String> = Vec::new();
    v.push(String::from_str(a));
    assert(v@.map_values(|s: String| s@) =~= seq![a@]);
    v
}

fn strings2(a: &str, b: &str) -> (r: Vec<String>)
    ensures
        r@.map_values(|s: String| s@) == seq![a@, b@],
{
    let mut v: Vec<String> = Vec::new();
    v.push(String::from_str(a));
    v.push(String::from_str(b));
    assert(v@.map_values(|s: String| s@) =~= seq![a@, b@]);
    v
}

impl GatewayCall {
    /// The executable this call runs.
    pub fn program(&self) -> (r: String)
        ensures
            r@ == program_of(*self),
    {
        match self {
            GatewayCall::Probe | GatewayCall::Attach { .. } | GatewayCall::Ps { .. } => {
                String::from_str("docker")
            },
            GatewayCall::Up { .. } | GatewayCall::Down { .. } | GatewayCall::Logs { .. } => {
                String::from_str("docker-compose")
            },
            GatewayCall::ArchiveCreate { .. } | GatewayCall::ArchiveExtract { .. } => {
                String::from_str("tar")
            },
        }
    }

    /// The directory this call runs in, if it needs one.
    pub fn workdir(&self) -> (r: Option<String>)
        ensures
            r matches Some(d) ==> workdir_of(*self) == Some(d@),
            r is None ==> workdir_of(*self) is None,
    {
        match self {
            GatewayCall::Up { dir } => Some(dir.clone()),
            GatewayCall::Down { dir } => Some(dir.clone()),
            GatewayCall::Logs { dir, .. } => Some(dir.clone()),
            GatewayCall::ArchiveCreate { dir, .. } => Some(dir.clone()),
            GatewayCall::ArchiveExtract { dir, .. } => Some(dir.clone()),
            _ => None,
        }
    }

    /// The arguments this call passes.
    pub fn args(&self) -> (r: Vec<String>)
        ensures
            r@.map_values(|s: String| s@) == args_of(*self),
    {
        match self {
            GatewayCall::Probe => strings1("--version"),
            GatewayCall::Up { .. } => strings2("up", "-d"),
            GatewayCall::Down { .. } => strings1("down"),
            GatewayCall::Logs { follow, .. } => if *follow {
                strings2("logs", "-f")
            } else {
                strings1("logs")
            },
            GatewayCall::Attach { container } => strings2("attach", container.as_str()),
            GatewayCall::Ps { container } => {
                let mut v: Vec<String> = Vec::new();
                v.push(String::from_str("ps"));
                v.push(String::from_str("-q"));
                v.push(String::from_str("-f"));
                v.push(String::from_str("name=").concat(container.as_str()));
                assert(v@.map_values(|s: String| s@) =~= args_of(*self));
                v
            },
            GatewayCall::ArchiveCreate { dest, .. } => {
                let mut v: Vec<String> = Vec::new();
                v.push(String::from_str("-czf"));
                v.push(dest.clone());
                v.push(String::from_str("."));
                assert(v@.map_values(|s: String| s@) =~= args_of(*self));
                v
            },
            GatewayCall::ArchiveExtract { src, .. } => strings2("-xzf", src.as_str()),
        }
    }

    /// What became of this call, given whether the tool exited with status zero
    /// and what it wrote to its error stream.
    pub fn outcome(&self, success: bool, stderr: String) -> (r: Result<(), ServerError>)
        ensures
            success <==> r is Ok,
            r matches Err(e) ==> (e matches ServerError::DockerCommandFailed(m)
                && m@ == failure_message_of(*self, stderr@)),
    {
        if success {
            Ok(())
        } else {
            let m = match self {
                GatewayCall::Logs { .. } => String::from_str("Failed to show logs"),
                GatewayCall::Attach { .. } => String::from_str("Failed to attach to console"),
                _ => stderr,
            };
            Err(ServerError::DockerCommandFailed(m))
        }
    }
}

/// The status of a container, from what a `Ps` call wrote to its output: a
/// running container prints its id, a stopped one nothing.
pub fn status_from_ps(stdout: &Vec<u8>) -> (r: ServerStatus)
    ensures
        r == (if stdout@.len() > 0 { ServerStatus::Running } else { ServerStatus::Stopped }),
{
    if stdout.len() > 0 {
        ServerStatus::Running
    } else {
        ServerStatus::Stopped
    }
}

} // verus!
