use vstd::prelude::*;

verus! {

/// What kind of filesystem failure an `Io` error reports.
#[derive(Debug, Clone, Copy, PartialEq, Eq, Structural)]
pub enum IoKind {
    NotFound,
    Other,
}

/// Every way an operation of the manager can fail.
#[derive(Debug, Clone)]
pub enum ServerError {
    /// A filesystem operation failed.
    Io { kind: IoKind, message: String },
    /// No server of that name is registered.
    ServerNotFound(String),
    /// A server of that name is already registered.
    ServerExists(String),
    /// The container runtime is not available.
    DockerNotInstalled,
    /// The registry file could not be read or written as JSON.
    ConfigParse(String),
    /// The descriptor could not be written as YAML.
    YamlError(String),
    /// The name holds a character outside letters, digits, `-` and `_`.
    InvalidServerName(String),
    /// An external command exited with a non-zero status.
    DockerCommandFailed(String),
    /// The interactive prompt failed.
    DialogError(String),
}

} // verus!
