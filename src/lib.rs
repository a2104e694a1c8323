//! Registry, descriptor generation and lifecycle decisions for a manager of
//! containerised game servers.
//!
//! The library holds the logic as plain values: the registry of named servers,
//! the orchestration descriptor derived from each entry, the argument templates
//! of the external tools, and the decisions each lifecycle operation takes from
//! the outcomes it is handed. Reading and writing files and running processes is
//! left to the caller.

mod descriptor;
mod error;
mod gateway;
pub mod laws;
mod lifecycle;
mod names;
mod registry;

pub use error::{IoKind, ServerError};
pub use names::{container_name, data_path_for, is_valid_server_name};
pub use registry::{ModLoader, ServerConfig, ServerInfo, ServerType, Timestamp};
pub use descriptor::{environment_for, generate, ComposeConfig, MinecraftService};
pub use gateway::{status_from_ps, GatewayCall, ServerStatus};
pub use lifecycle::{
    backup_file, create_server, finish_remove, plan_attach, plan_backup, plan_logs, plan_remove,
    plan_restore, plan_start, plan_stop, record_start, status_call, CreateRequest, RemovePlan,
    RestorePlan,
};
