use vstd::prelude::*;
use crate::descriptor::{describes, env_of, views};
use crate::lifecycle::{records, CreateRequest};
use crate::names::{name_char, valid_name};
use crate::registry::{loader_of, ServerConfig, ServerInfo, Timestamp};
use crate::descriptor::ComposeConfig;

verus! {

/// Creating a server under a free, valid name and reading the registry back
/// gives the old registry with exactly that name added, holding the fields that
/// were asked for, and a document whose environment is derived from them.
pub proof fn create_then_load(
    config: ServerConfig,
    req: CreateRequest,
    base: Seq<char>,
    now: Timestamp,
    loaded: Map<Seq<char>, ServerInfo>,
    d: ComposeConfig,
)
    requires
        config.wf(),
        valid_name(req.name@),
        !config@.contains_key(req.name@),
        loaded == config@.insert(req.name@, loaded[req.name@]),
        records(loaded[req.name@], req, base, now),
        describes(d, req.name@, loaded[req.name@]),
    ensures
        loaded.dom() == config@.dom().insert(req.name@),
        forall|k: Seq<char>| k != req.name@ && #[trigger] config@.contains_key(k) ==> loaded[k]
            == config@[k],
        loaded[req.name@].server_type == req.server_type,
        loaded[req.name@].version == req.version,
        loaded[req.name@].memory == req.memory,
        loaded[req.name@].port == req.port,
        loaded[req.name@].java_args == req.java_args,
        loaded[req.name@].mod_loader == loader_of(req.server_type),
        loaded[req.name@].last_started is None,
        views(d.service.environment@) == env_of(loaded[req.name@]),
        d.service_name@ == req.name@,
{
    assert(loaded.dom() =~= config@.dom().insert(req.name@));
}

/// A name holding a space or a `/` is not a valid server name, so creating a
/// server under it fails before anything changes.
pub proof fn space_or_slash_invalidates(s: Seq<char>, i: int)
    requires
        0 <= i < s.len(),
        s[i] == ' ' || s[i] == '/',
    ensures
        !valid_name(s),
{
    assert(!name_char(s[i]));
}

/// After a removal goes through, the registry no longer holds the name and
/// holds every other entry as before.
pub proof fn remove_then_load(config: ServerConfig, name: Seq<char>, loaded: Map<Seq<char>, ServerInfo>)
    requires
        config.wf(),
        loaded == config@.remove(name),
    ensures
        !loaded.contains_key(name),
        loaded.dom() == config@.dom().remove(name),
        forall|k: Seq<char>| k != name && #[trigger] config@.contains_key(k) ==> loaded.contains_key(k)
            && loaded[k] == config@[k],
{
    assert(loaded.dom() =~= config@.dom().remove(name));
}

} // verus!
