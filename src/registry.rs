use vstd::prelude::*;
use crate::names::valid_name;

verus! {

/// An instant in UTC: whole seconds since the Unix epoch and the nanoseconds
/// past that second.
#[derive(Debug, Clone, Copy, PartialEq, Eq, Structural)]
pub struct Timestamp {
    pub secs: i64,
    pub nanos: u32,
}

/// The server software a server runs.
#[derive(Debug, Clone, Copy, PartialEq, Eq, Structural)]
pub enum ServerType {
    Vanilla,
    Paper,
    Forge,
    Fabric,
    Spigot,
    Purpur,
}

/// A modding runtime layered onto a server.
#[derive(Debug, Clone, Copy, PartialEq, Eq, Structural)]
pub enum ModLoader {
    Forge,
    Fabric,
}

/// The label under which a server type is stored and handed to the container.
pub open spec fn type_label(t: ServerType) -> Seq<char> {
    match t {
        ServerType::Vanilla => "VANILLA"@,
        ServerType::Paper => "PAPER"@,
        ServerType::Forge => "FORGE"@,
        ServerType::Fabric => "FABRIC"@,
        ServerType::Spigot => "SPIGOT"@,
        ServerType::Purpur => "PURPUR"@,
    }
}

/// The label of a mod loader.
pub open spec fn loader_label(l: ModLoader) -> Seq<char> {
    match l {
        ModLoader::Forge => "FORGE"@,
        ModLoader::Fabric => "FABRIC"@,
    }
}

/// The mod loader that comes with a server type, if any.
pub open spec fn loader_of(t: ServerType) -> Option<ModLoader> {
    match t {
        ServerType::Forge => Some(ModLoader::Forge),
        ServerType::Fabric => Some(ModLoader::Fabric),
        _ => None,
    }
}

impl ServerType {
    /// The label of this server type.
    pub fn label(&self) -> (r: String)
        ensures
            r@ == type_label(*self),
    {
        match self {
            ServerType::Vanilla => String::from_str("VANILLA"),
            ServerType::Paper => String::from_str("PAPER"),
            ServerType::Forge => String::from_str("FORGE"),
            ServerType::Fabric => String::from_str("FABRIC"),
            ServerType::Spigot => String::from_str("SPIGOT"),
            ServerType::Purpur => String::from_str("PURPUR"),
        }
    }

    /// The server type with label `s`, if `s` is one.
    pub fn from_label(s: &str) -> (r: Option<ServerType>)
        ensures
            r matches Some(t) ==> type_label(t) == s@,
            r is None ==> forall|t: ServerType| type_label(t) != s@,
    {
        proof {
            reveal_strlit("VANILLA");
            reveal_strlit("PAPER");
            reveal_strlit("FORGE");
            reveal_strlit("FABRIC");
            reveal_strlit("SPIGOT");
            reveal_strlit("PURPUR");
        }
        let all = [
            ServerType::Vanilla,
            ServerType::Paper,
            ServerType::Forge,
            ServerType::Fabric,
            ServerType::Spigot,
            ServerType::Purpur,
        ];
        let wanted = String::from_str(s);
        let mut i: usize = 0;
        while i < 6
            invariant
                i <= 6,
                wanted@ == s@,
                all@ == seq![ServerType::Vanilla, ServerType::Paper, ServerType::Forge,
                    ServerType::Fabric, ServerType::Spigot, ServerType::Purpur],
                forall|j: int| 0 <= j < i ==> type_label(#[trigger] all@[j]) != s@,
            decreases 6 - i,
        {
            let t = all[i];
            let l = t.label();
            if l == wanted {
                return Some(t);
            }
            i = i + 1;
        }
        proof {
            assert forall|t: ServerType| type_label(t) != s@ by {
                match t {
                    ServerType::Vanilla => assert(all@[0] == t),
                    ServerType::Paper => assert(all@[1] == t),
                    ServerType::Forge => assert(all@[2] == t),
                    ServerType::Fabric => assert(all@[3] == t),
                    ServerType::Spigot => assert(all@[4] == t),
                    ServerType::Purpur => assert(all@[5] == t),
                }
            }
        }
        None
    }

    /// The mod loader that comes with this server type, if any.
    pub fn mod_loader(&self) -> (r: Option<ModLoader>)
        ensures
            r == loader_of(*self),
    {
        match self {
            ServerType::Forge => Some(ModLoader::Forge),
            ServerType::Fabric => Some(ModLoader::Fabric),
            _ => None,
        }
    }
}

impl ModLoader {
    /// The label of this mod loader.
    pub fn label(&self) -> (r: String)
        ensures
            r@ == loader_label(*self),
    {
        match self {
            ModLoader::Forge => String::from_str("FORGE"),
            ModLoader::Fabric => String::from_str("FABRIC"),
        }
    }
}

/// What the registry holds of one server.
#[derive(Debug, Clone)]
pub struct ServerInfo {
    pub version: String,
    pub port: String,
    pub memory: String,
    pub data_path: String,
    pub server_type: ServerType,
    pub mod_loader: Option<ModLoader>,
    pub mod_loader_version: Option<String>,
    pub java_args: Option<String>,
    pub created_at: Timestamp,
    pub last_started: Option<Timestamp>,
}

/// `info` with its last start set to `ts`.
pub open spec fn started_at(info: ServerInfo, ts: Timestamp) -> ServerInfo {
    ServerInfo { last_started: Some(ts), ..info }
}

/// What an entry list says of name `k`: the entry stored last under it.
pub open spec fn lookup(s: Seq<(String, ServerInfo)>, k: Seq<char>) -> Option<ServerInfo>
    decreases s.len(),
{
    if s.len() == 0 {
        None
    } else if s.last().0@ == k {
        Some(s.last().1)
    } else {
        lookup(s.drop_last(), k)
    }
}

/// No two entries share a name.
pub open spec fn keys_unique(s: Seq<(String, ServerInfo)>) -> bool {
    forall|i: int, j: int| 0 <= i < j < s.len() ==> s[i].0@ != s[j].0@
}

/// A name is absent exactly when no entry carries it.
proof fn lemma_lookup_none(s: Seq<(String, ServerInfo)>, k: Seq<char>)
    ensures
        lookup(s, k) is None <==> (forall|i: int| 0 <= i < s.len() ==> s[i].0@ != k),
    decreases s.len(),
{
    if s.len() > 0 {
        lemma_lookup_none(s.drop_last(), k);
        if lookup(s, k) is None {
            assert forall|i: int| 0 <= i < s.len() implies s[i].0@ != k by {
                if i < s.len() - 1 {
                    assert(s.drop_last()[i] == s[i]);
                }
            }
        } else if s.last().0@ != k {
            let i = choose|i: int| 0 <= i < s.drop_last().len() && s.drop_last()[i].0@ == k;
            assert(s[i] == s.drop_last()[i]);
        }
    }
}

/// With unique names, each entry is what its name looks up.
proof fn lemma_lookup_at(s: Seq<(String, ServerInfo)>, i: int)
    requires
        keys_unique(s),
        0 <= i < s.len(),
    ensures
        lookup(s, s[i].0@) == Some(s[i].1),
    decreases s.len(),
{
    if i < s.len() - 1 {
        assert(s.drop_last()[i] == s[i]);
        lemma_lookup_at(s.drop_last(), i);
    }
}

/// Appending an entry puts it in front of what was stored under its name.
proof fn lemma_lookup_push(s: Seq<(String, ServerInfo)>, e: (String, ServerInfo))
    ensures
        forall|k: Seq<char>| #[trigger] lookup(s.push(e), k)
            == if k == e.0@ { Some(e.1) } else { lookup(s, k) },
{
    assert(s.push(e).drop_last() =~= s);
}

/// Replacing an entry by one of the same name changes that name's lookup only.
proof fn lemma_lookup_update(s: Seq<(String, ServerInfo)>, i: int, e: (String, ServerInfo))
    requires
        keys_unique(s),
        0 <= i < s.len(),
        e.0@ == s[i].0@,
    ensures
        keys_unique(s.update(i, e)),
        forall|k: Seq<char>| #[trigger] lookup(s.update(i, e), k)
            == if k == e.0@ { Some(e.1) } else { lookup(s, k) },
    decreases s.len(),
{
    let u = s.update(i, e);
    assert forall|a: int, b: int| 0 <= a < b < u.len() implies u[a].0@ != u[b].0@ by {
        assert(s[a].0@ != s[b].0@);
    }
    if i == s.len() - 1 {
        assert(u.drop_last() =~= s.drop_last());
        assert forall|k: Seq<char>| #[trigger] lookup(u, k)
            == if k == e.0@ { Some(e.1) } else { lookup(s, k) } by {
            assert(u.last() == e);
        }
    } else {
        assert(u.drop_last() =~= s.drop_last().update(i, e));
        lemma_lookup_update(s.drop_last(), i, e);
        assert(s.last().0@ != e.0@);
        assert forall|k: Seq<char>| #[trigger] lookup(u, k)
            == if k == e.0@ { Some(e.1) } else { lookup(s, k) } by {
            assert(u.last() == s.last());
            assert(lookup(u.drop_last(), k) == lookup(s.drop_last().update(i, e), k));
        }
    }
}

/// Taking an entry out removes its name and nothing else.
proof fn lemma_lookup_remove(s: Seq<(String, ServerInfo)>, i: int)
    requires
        keys_unique(s),
        0 <= i < s.len(),
    ensures
        keys_unique(s.remove(i)),
        forall|k: Seq<char>| #[trigger] lookup(s.remove(i), k)
            == if k == s[i].0@ { None } else { lookup(s, k) },
    decreases s.len(),
{
    let r = s.remove(i);
    assert forall|a: int, b: int| 0 <= a < b < r.len() implies r[a].0@ != r[b].0@ by {
        let a2 = if a < i { a } else { a + 1 };
        let b2 = if b < i { b } else { b + 1 };
        assert(r[a] == s[a2]);
        assert(r[b] == s[b2]);
    }
    if i == s.len() - 1 {
        assert(r =~= s.drop_last());
        lemma_lookup_none(s.drop_last(), s[i].0@);
        assert forall|j: int| 0 <= j < s.drop_last().len() implies s.drop_last()[j].0@
            != s[i].0@ by {
            assert(s.drop_last()[j] == s[j]);
        }
        assert forall|k: Seq<char>| #[trigger] lookup(r, k)
            == if k == s[i].0@ { None } else { lookup(s, k) } by {
            assert(s.last() == s[i]);
        }
    } else {
        assert(r.drop_last() =~= s.drop_last().remove(i));
        assert(r.last() == s.last());
        lemma_lookup_remove(s.drop_last(), i);
        assert(s.last().0@ != s[i].0@);
        assert(s.drop_last()[i] == s[i]);
        assert forall|k: Seq<char>| #[trigger] lookup(r, k)
            == if k == s[i].0@ { None } else { lookup(s, k) } by {
            assert(lookup(r.drop_last(), k) == lookup(s.drop_last().remove(i), k));
        }
    }
}

/// The registry: each registered server's name and what is known of it.
#[derive(Debug, Clone)]
pub struct ServerConfig {
    entries: Vec<(String, ServerInfo)>,
}

impl View for ServerConfig {
    type V = Map<Seq<char>, ServerInfo>;

    closed spec fn view(&self) -> Map<Seq<char>, ServerInfo> {
        Map::new(
            |k: Seq<char>| lookup(self.entries@, k) is Some,
            |k: Seq<char>| lookup(self.entries@, k)->Some_0,
        )
    }
}

impl ServerConfig {
    /// No two entries of the registry share a name, and each name is valid.
    pub closed spec fn wf(&self) -> bool {
        &&& keys_unique(self.entries@)
        &&& forall|i: int| 0 <= i < self.entries@.len() ==> valid_name(#[trigger] self.entries@[i].0@)
    }

    /// Every registered name is a valid server name.
    pub proof fn lemma_names_valid(&self, k: Seq<char>)
        requires
            self.wf(),
            self@.contains_key(k),
        ensures
            valid_name(k),
    {
        lemma_lookup_none(self.entries@, k);
    }

    /// An empty registry.
    pub fn new() -> (r: ServerConfig)
        ensures
            r.wf(),
            r@ == Map::<Seq<char>, ServerInfo>::empty(),
    {
        let r = ServerConfig { entries: Vec::new() };
        assert(r@ =~= Map::<Seq<char>, ServerInfo>::empty());
        r
    }

    /// Where `name` stands in the entry list, if anywhere.
    fn find(&self, name: &str) -> (r: Option<usize>)
        ensures
            r matches Some(i) ==> i < self.entries@.len() && self.entries@[i as int].0@ == name@,
            r is None ==> forall|j: int|
                0 <= j < self.entries@.len() ==> self.entries@[j].0@ != name@,
    {
        let target = String::from_str(name);
        let mut i: usize = 0;
        while i < self.entries.len()
            invariant
                target@ == name@,
                i <= self.entries@.len(),
                forall|j: int| 0 <= j < i ==> self.entries@[j].0@ != name@,
            decreases self.entries@.len() - i,
        {
            if self.entries[i].0 == target {
                return Some(i);
            }
            i = i + 1;
        }
        None
    }

    /// Whether no server is registered.
    pub fn is_empty(&self) -> (r: bool)
        ensures
            r == (self@ == Map::<Seq<char>, ServerInfo>::empty()),
    {
        let r = self.entries.len() == 0;
        if r {
            assert(self@ =~= Map::<Seq<char>, ServerInfo>::empty());
        } else {
            let ghost s = self.entries@;
            assert(self@.contains_key(s.last().0@));
        }
        r
    }

    /// Whether a server named `name` is registered.
    pub fn contains(&self, name: &str) -> (r: bool)
        ensures
            r == self@.contains_key(name@),
    {
        let f = self.find(name);
        proof {
            lemma_lookup_none(self.entries@, name@);
        }
        f.is_some()
    }

    /// What the registry holds of server `name`.
    pub fn get(&self, name: &str) -> (r: Option<&ServerInfo>)
        requires
            self.wf(),
        ensures
            r matches Some(info) ==> self@.contains_key(name@) && *info == self@[name@],
            r is None ==> !self@.contains_key(name@),
    {
        match self.find(name) {
            Some(i) => {
                proof {
                    lemma_lookup_at(self.entries@, i as int);
                }
                Some(&self.entries[i].1)
            },
            None => {
                proof {
                    lemma_lookup_none(self.entries@, name@);
                }
                None
            },
        }
    }

    /// The names of all registered servers, each once, in no promised order.
    pub fn names(&self) -> (r: Vec<String>)
        requires
            self.wf(),
        ensures
            forall|i: int, j: int| 0 <= i < j < r@.len() ==> r@[i]@ != r@[j]@,
            forall|k: Seq<char>|
                self@.contains_key(k) <==> exists|i: int| 0 <= i < r@.len() && r@[i]@ == k,
    {
        let mut r: Vec<String> = Vec::new();
        let mut i: usize = 0;
        while i < self.entries.len()
            invariant
                self.wf(),
                i <= self.entries@.len(),
                r@.len() == i,
                forall|j: int| 0 <= j < i ==> r@[j]@ == self.entries@[j].0@,
            decreases self.entries@.len() - i,
        {
            let n = self.entries[i].0.clone();
            r.push(n);
            i = i + 1;
        }
        proof {
            let s = self.entries@;
            assert forall|k: Seq<char>|
                self@.contains_key(k) <==> exists|i: int| 0 <= i < r@.len() && r@[i]@ == k by {
                lemma_lookup_none(s, k);
                if self@.contains_key(k) {
                    let i = choose|i: int| 0 <= i < s.len() && s[i].0@ == k;
                    assert(r@[i]@ == k);
                } else if exists|i: int| 0 <= i < r@.len() && r@[i]@ == k {
                    let i = choose|i: int| 0 <= i < r@.len() && r@[i]@ == k;
                    assert(s[i].0@ == k);
                }
            }
        }
        r
    }

    /// Registers a server under a name not yet present.
    pub fn insert_new(&mut self, name: String, info: ServerInfo)
        requires
            old(self).wf(),
            valid_name(name@),
            !old(self)@.contains_key(name@),
        ensures
            final(self).wf(),
            final(self)@ == old(self)@.insert(name@, info),
    {
        proof {
            lemma_lookup_none(self.entries@, name@);
            lemma_lookup_push(self.entries@, (name, info));
        }
        let ghost before = self.entries@;
        self.entries.push((name, info));
        proof {
            assert forall|a: int, b: int|
                0 <= a < b < self.entries@.len() implies self.entries@[a].0@
                != self.entries@[b].0@ by {
                if b < before.len() {
                    assert(before[a] == self.entries@[a]);
                    assert(before[b] == self.entries@[b]);
                } else {
                    assert(before[a] == self.entries@[a]);
                }
            }
        }
        assert(self@ =~= old(self)@.insert(name@, info));
    }

    /// Takes server `name` out of the registry; nothing changes if it is absent.
    pub fn remove(&mut self, name: &str)
        requires
            old(self).wf(),
        ensures
            final(self).wf(),
            final(self)@ == old(self)@.remove(name@),
    {
        match self.find(name) {
            Some(i) => {
                proof {
                    lemma_lookup_remove(self.entries@, i as int);
                }
                let ghost s = self.entries@;
                self.entries.remove(i);
                assert forall|j: int| 0 <= j < self.entries@.len() implies valid_name(
                    #[trigger] self.entries@[j].0@,
                ) by {
                    if j < i {
                        assert(self.entries@[j] == s[j]);
                    } else {
                        assert(self.entries@[j] == s[j + 1]);
                    }
                }
                assert(self@ =~= old(self)@.remove(name@));
            },
            None => {
                proof {
                    lemma_lookup_none(self.entries@, name@);
                }
                assert(self@ =~= old(self)@.remove(name@));
            },
        }
    }

    /// Records that server `name` was started at `ts`; nothing changes if it is
    /// absent.
    pub fn set_last_started(&mut self, name: &str, ts: Timestamp)
        requires
            old(self).wf(),
        ensures
            final(self).wf(),
            old(self)@.contains_key(name@) ==> final(self)@ == old(self)@.insert(
                name@,
                started_at(old(self)@[name@], ts),
            ),
            !old(self)@.contains_key(name@) ==> final(self)@ == old(self)@,
    {
        match self.find(name) {
            Some(i) => {
                let ghost s = self.entries@;
                let (n, mut info) = self.entries.remove(i);
                info.last_started = Some(ts);
                let ghost e = (n, info);
                self.entries.insert(i, (n, info));
                proof {
                    assert(self.entries@ =~= s.update(i as int, e));
                    lemma_lookup_update(s, i as int, e);
                    lemma_lookup_at(s, i as int);
                    assert(info == started_at(old(self)@[name@], ts));
                    assert forall|j: int| 0 <= j < self.entries@.len() implies valid_name(
                        #[trigger] self.entries@[j].0@,
                    ) by {
                        assert(s[j].0@ == self.entries@[j].0@);
                    }
                }
                assert(self@ =~= old(self)@.insert(name@, started_at(old(self)@[name@], ts)));
            },
            None => {
                proof {
                    lemma_lookup_none(self.entries@, name@);
                }
                assert(self@ =~= old(self)@);
            },
        }
    }
}

} // verus!
