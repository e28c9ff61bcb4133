//! Server configuration: the tunnel registry and its merge policy.

use vstd::prelude::*;
use crate::config::{ConfigError, ConnectionConfig, ConnectionSource, Field, LogConfig, LogSource, TunnelConfig, TunnelSource, overlay, overlay_spec};

verus! {

/// Whether some tunnel of `s` carries the name `n`.
pub open spec fn has_name(s: Seq<TunnelConfig>, n: Seq<char>) -> bool {
    exists|i: int| 0 <= i < s.len() && #[trigger] s[i].name@ == n
}

/// No two tunnels of `s` share a name.
pub open spec fn names_unique(s: Seq<TunnelConfig>) -> bool {
    forall|i: int, j: int|
        0 <= i < s.len() && 0 <= j < s.len() && i != j ==> #[trigger] s[i].name@ != #[trigger] s[j].name@
}

/// Registers one tunnel: it is appended unless its name is already taken.
pub open spec fn register_one(s: Seq<TunnelConfig>, t: TunnelConfig) -> Seq<TunnelConfig> {
    if has_name(s, t.name@) {
        s
    } else {
        s.push(t)
    }
}

/// The registry after registering each of `found`, in order, into `base`.
pub open spec fn registered(base: Seq<TunnelConfig>, found: Seq<TunnelConfig>) -> Seq<TunnelConfig>
    decreases found.len(),
{
    if found.len() == 0 {
        base
    } else {
        registered(register_one(base, found[0]), found.drop_first())
    }
}

/// The entries of `found` that registration into `base` drops, in order.
pub open spec fn rejected(base: Seq<TunnelConfig>, found: Seq<TunnelConfig>) -> Seq<TunnelConfig>
    decreases found.len(),
{
    if found.len() == 0 {
        seq![]
    } else {
        let head = if has_name(base, found[0].name@) {
            seq![found[0]]
        } else {
            seq![]
        };
        head + rejected(register_one(base, found[0]), found.drop_first())
    }
}

proof fn lemma_register_one(s: Seq<TunnelConfig>, t: TunnelConfig)
    requires
        names_unique(s),
    ensures
        names_unique(register_one(s, t)),
        register_one(s, t).len() >= s.len(),
        register_one(s, t).subrange(0, s.len() as int) == s,
        has_name(register_one(s, t), t.name@),
        forall|n: Seq<char>| has_name(s, n) ==> has_name(register_one(s, t), n),
{
    let r = register_one(s, t);
    if has_name(s, t.name@) {
        assert(r.subrange(0, s.len() as int) =~= s);
    } else {
        assert(r.subrange(0, s.len() as int) =~= s);
        assert(r[s.len() as int] == t);
        assert forall|n: Seq<char>| has_name(s, n) implies has_name(r, n) by {
            let i = choose|i: int| 0 <= i < s.len() && #[trigger] s[i].name@ == n;
            assert(r[i] == s[i]);
        }
    }
}

/// First registration wins: registering discovered tunnels into a registry
/// with unique names keeps every entry already there, in place and
/// unchanged, keeps names unique, and leaves every discovered name
/// registered. A discovered tunnel whose name was already registered is
/// reported among the rejected entries.
pub proof fn lemma_first_registration_wins(base: Seq<TunnelConfig>, found: Seq<TunnelConfig>)
    requires
        names_unique(base),
    ensures
        names_unique(registered(base, found)),
        registered(base, found).len() >= base.len(),
        registered(base, found).subrange(0, base.len() as int) == base,
        forall|k: int| 0 <= k < found.len() ==> has_name(registered(base, found), #[trigger] found[k].name@),
        forall|k: int|
            0 <= k < found.len() && has_name(base, #[trigger] found[k].name@) ==> rejected(base, found).contains(found[k]),
        forall|n: Seq<char>| has_name(base, n) ==> has_name(registered(base, found), n),
    decreases found.len(),
{
    if found.len() > 0 {
        let next = register_one(base, found[0]);
        let rest = found.drop_first();
        lemma_register_one(base, found[0]);
        lemma_first_registration_wins(next, rest);
        let r = registered(base, found);
        assert(r == registered(next, rest));
        assert(r.subrange(0, base.len() as int) =~= r.subrange(0, next.len() as int).subrange(0, base.len() as int));
        assert forall|k: int| 0 <= k < found.len() implies has_name(r, #[trigger] found[k].name@) by {
            if k > 0 {
                assert(found[k] == rest[k - 1]);
            }
        }
        let head = if has_name(base, found[0].name@) {
            seq![found[0]]
        } else {
            seq![]
        };
        assert(rejected(base, found) == head + rejected(next, rest));
        assert forall|k: int|
            0 <= k < found.len() && has_name(base, #[trigger] found[k].name@) implies rejected(base, found).contains(found[k]) by {
            if k == 0 {
                assert((head + rejected(next, rest))[0] == found[0]);
            } else {
                assert(found[k] == rest[k - 1]);
                let j = choose|j: int| 0 <= j < rejected(next, rest).len() && rejected(next, rest)[j] == found[k];
                assert((head + rejected(next, rest))[head.len() + j] == found[k]);
            }
        }
    }
}

/// Whether some tunnel of `tunnels` is named `name`.
fn contains_name(tunnels: &Vec<TunnelConfig>, name: &String) -> (r: bool)
    ensures
        r == has_name(tunnels@, name@),
{
    let mut i: usize = 0;
    while i < tunnels.len()
        invariant
            i <= tunnels.len(),
            forall|j: int| 0 <= j < i ==> #[trigger] tunnels@[j].name@ != name@,
        decreases tunnels.len() - i,
    {
        if tunnels[i].name == *name {
            return true;
        }
        i = i + 1;
    }
    false
}

/// Registers each of `discovered`, in order, into `tunnels`; an entry whose
/// name is already taken is dropped and handed back, the existing one kept.
pub fn register_tunnels(tunnels: &mut Vec<TunnelConfig>, discovered: Vec<TunnelConfig>) -> (dropped: Vec<TunnelConfig>)
    ensures
        final(tunnels)@ == registered(old(tunnels)@, discovered@),
        dropped@ == rejected(old(tunnels)@, discovered@),
{
    let mut rest = discovered;
    let mut dropped: Vec<TunnelConfig> = Vec::new();
    while rest.len() > 0
        invariant
            registered(tunnels@, rest@) == registered(old(tunnels)@, discovered@),
            dropped@ + rejected(tunnels@, rest@) == rejected(old(tunnels)@, discovered@),
        decreases rest.len(),
    {
        let ghost rest0 = rest@;
        let ghost dropped0 = dropped@;
        let ghost before = tunnels@;
        let t = rest.remove(0);
        proof {
            assert(rest@ =~= rest0.drop_first());
        }
        if contains_name(tunnels, &t.name) {
            dropped.push(t);
            proof {
                assert(dropped@ + rejected(tunnels@, rest@) =~= dropped0 + rejected(before, rest0));
            }
        } else {
            tunnels.push(t);
            proof {
                assert(rejected(before, rest0) =~= rejected(tunnels@, rest@));
            }
        }
    }
    dropped
}


/// The configuration of a server hosting one or more named tunnels.
#[derive(Clone, Debug, PartialEq, Eq)]
pub struct ServerConfig {
    /// A directory holding one further tunnel configuration file per entry
    pub tunnel_path: Option<String>,
    /// The tunnels of this server, no two with one name
    pub tunnels: Vec<TunnelConfig>,
    /// Connection configuration shared by all tunnels
    pub connection: ConnectionConfig,
    /// Logging configuration
    pub log: LogConfig,
}

impl ServerConfig {
    pub open spec fn wf(&self) -> bool {
        names_unique(self.tunnels@)
    }

    /// Merges tunnels found by directory discovery into this server's
    /// tunnels, first registration winning; returns the entries dropped
    /// because their name was taken.
    pub fn add_discovered(&mut self, discovered: Vec<TunnelConfig>) -> (dropped: Vec<TunnelConfig>)
        requires
            old(self).wf(),
        ensures
            final(self).wf(),
            final(self).tunnels@ == registered(old(self).tunnels@, discovered@),
            dropped@ == rejected(old(self).tunnels@, discovered@),
            final(self).tunnel_path == old(self).tunnel_path,
            final(self).connection == old(self).connection,
            final(self).log == old(self).log,
    {
        proof {
            lemma_first_registration_wins(self.tunnels@, discovered@);
        }
        register_tunnels(&mut self.tunnels, discovered)
    }
}

/// Each source of `s` resolved in order; the first failure, if any.
pub open spec fn resolve_all(s: Seq<(String, TunnelSource)>) -> Result<Seq<TunnelConfig>, ConfigError>
    decreases s.len(),
{
    if s.len() == 0 {
        Ok(seq![])
    } else {
        match s[0].1.resolved_spec() {
            Err(e) => Err(e),
            Ok(t) => match resolve_all(s.drop_first()) {
                Err(e) => Err(e),
                Ok(rest) => Ok(seq![t] + rest),
            },
        }
    }
}

/// Resolves every tunnel source, in order, stopping at the first failure.
pub fn resolve_tunnels(sources: Vec<(String, TunnelSource)>) -> (r: Result<Vec<TunnelConfig>, ConfigError>)
    ensures
        match (r, resolve_all(sources@)) {
            (Ok(v), Ok(w)) => v@ == w,
            (Err(e), Err(f)) => e == f,
            _ => false,
        },
{
    let mut rest = sources;
    let mut done: Vec<TunnelConfig> = Vec::new();
    while rest.len() > 0
        invariant
            match resolve_all(sources@) {
                Ok(w) => resolve_all(rest@) is Ok && w == done@ + resolve_all(rest@)->Ok_0,
                Err(f) => resolve_all(rest@) == Err::<Seq<TunnelConfig>, ConfigError>(f),
            },
        decreases rest.len(),
    {
        let ghost rest0 = rest@;
        let ghost done0 = done@;
        let (_, s) = rest.remove(0);
        proof {
            assert(rest@ =~= rest0.drop_first());
        }
        match s.resolve() {
            Err(e) => {
                return Err(e);
            },
            Ok(t) => {
                done.push(t);
                proof {
                    if resolve_all(sources@) is Ok {
                        assert(done@ + resolve_all(rest@)->Ok_0 =~= done0 + resolve_all(rest0)->Ok_0);
                    }
                }
            },
        }
    }
    proof {
        if resolve_all(sources@) is Ok {
            assert(done@ + seq![] =~= done@);
        }
    }
    Ok(done)
}

/// The position of the first entry of `t` keyed `k`, or `t.len()`.
pub open spec fn key_index(t: Seq<(String, TunnelSource)>, k: Seq<char>) -> int
    decreases t.len(),
{
    if t.len() == 0 {
        0
    } else if t[0].0@ == k {
        0
    } else {
        1 + key_index(t.drop_first(), k)
    }
}

proof fn lemma_key_index(t: Seq<(String, TunnelSource)>, k: Seq<char>)
    ensures
        0 <= key_index(t, k) <= t.len(),
        key_index(t, k) < t.len() ==> t[key_index(t, k)].0@ == k,
        forall|j: int| 0 <= j < key_index(t, k) ==> t[j].0@ != k,
    decreases t.len(),
{
    if t.len() > 0 && t[0].0@ != k {
        lemma_key_index(t.drop_first(), k);
        assert forall|j: int| 0 <= j < key_index(t, k) implies t[j].0@ != k by {
            if j > 0 {
                assert(t[j] == t.drop_first()[j - 1]);
            }
        }
    }
}

/// Puts one entry of an upper table onto a lower one: an entry with the
/// same key is layered under it, else the entry is appended.
pub open spec fn table_entry_layered(t: Seq<(String, TunnelSource)>, e: (String, TunnelSource)) -> Seq<(String, TunnelSource)> {
    let i = key_index(t, e.0@);
    if i < t.len() {
        t.update(i, (t[i].0, t[i].1.layered_spec(e.1)))
    } else {
        t.push(e)
    }
}

/// Puts each entry of `over`, in order, onto `base`.
pub open spec fn table_layered(base: Seq<(String, TunnelSource)>, over: Seq<(String, TunnelSource)>) -> Seq<(String, TunnelSource)>
    decreases over.len(),
{
    if over.len() == 0 {
        base
    } else {
        table_layered(table_entry_layered(base, over[0]), over.drop_first())
    }
}

/// Whether `r` is the tunnel table `over` layered onto `base`: merged key
/// by key where both layers hold a table.
pub open spec fn is_table_layering(
    base: Option<Vec<(String, TunnelSource)>>,
    over: Option<Vec<(String, TunnelSource)>>,
    r: Option<Vec<(String, TunnelSource)>>,
) -> bool {
    match (base, over) {
        (Some(b), Some(o)) => r is Some && r->Some_0@ == table_layered(b@, o@),
        _ => r == overlay_spec(base, over),
    }
}

/// Merges the tunnel table `over` into `base` key by key: a tunnel keyed
/// in both is layered setting by setting, one keyed in `over` alone is
/// added.
pub fn layer_tables(
    base: Option<Vec<(String, TunnelSource)>>,
    over: Option<Vec<(String, TunnelSource)>>,
) -> (r: Option<Vec<(String, TunnelSource)>>)
    ensures
        is_table_layering(base, over, r),
{
    match (base, over) {
        (Some(b), Some(o)) => Some(merge_table(b, o)),
        (b, o) => overlay(b, o),
    }
}

fn merge_table(base: Vec<(String, TunnelSource)>, over: Vec<(String, TunnelSource)>) -> (r: Vec<(String, TunnelSource)>)
    ensures
        r@ == table_layered(base@, over@),
{
    let mut table = base;
    let mut rest = over;
    while rest.len() > 0
        invariant
            table_layered(table@, rest@) == table_layered(base@, over@),
        decreases rest.len(),
    {
        let ghost rest0 = rest@;
        let ghost table0 = table@;
        let e = rest.remove(0);
        proof {
            assert(rest@ =~= rest0.drop_first());
            lemma_key_index(table0, e.0@);
        }
        let mut i: usize = 0;
        while i < table.len() && !(table[i].0 == e.0)
            invariant
                table@ == table0,
                i <= table.len(),
                forall|j: int| 0 <= j < i ==> table@[j].0@ != e.0@,
                i <= key_index(table0, e.0@) <= table0.len(),
                key_index(table0, e.0@) < table0.len() ==> table0[key_index(table0, e.0@)].0@ == e.0@,
            decreases table.len() - i,
        {
            i = i + 1;
        }
        if i < table.len() {
            assert(i == key_index(table0, e.0@));
            let (k, s) = table.remove(i);
            table.insert(i, (k, s.layered(e.1)));
            proof {
                assert(table@ =~= table_entry_layered(table0, e));
            }
        } else {
            table.push(e);
            proof {
                assert(table@ =~= table_entry_layered(table0, e));
            }
        }
    }
    table
}

/// One layer of server settings.
#[derive(Clone, Debug, PartialEq, Eq)]
pub struct ServerSource {
    pub tunnel_path: Option<String>,
    pub tunnels: Option<Vec<(String, TunnelSource)>>,
    pub connection: ConnectionSource,
    pub log: LogSource,
}

impl ServerSource {
    /// Whether `r` is the layer `over` put on top of this one.
    pub open spec fn is_layering(self, over: ServerSource, r: ServerSource) -> bool {
        &&& r.tunnel_path == overlay_spec(self.tunnel_path, over.tunnel_path)
        &&& is_table_layering(self.tunnels, over.tunnels, r.tunnels)
        &&& r.connection == self.connection.layered_spec(over.connection)
        &&& r.log == self.log.layered_spec(over.log)
    }

    /// Puts the layer `over` on top of this one, key by key.
    pub fn layered(self, over: ServerSource) -> (r: ServerSource)
        ensures
            self.is_layering(over, r),
    {
        ServerSource {
            tunnel_path: overlay(self.tunnel_path, over.tunnel_path),
            tunnels: layer_tables(self.tunnels, over.tunnels),
            connection: self.connection.layered(over.connection),
            log: self.log.layered(over.log),
        }
    }

    /// The error resolution fails with, if any: an absent tunnel table,
    /// then the first tunnel that fails, then the connection settings.
    pub open spec fn error_spec(self) -> Option<ConfigError> {
        match self.tunnels {
            None => Some(ConfigError::MissingField(Field::Tunnels)),
            Some(ts) => match resolve_all(ts@) {
                Err(e) => Some(e),
                Ok(_) => match self.connection.resolved_spec() {
                    Err(e) => Some(e),
                    Ok(_) => None,
                },
            },
        }
    }

    /// Resolves the base layer of a server configuration: inline tunnels
    /// are registered in order, first registration winning.
    pub fn resolve(self) -> (r: Result<ServerConfig, ConfigError>)
        ensures
            match r {
                Ok(c) => self.error_spec() is None && c.wf() && c.tunnel_path == self.tunnel_path
                    && c.tunnels@ == registered(seq![], resolve_all(self.tunnels->Some_0@)->Ok_0)
                    && Ok::<ConnectionConfig, ConfigError>(c.connection) == self.connection.resolved_spec()
                    && c.log.level@ == self.log.level_spec(),
                Err(e) => self.error_spec() == Some(e),
            },
    {
        let sources = match self.tunnels {
            None => {
                return Err(ConfigError::MissingField(Field::Tunnels));
            },
            Some(ts) => ts,
        };
        let inline = match resolve_tunnels(sources) {
            Err(e) => {
                return Err(e);
            },
            Ok(v) => v,
        };
        let connection = match self.connection.resolve() {
            Err(e) => {
                return Err(e);
            },
            Ok(c) => c,
        };
        let log = self.log.resolve();
        let mut config = ServerConfig { tunnel_path: self.tunnel_path, tunnels: Vec::new(), connection, log };
        proof {
            assert(names_unique(config.tunnels@));
        }
        let _ = config.add_discovered(inline);
        Ok(config)
    }
}

} // verus!
