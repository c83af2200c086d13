//! The connection registry: ids, registration, lookup, listing and closing.
//!
//! A connection is a transport that may address many slaves. The registry
//! holds, for each id, a snapshot of the connection and the caller's handle
//! to the live transport (`H`); opening the transport itself happens between
//! `begin_open` and `open`, outside the registry.
use vstd::prelude::*;
use crate::text::{decimal, decimal_string};
use crate::types::{transport_message, ConnectionConfig, ConnectionId, TransportError};

verus! {

/// Errors raised by the engine layer.
#[derive(Debug, PartialEq, Eq)]
pub enum EngineError {
    /// No connection has this id.
    NotFound(String),
    Transport(TransportError),
}

/// The text that describes an engine error.
pub open spec fn engine_message(e: EngineError) -> Seq<char> {
    match e {
        EngineError::NotFound(id) => "connection not found: "@ + id@,
        EngineError::Transport(t) => "transport error: "@ + transport_message(t),
    }
}

impl EngineError {
    /// The text that describes the error.
    pub fn message(&self) -> (r: String)
        ensures
            r@ == engine_message(*self),
    {
        match self {
            EngineError::NotFound(id) => {
                let mut s = String::from_str("connection not found: ");
                s.append(id.as_str());
                s
            },
            EngineError::Transport(t) => {
                let mut s = String::from_str("transport error: ");
                let m = t.message();
                s.append(m.as_str());
                s
            },
        }
    }
}

impl From<TransportError> for EngineError {
    fn from(e: TransportError) -> (r: EngineError) {
        EngineError::Transport(e)
    }
}

impl vstd::std_specs::convert::FromSpecImpl<TransportError> for EngineError {
    open spec fn obeys_from_spec() -> bool {
        true
    }

    open spec fn from_spec(e: TransportError) -> EngineError {
        EngineError::Transport(e)
    }
}

/// A public snapshot of a connection.
#[derive(Debug, PartialEq, Eq)]
pub struct ConnectionInfo {
    pub id: ConnectionId,
    pub name: String,
    pub config: ConnectionConfig,
}

impl ConnectionInfo {
    /// A copy of `self`.
    pub fn duplicate(&self) -> (r: ConnectionInfo)
        ensures
            r == *self,
    {
        ConnectionInfo {
            id: self.id.duplicate(),
            name: self.name.clone(),
            config: self.config.duplicate(),
        }
    }
}

/// The counter after one id has been drawn from it; it wraps at the top of `u64`.
pub open spec fn next_counter(n: u64) -> u64 {
    if n == u64::MAX {
        0
    } else {
        (n + 1) as u64
    }
}

/// The text of the id that the registry generates from counter value `n`: `c` and `n` in decimal.
pub open spec fn generated_id(n: u64) -> Seq<char> {
    "c"@ + decimal(n as nat)
}

/// A connection whose id is settled and whose transport is still to be opened.
pub struct PendingConnection {
    id: ConnectionId,
    config: ConnectionConfig,
}

impl PendingConnection {
    #[verifier::type_invariant]
    spec fn wf(self) -> bool {
        self.config.id == Some(self.id)
    }

    /// The id the connection will be registered under.
    pub closed spec fn spec_id(self) -> ConnectionId {
        self.id
    }

    /// The configuration, its id filled in.
    pub closed spec fn spec_config(self) -> ConnectionConfig {
        self.config
    }

    /// The id the connection will be registered under.
    pub fn id(&self) -> (r: &ConnectionId)
        ensures
            *r == self.spec_id(),
    {
        &self.id
    }

    /// The configuration, its id filled in.
    pub fn config(&self) -> (r: &ConnectionConfig)
        ensures
            *r == self.spec_config(),
            r.id == Some(self.spec_id()),
    {
        proof {
            use_type_invariant(self);
        }
        &self.config
    }
}

struct Registered<H> {
    info: ConnectionInfo,
    handle: H,
}

/// Registry of live Modbus connections.
pub struct ConnectionManager<H> {
    connections: Vec<Registered<H>>,
    next_id: u64,
}

/// The id text of the `i`-th registered connection.
spec fn key_at<H>(s: Seq<Registered<H>>, i: int) -> Seq<char> {
    s[i].info.id.0@
}

/// Whether `k` is the id of one of `s`'s connections.
spec fn has_key<H>(s: Seq<Registered<H>>, k: Seq<char>) -> bool {
    exists|i: int| 0 <= i < s.len() && #[trigger] key_at(s, i) == k
}

/// The position of the connection with id `k` in `s`.
spec fn index_of_key<H>(s: Seq<Registered<H>>, k: Seq<char>) -> int {
    choose|i: int| 0 <= i < s.len() && #[trigger] key_at(s, i) == k
}

/// Whether no two of `s`'s connections share an id, and each is filed under
/// the id its configuration names.
spec fn well_keyed<H>(s: Seq<Registered<H>>) -> bool {
    &&& forall|i: int, j: int|
        0 <= i < s.len() && 0 <= j < s.len() && i != j ==> #[trigger] key_at(s, i) != #[trigger] key_at(
            s,
            j,
        )
    &&& forall|i: int| 0 <= i < s.len() ==> (#[trigger] s[i]).info.config.id == Some(s[i].info.id)
}

/// The map from id text to snapshot and handle.
spec fn as_registry<H>(s: Seq<Registered<H>>) -> Map<Seq<char>, (ConnectionInfo, H)> {
    Map::new(
        |k: Seq<char>| has_key(s, k),
        |k: Seq<char>|
            {
                let i = index_of_key(s, k);
                (s[i].info, s[i].handle)
            },
    )
}

proof fn lemma_index_of_key<H>(s: Seq<Registered<H>>, i: int)
    requires
        well_keyed(s),
        0 <= i < s.len(),
    ensures
        has_key(s, key_at(s, i)),
        index_of_key(s, key_at(s, i)) == i,
        as_registry(s).contains_key(key_at(s, i)),
        as_registry(s)[key_at(s, i)] == (s[i].info, s[i].handle),
{
    assert(has_key(s, key_at(s, i)));
}

proof fn lemma_registry_push<H>(s: Seq<Registered<H>>, e: Registered<H>)
    requires
        well_keyed(s),
        !has_key(s, e.info.id.0@),
        e.info.config.id == Some(e.info.id),
    ensures
        well_keyed(s.push(e)),
        as_registry(s.push(e)) == as_registry(s).insert(e.info.id.0@, (e.info, e.handle)),
{
    let t = s.push(e);
    assert forall|i: int, j: int|
        0 <= i < t.len() && 0 <= j < t.len() && i != j implies #[trigger] key_at(t, i)
        != #[trigger] key_at(t, j) by {
        if i == s.len() {
            assert(key_at(s, j) == key_at(t, j));
        } else if j == s.len() {
            assert(key_at(s, i) == key_at(t, i));
        } else {
            assert(key_at(s, i) == key_at(t, i));
            assert(key_at(s, j) == key_at(t, j));
        }
    }
    assert forall|i: int| 0 <= i < t.len() implies (#[trigger] t[i]).info.config.id == Some(
        t[i].info.id,
    ) by {
        if i < s.len() {
            assert(t[i] == s[i]);
        }
    }
    let m = as_registry(t);
    let n = as_registry(s).insert(e.info.id.0@, (e.info, e.handle));
    assert forall|k: Seq<char>| #[trigger] m.contains_key(k) == n.contains_key(k) by {
        if has_key(t, k) {
            let i = choose|i: int| 0 <= i < t.len() && #[trigger] key_at(t, i) == k;
            if i < s.len() {
                assert(key_at(s, i) == k);
            }
        }
        if has_key(s, k) {
            let i = choose|i: int| 0 <= i < s.len() && #[trigger] key_at(s, i) == k;
            assert(key_at(t, i) == k);
        }
        if k == e.info.id.0@ {
            assert(key_at(t, s.len() as int) == k);
        }
    }
    assert forall|k: Seq<char>| #[trigger] m.contains_key(k) implies m[k] == n[k] by {
        let i = choose|i: int| 0 <= i < t.len() && #[trigger] key_at(t, i) == k;
        lemma_index_of_key(t, i);
        if i < s.len() {
            assert(key_at(s, i) == k);
            lemma_index_of_key(s, i);
        }
    }
    assert(m =~= n);
}

proof fn lemma_registry_replace<H>(s: Seq<Registered<H>>, i: int, e: Registered<H>)
    requires
        well_keyed(s),
        0 <= i < s.len(),
        key_at(s, i) == e.info.id.0@,
        e.info.config.id == Some(e.info.id),
    ensures
        well_keyed(s.update(i, e)),
        as_registry(s.update(i, e)) == as_registry(s).insert(e.info.id.0@, (e.info, e.handle)),
{
    let t = s.update(i, e);
    assert forall|a: int, b: int|
        0 <= a < t.len() && 0 <= b < t.len() && a != b implies #[trigger] key_at(t, a)
        != #[trigger] key_at(t, b) by {
        assert(key_at(s, a) == key_at(t, a));
        assert(key_at(s, b) == key_at(t, b));
    }
    assert forall|a: int| 0 <= a < t.len() implies (#[trigger] t[a]).info.config.id == Some(
        t[a].info.id,
    ) by {
        if a != i {
            assert(t[a] == s[a]);
        }
    }
    let m = as_registry(t);
    let n = as_registry(s).insert(e.info.id.0@, (e.info, e.handle));
    assert forall|k: Seq<char>| #[trigger] m.contains_key(k) == n.contains_key(k) by {
        if has_key(t, k) {
            let a = choose|a: int| 0 <= a < t.len() && #[trigger] key_at(t, a) == k;
            assert(key_at(s, a) == k);
        }
        if has_key(s, k) {
            let a = choose|a: int| 0 <= a < s.len() && #[trigger] key_at(s, a) == k;
            assert(key_at(t, a) == k);
        }
        if k == e.info.id.0@ {
            assert(key_at(t, i) == k);
        }
    }
    assert forall|k: Seq<char>| #[trigger] m.contains_key(k) implies m[k] == n[k] by {
        let a = choose|a: int| 0 <= a < t.len() && #[trigger] key_at(t, a) == k;
        lemma_index_of_key(t, a);
        assert(key_at(s, a) == k);
        lemma_index_of_key(s, a);
    }
    assert(m =~= n);
}

proof fn lemma_registry_remove<H>(s: Seq<Registered<H>>, i: int)
    requires
        well_keyed(s),
        0 <= i < s.len(),
    ensures
        well_keyed(s.remove(i)),
        as_registry(s.remove(i)) == as_registry(s).remove(key_at(s, i)),
{
    let t = s.remove(i);
    let k0 = key_at(s, i);
    // positions in `t` map to positions in `s`
    assert forall|a: int| 0 <= a < t.len() implies #[trigger] key_at(t, a) == key_at(
        s,
        if a < i {
            a
        } else {
            a + 1
        },
    ) && t[a] == s[if a < i {
        a
    } else {
        a + 1
    }] by {}
    assert forall|a: int, b: int|
        0 <= a < t.len() && 0 <= b < t.len() && a != b implies #[trigger] key_at(t, a)
        != #[trigger] key_at(t, b) by {
        let sa = if a < i {
            a
        } else {
            a + 1
        };
        let sb = if b < i {
            b
        } else {
            b + 1
        };
        assert(key_at(s, sa) != key_at(s, sb));
    }
    assert forall|a: int| 0 <= a < t.len() implies (#[trigger] t[a]).info.config.id == Some(
        t[a].info.id,
    ) by {
        let sa = if a < i {
            a
        } else {
            a + 1
        };
        assert(s[sa].info.config.id == Some(s[sa].info.id));
    }
    let m = as_registry(t);
    let n = as_registry(s).remove(k0);
    assert forall|k: Seq<char>| #[trigger] m.contains_key(k) == n.contains_key(k) by {
        if has_key(t, k) {
            let a = choose|a: int| 0 <= a < t.len() && #[trigger] key_at(t, a) == k;
            let sa = if a < i {
                a
            } else {
                a + 1
            };
            assert(key_at(s, sa) == k);
            assert(sa != i);
            assert(k != k0);
        }
        if has_key(s, k) && k != k0 {
            let b = choose|b: int| 0 <= b < s.len() && #[trigger] key_at(s, b) == k;
            assert(b != i);
            let tb = if b < i {
                b
            } else {
                b - 1
            };
            assert(key_at(t, tb) == k);
        }
    }
    assert forall|k: Seq<char>| #[trigger] m.contains_key(k) implies m[k] == n[k] by {
        let a = choose|a: int| 0 <= a < t.len() && #[trigger] key_at(t, a) == k;
        lemma_index_of_key(t, a);
        let sa = if a < i {
            a
        } else {
            a + 1
        };
        assert(key_at(s, sa) == k);
        lemma_index_of_key(s, sa);
    }
    assert(m =~= n);
}

proof fn lemma_registry_len<H>(s: Seq<Registered<H>>)
    requires
        well_keyed(s),
    ensures
        as_registry(s).dom().finite(),
        as_registry(s).dom().len() == s.len(),
{
    let keys = Seq::new(s.len(), |i: int| key_at(s, i));
    assert(keys.no_duplicates()) by {
        assert forall|i: int, j: int|
            0 <= i < keys.len() && 0 <= j < keys.len() && i != j implies keys[i] != keys[j] by {
            assert(key_at(s, i) != key_at(s, j));
        }
    }
    assert forall|k: Seq<char>| #[trigger] as_registry(s).dom().contains(k) == keys.to_set().contains(
        k,
    ) by {
        if has_key(s, k) {
            let i = choose|i: int| 0 <= i < s.len() && #[trigger] key_at(s, i) == k;
            assert(keys[i] == k);
        }
        if keys.to_set().contains(k) {
            let i = choose|i: int| 0 <= i < keys.len() && keys[i] == k;
            assert(key_at(s, i) == k);
        }
    }
    assert(as_registry(s).dom() =~= keys.to_set());
    keys.unique_seq_to_set();
}

/// The snapshot of the connection that `pending` opens.
pub open spec fn info_of(pending: PendingConnection) -> ConnectionInfo {
    ConnectionInfo {
        id: pending.spec_id(),
        name: pending.spec_config().name,
        config: pending.spec_config(),
    }
}

/// The registry once the connection that `pending` opens, with transport
/// `handle`, is registered: its id now gives it, replacing what it gave before.
pub open spec fn opened<H>(
    registry: Map<Seq<char>, (ConnectionInfo, H)>,
    pending: PendingConnection,
    handle: H,
) -> Map<Seq<char>, (ConnectionInfo, H)> {
    registry.insert(pending.spec_id().0@, (info_of(pending), handle))
}

/// The registry once the connection under `id` is closed.
pub open spec fn closed<H>(registry: Map<Seq<char>, (ConnectionInfo, H)>, id: Seq<char>) -> Map<
    Seq<char>,
    (ConnectionInfo, H),
> {
    if registry.contains_key(id) {
        registry.remove(id)
    } else {
        registry
    }
}

/// What closing `id` answers.
pub open spec fn close_outcome<H>(registry: Map<Seq<char>, (ConnectionInfo, H)>, id: ConnectionId) -> Result<
    (),
    EngineError,
> {
    if registry.contains_key(id.0@) {
        Ok(())
    } else {
        Err(EngineError::NotFound(id.0))
    }
}

/// Whether `r` lists `registry`: one snapshot per registered connection, in
/// some order, each filed under the id its configuration names.
pub open spec fn listing<H>(registry: Map<Seq<char>, (ConnectionInfo, H)>, r: Seq<ConnectionInfo>) -> bool {
    &&& registry.dom().finite()
    &&& r.len() == registry.dom().len()
    &&& forall|i: int|
        0 <= i < r.len() ==> registry.contains_key((#[trigger] r[i]).id.0@) && registry[r[i].id.0@].0
            == r[i] && r[i].config.id == Some(r[i].id)
    &&& forall|k: Seq<char>|
        #[trigger] registry.contains_key(k) ==> exists|i: int| 0 <= i < r.len() && (#[trigger] r[i]).id.0@ == k
    &&& forall|i: int, j: int|
        0 <= i < r.len() && 0 <= j < r.len() && i != j ==> (#[trigger] r[i]).id.0@ != (#[trigger] r[j]).id.0@
}

impl<H> ConnectionManager<H> {
    /// No two registered connections share an id, and each is filed under the
    /// id that its configuration names.
    #[verifier::type_invariant]
    spec fn wf(self) -> bool {
        well_keyed(self.connections@)
    }

    /// The registered connections, by id text: each one's snapshot and handle.
    pub closed spec fn registry(&self) -> Map<Seq<char>, (ConnectionInfo, H)> {
        as_registry(self.connections@)
    }

    /// The counter that the next generated id is drawn from.
    pub closed spec fn counter(&self) -> u64 {
        self.next_id
    }

    /// Where the connection under `id` sits in `connections`, if there is one.
    fn position(connections: &Vec<Registered<H>>, id: &ConnectionId) -> (r: Option<usize>)
        requires
            well_keyed(connections@),
        ensures
            match r {
                Some(i) => i < connections@.len() && key_at(connections@, i as int) == id.0@,
                None => !has_key(connections@, id.0@),
            },
    {
        let n = connections.len();
        let mut i: usize = 0;
        while i < n
            invariant
                n == connections@.len(),
                i <= n,
                forall|j: int| 0 <= j < i ==> key_at(connections@, j) != id.0@,
            decreases n - i,
        {
            if connections[i].info.id.same(id) {
                return Some(i);
            }
            i = i + 1;
        }
        proof {
            if has_key(connections@, id.0@) {
                let j = choose|j: int|
                    0 <= j < connections@.len() && #[trigger] key_at(connections@, j) == id.0@;
                assert(key_at(connections@, j) != id.0@);
            }
        }
        None
    }

    /// An empty registry whose first generated id is `c1`.
    pub fn new() -> (r: Self)
        ensures
            r.registry() == Map::<Seq<char>, (ConnectionInfo, H)>::empty(),
            r.counter() == 1,
    {
        let r = ConnectionManager { connections: Vec::new(), next_id: 1 };
        proof {
            assert(r.registry() =~= Map::<Seq<char>, (ConnectionInfo, H)>::empty());
        }
        r
    }

    /// Settles the id of a connection about to be opened: the one `config`
    /// names, or else a fresh `c<n>` drawn from the counter, which then moves
    /// on. Nothing is registered yet: a transport that then fails to open
    /// leaves the registry as it was.
    pub fn begin_open(&mut self, config: ConnectionConfig) -> (r: PendingConnection)
        ensures
            r.spec_id().0@ == (match config.id {
                Some(id) => id.0@,
                None => generated_id(old(self).counter()),
            }),
            r.spec_config() == (ConnectionConfig { id: Some(r.spec_id()), ..config }),
            final(self).registry() == old(self).registry(),
            final(self).counter() == (if config.id is Some {
                old(self).counter()
            } else {
                next_counter(old(self).counter())
            }),
    {
        proof {
            use_type_invariant(&*self);
        }
        let id = match config.id {
            Some(id) => id,
            None => {
                let n = self.next_id;
                self.next_id = if n == u64::MAX {
                    0
                } else {
                    n + 1
                };
                let mut s = String::from_str("c");
                let d = decimal_string(n);
                s.append(d.as_str());
                ConnectionId::new(s)
            },
        };
        let config = ConnectionConfig {
            id: Some(id.duplicate()),
            name: config.name,
            transport: config.transport,
        };
        PendingConnection { id, config }
    }

    /// Registers the connection whose transport `handle` was opened, under its
    /// settled id; a connection already under that id is replaced.
    pub fn open(&mut self, pending: PendingConnection, handle: H) -> (r: ConnectionId)
        ensures
            r == pending.spec_id(),
            final(self).registry() == opened(old(self).registry(), pending, handle),
            final(self).counter() == old(self).counter(),
    {
        proof {
            use_type_invariant(&*self);
            use_type_invariant(&pending);
        }
        let PendingConnection { id, config } = pending;
        let result = id.duplicate();
        let name = config.name.clone();
        let entry = Registered { info: ConnectionInfo { id, name, config }, handle };
        let mut connections: Vec<Registered<H>> = Vec::new();
        std::mem::swap(&mut connections, &mut self.connections);
        let ghost s = connections@;
        match Self::position(&connections, &result) {
            Some(i) => {
                proof {
                    lemma_index_of_key(s, i as int);
                    lemma_registry_replace(s, i as int, entry);
                }
                connections[i] = entry;
            },
            None => {
                proof {
                    lemma_registry_push(s, entry);
                }
                connections.push(entry);
            },
        }
        self.connections = connections;
        result
    }

    /// Closes and drops the connection under `id`.
    pub fn close(&mut self, id: &ConnectionId) -> (r: Result<(), EngineError>)
        ensures
            r == close_outcome(old(self).registry(), *id),
            final(self).registry() == closed(old(self).registry(), id.0@),
            final(self).counter() == old(self).counter(),
    {
        proof {
            use_type_invariant(&*self);
        }
        match Self::position(&self.connections, id) {
            Some(i) => {
                let mut connections: Vec<Registered<H>> = Vec::new();
                std::mem::swap(&mut connections, &mut self.connections);
                let ghost s = connections@;
                proof {
                    lemma_index_of_key(s, i as int);
                    lemma_registry_remove(s, i as int);
                }
                let _ = connections.remove(i);
                self.connections = connections;
                Ok(())
            },
            None => Err(EngineError::NotFound(id.0.clone())),
        }
    }

    /// Snapshots of all registered connections, each once.
    pub fn list(&self) -> (r: Vec<ConnectionInfo>)
        ensures
            listing(self.registry(), r@),
    {
        proof {
            use_type_invariant(self);
        }
        let ghost s = self.connections@;
        let mut out: Vec<ConnectionInfo> = Vec::new();
        let n = self.connections.len();
        let mut i: usize = 0;
        while i < n
            invariant
                n == s.len(),
                s == self.connections@,
                well_keyed(s),
                i <= n,
                out@.len() == i,
                forall|j: int| 0 <= j < i ==> #[trigger] out@[j] == s[j].info,
            decreases n - i,
        {
            out.push(self.connections[i].info.duplicate());
            i = i + 1;
        }
        proof {
            lemma_registry_len(s);
            assert forall|a: int| 0 <= a < out@.len() implies as_registry(s).contains_key(
                (#[trigger] out@[a]).id.0@,
            ) && as_registry(s)[out@[a].id.0@].0 == out@[a] && out@[a].config.id == Some(
                out@[a].id,
            ) by {
                lemma_index_of_key(s, a);
                assert(s[a].info.config.id == Some(s[a].info.id));
            }
            assert forall|k: Seq<char>| #[trigger] as_registry(s).contains_key(k) implies exists|
                a: int,
            | 0 <= a < out@.len() && (#[trigger] out@[a]).id.0@ == k by {
                let a = choose|a: int| 0 <= a < s.len() && #[trigger] key_at(s, a) == k;
                assert(out@[a].id.0@ == k);
            }
            assert forall|a: int, b: int|
                0 <= a < out@.len() && 0 <= b < out@.len() && a != b implies (#[trigger] out@[a]).id.0@
                != (#[trigger] out@[b]).id.0@ by {
                assert(key_at(s, a) != key_at(s, b));
            }
        }
        out
    }

    /// The handle of the connection under `id`.
    pub fn transport(&self, id: &ConnectionId) -> (r: Result<&H, EngineError>)
        ensures
            self.registry().contains_key(id.0@) ==> (r matches Ok(h) && *h
                == self.registry()[id.0@].1),
            !self.registry().contains_key(id.0@) ==> (r matches Err(e) && e
                == EngineError::NotFound(id.0)),
    {
        proof {
            use_type_invariant(self);
        }
        match Self::position(&self.connections, id) {
            Some(i) => {
                proof {
                    lemma_index_of_key(self.connections@, i as int);
                }
                Ok(&self.connections[i].handle)
            },
            None => Err(EngineError::NotFound(id.0.clone())),
        }
    }
}

impl<H> Default for ConnectionManager<H> {
    fn default() -> (r: Self)
        ensures
            r.registry() == Map::<Seq<char>, (ConnectionInfo, H)>::empty(),
            r.counter() == 1,
    {
        Self::new()
    }
}

/// Reading back a registration: once `pending` is registered, its id gives
/// its snapshot and handle, and every other id keeps what it gave.
pub proof fn law_open_then_lookup<H>(
    registry: Map<Seq<char>, (ConnectionInfo, H)>,
    pending: PendingConnection,
    handle: H,
    other: Seq<char>,
)
    ensures
        opened(registry, pending, handle).contains_key(pending.spec_id().0@),
        opened(registry, pending, handle)[pending.spec_id().0@] == (info_of(pending), handle),
        other != pending.spec_id().0@ ==> opened(registry, pending, handle).contains_key(other)
            == registry.contains_key(other),
        other != pending.spec_id().0@ && registry.contains_key(other) ==> opened(
            registry,
            pending,
            handle,
        )[other] == registry[other],
{
}

/// Closing a connection that was just registered succeeds, and leaves the
/// registry as closing that id would have left it before.
pub proof fn law_open_then_close<H>(
    registry: Map<Seq<char>, (ConnectionInfo, H)>,
    pending: PendingConnection,
    handle: H,
)
    ensures
        close_outcome(opened(registry, pending, handle), pending.spec_id()) is Ok,
        closed(opened(registry, pending, handle), pending.spec_id().0@) == closed(
            registry,
            pending.spec_id().0@,
        ),
{
    let k = pending.spec_id().0@;
    assert(registry.insert(k, (info_of(pending), handle)).remove(k) =~= closed(registry, k));
}

/// After a close the id is gone: closing it again reports it not found, and
/// other connections are untouched.
pub proof fn law_close_forgets<H>(
    registry: Map<Seq<char>, (ConnectionInfo, H)>,
    id: ConnectionId,
    other: Seq<char>,
)
    ensures
        !closed(registry, id.0@).contains_key(id.0@),
        close_outcome(closed(registry, id.0@), id) == Err::<(), EngineError>(EngineError::NotFound(id.0)),
        other != id.0@ ==> closed(registry, id.0@).contains_key(other) == registry.contains_key(other),
        other != id.0@ && registry.contains_key(other) ==> closed(registry, id.0@)[other]
            == registry[other],
{
}

/// The ids that a listing holds.
pub open spec fn listed_ids(r: Seq<ConnectionInfo>) -> Set<Seq<char>> {
    Set::new(|k: Seq<char>| exists|i: int| 0 <= i < r.len() && (#[trigger] r[i]).id.0@ == k)
}

proof fn lemma_listing_ids<H>(registry: Map<Seq<char>, (ConnectionInfo, H)>, r: Seq<ConnectionInfo>)
    requires
        listing(registry, r),
    ensures
        listed_ids(r) == registry.dom(),
{
    assert forall|k: Seq<char>| #[trigger] listed_ids(r).contains(k) == registry.dom().contains(k) by {
        if listed_ids(r).contains(k) {
            let i = choose|i: int| 0 <= i < r.len() && (#[trigger] r[i]).id.0@ == k;
            assert(registry.contains_key(r[i].id.0@));
        }
    }
    assert(listed_ids(r) =~= registry.dom());
}

/// Listing after an open: the ids are those listed before with the new id
/// added; the listing grows by one, or keeps its length where the id was
/// already in use (its connection replaced); every other connection is listed
/// as before.
pub proof fn law_open_listing<H>(
    registry: Map<Seq<char>, (ConnectionInfo, H)>,
    pending: PendingConnection,
    handle: H,
    before: Seq<ConnectionInfo>,
    after: Seq<ConnectionInfo>,
)
    requires
        listing(registry, before),
        listing(opened(registry, pending, handle), after),
    ensures
        listed_ids(after) == listed_ids(before).insert(pending.spec_id().0@),
        after.len() == before.len() + (if registry.contains_key(pending.spec_id().0@) {
            0int
        } else {
            1int
        }),
        forall|i: int|
            0 <= i < after.len() && (#[trigger] after[i]).id.0@ != pending.spec_id().0@ ==> exists|
                j: int,
            | 0 <= j < before.len() && before[j] == after[i],
        forall|i: int|
            0 <= i < after.len() && (#[trigger] after[i]).id.0@ == pending.spec_id().0@ ==> after[i]
                == info_of(pending),
{
    let k = pending.spec_id().0@;
    let m = opened(registry, pending, handle);
    lemma_listing_ids(registry, before);
    lemma_listing_ids(m, after);
    assert(m.dom() =~= registry.dom().insert(k));
    assert forall|i: int|
        0 <= i < after.len() && (#[trigger] after[i]).id.0@ != k implies exists|j: int|
        0 <= j < before.len() && before[j] == after[i] by {
        let key = after[i].id.0@;
        assert(m.contains_key(key));
        assert(registry.contains_key(key));
        let j = choose|j: int| 0 <= j < before.len() && (#[trigger] before[j]).id.0@ == key;
        assert(before[j] == registry[key].0);
    }
}

/// Listing after a close: the closed id is no longer listed, and the listing
/// shrinks by one where the id was registered.
pub proof fn law_close_listing<H>(
    registry: Map<Seq<char>, (ConnectionInfo, H)>,
    id: Seq<char>,
    before: Seq<ConnectionInfo>,
    after: Seq<ConnectionInfo>,
)
    requires
        listing(registry, before),
        listing(closed(registry, id), after),
    ensures
        listed_ids(after) == listed_ids(before).remove(id),
        after.len() == before.len() - (if registry.contains_key(id) {
            1int
        } else {
            0int
        }),
{
    lemma_listing_ids(registry, before);
    lemma_listing_ids(closed(registry, id), after);
    assert(closed(registry, id).dom() =~= registry.dom().remove(id));
}

/// Two listings of one registry hold the same snapshots.
pub proof fn law_listings_agree<H>(
    registry: Map<Seq<char>, (ConnectionInfo, H)>,
    a: Seq<ConnectionInfo>,
    b: Seq<ConnectionInfo>,
)
    requires
        listing(registry, a),
        listing(registry, b),
    ensures
        a.len() == b.len(),
        a.to_set() == b.to_set(),
{
    assert forall|x: ConnectionInfo| #[trigger] a.to_set().contains(x) implies b.to_set().contains(x) by {
        let i = choose|i: int| 0 <= i < a.len() && a[i] == x;
        assert(a[i] == x);
        let j = choose|j: int| 0 <= j < b.len() && (#[trigger] b[j]).id.0@ == a[i].id.0@;
        assert(b[j] == x);
    }
    assert forall|x: ConnectionInfo| #[trigger] b.to_set().contains(x) implies a.to_set().contains(x) by {
        let i = choose|i: int| 0 <= i < b.len() && b[i] == x;
        assert(b[i] == x);
        let j = choose|j: int| 0 <= j < a.len() && (#[trigger] a[j]).id.0@ == b[i].id.0@;
        assert(a[j] == x);
    }
    assert(a.to_set() =~= b.to_set());
}

/// The first connection opened on a fresh registry without an id of its own
/// is `c1`; it is then the one connection listed, and once closed the listing
/// is empty.
pub proof fn law_fresh_lifecycle<H>(
    pending: PendingConnection,
    handle: H,
    first: Seq<ConnectionInfo>,
    last: Seq<ConnectionInfo>,
)
    requires
        pending.spec_id().0@ == generated_id(1),
        listing(opened(Map::<Seq<char>, (ConnectionInfo, H)>::empty(), pending, handle), first),
        listing(
            closed(
                opened(Map::<Seq<char>, (ConnectionInfo, H)>::empty(), pending, handle),
                pending.spec_id().0@,
            ),
            last,
        ),
    ensures
        generated_id(1) == "c1"@,
        first.len() == 1,
        first[0] == info_of(pending),
        close_outcome(
            opened(Map::<Seq<char>, (ConnectionInfo, H)>::empty(), pending, handle),
            pending.spec_id(),
        ) is Ok,
        last.len() == 0,
{
    reveal_strlit("c");
    reveal_strlit("c1");
    assert(decimal(1) == seq!['1']);
    assert(generated_id(1) =~= "c1"@);
    let k = pending.spec_id().0@;
    let m = opened(Map::<Seq<char>, (ConnectionInfo, H)>::empty(), pending, handle);
    assert(m.dom() =~= Set::<Seq<char>>::empty().insert(k));
    assert(closed(m, k).dom() =~= Set::<Seq<char>>::empty());
    let j = choose|i: int| 0 <= i < first.len() && (#[trigger] first[i]).id.0@ == k;
    assert(first[j].id.0@ == k);
}

/// Distinct counter values give distinct generated ids.
pub proof fn law_generated_ids_distinct(a: u64, b: u64)
    requires
        a != b,
    ensures
        generated_id(a) != generated_id(b),
{
    reveal_strlit("c");
    if generated_id(a) == generated_id(b) {
        assert(decimal(a as nat) =~= generated_id(a).subrange(1, generated_id(a).len() as int));
        assert(decimal(b as nat) =~= generated_id(b).subrange(1, generated_id(b).len() as int));
        crate::text::lemma_decimal_injective(a as nat, b as nat);
    }
}

/// Generated ids are not handed out twice: drawing one moves the counter
/// forward (until it wraps at the top of `u64`), and ids drawn from different
/// counter values differ.
pub proof fn law_generated_ids_never_repeat(n: u64, k: u64)
    requires
        n < k,
    ensures
        generated_id(n) != generated_id(k),
        n < next_counter(n) <= k,
{
    law_generated_ids_distinct(n, k);
}

/// An open registers the pending connection as it was settled: its entry
/// holds the settled id, the name and the whole configuration given, and the
/// handle of its transport.
pub proof fn law_open_keeps_configuration<H>(
    registry: Map<Seq<char>, (ConnectionInfo, H)>,
    pending: PendingConnection,
    handle: H,
)
    ensures
        opened(registry, pending, handle)[pending.spec_id().0@].0.id == pending.spec_id(),
        opened(registry, pending, handle)[pending.spec_id().0@].0.name == pending.spec_config().name,
        opened(registry, pending, handle)[pending.spec_id().0@].0.config == pending.spec_config(),
        opened(registry, pending, handle)[pending.spec_id().0@].1 == handle,
{
}

/// An engine error's text names an unknown connection by its id, and a
/// transport failure by the transport error's own text.
pub proof fn law_engine_messages(e: EngineError)
    ensures
        e matches EngineError::NotFound(id) ==> engine_message(e) == "connection not found: "@ + id@,
        e matches EngineError::Transport(t) ==> engine_message(e) == "transport error: "@
            + transport_message(t),
{
}

/// A generated id is `c` followed by the counter value in decimal, and the
/// counter moves on by one, wrapping to 0 at the top of `u64`.
pub proof fn law_generated_id_form(n: u64)
    ensures
        generated_id(n).len() == decimal(n as nat).len() + 1,
        generated_id(n)[0] == 'c',
        generated_id(n).subrange(1, generated_id(n).len() as int) == decimal(n as nat),
        crate::text::numeral_value(generated_id(n).subrange(1, generated_id(n).len() as int)) == n,
        n < u64::MAX ==> next_counter(n) == n + 1,
        n == u64::MAX ==> next_counter(n) == 0,
{
    reveal_strlit("c");
    assert(generated_id(n).subrange(1, generated_id(n).len() as int) =~= decimal(n as nat));
    crate::text::law_decimal_value(n as nat);
}

} // verus!
