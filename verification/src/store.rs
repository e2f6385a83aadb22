//! The registry store: two independent in-memory collections of records,
//! Hubs and Servers, each keyed by identifier. Registering a record inserts
//! it or fully replaces the record already held under its identifier.

use crate::model::{
    keys_unique, lemma_map_of_contains, lemma_map_of_index, lemma_map_of_len, lemma_map_of_push,
    lemma_map_of_remove, lemma_map_of_update, map_of,
};
use vstd::pervasive::VecAdditionalExecFns;
use vstd::prelude::*;

verus! {

/// The mathematical content of a Hub record: each field as a character
/// sequence.
pub ghost struct HubView {
    pub id: Seq<char>,
    pub name: Seq<char>,
    pub version: Seq<char>,
    pub host: Seq<char>,
    pub port: Seq<char>,
    pub repositories: Seq<char>,
    pub relay_host: Seq<char>,
    pub relay_port: Seq<char>,
}

/// The mathematical content of a Server record.
pub ghost struct ServerView {
    pub id: Seq<char>,
    pub name: Seq<char>,
    pub version: Seq<char>,
    pub host: Seq<char>,
    pub port: Seq<char>,
    pub repositories: Seq<char>,
}

/// A routing/aggregation node plus the address of its companion relay.
#[derive(Debug)]
pub struct GSFHub {
    pub id: String,
    pub name: String,
    pub version: String,
    pub host: String,
    pub port: String,
    pub repositories: String,
    pub relay_host: String,
    pub relay_port: String,
}

/// A leaf node serving one or more repositories.
#[derive(Debug)]
pub struct GSFServer {
    pub id: String,
    pub name: String,
    pub version: String,
    pub host: String,
    pub port: String,
    pub repositories: String,
}

impl View for GSFHub {
    type V = HubView;

    open spec fn view(&self) -> HubView {
        HubView {
            id: self.id@,
            name: self.name@,
            version: self.version@,
            host: self.host@,
            port: self.port@,
            repositories: self.repositories@,
            relay_host: self.relay_host@,
            relay_port: self.relay_port@,
        }
    }
}

impl View for GSFServer {
    type V = ServerView;

    open spec fn view(&self) -> ServerView {
        ServerView {
            id: self.id@,
            name: self.name@,
            version: self.version@,
            host: self.host@,
            port: self.port@,
            repositories: self.repositories@,
        }
    }
}

impl Clone for GSFHub {
    fn clone(&self) -> (r: Self)
        ensures
            r == *self,
    {
        GSFHub {
            id: self.id.clone(),
            name: self.name.clone(),
            version: self.version.clone(),
            host: self.host.clone(),
            port: self.port.clone(),
            repositories: self.repositories.clone(),
            relay_host: self.relay_host.clone(),
            relay_port: self.relay_port.clone(),
        }
    }
}

impl Clone for GSFServer {
    fn clone(&self) -> (r: Self)
        ensures
            r == *self,
    {
        GSFServer {
            id: self.id.clone(),
            name: self.name.clone(),
            version: self.version.clone(),
            host: self.host.clone(),
            port: self.port.clone(),
            repositories: self.repositories.clone(),
        }
    }
}

/// The (identifier, record) entries of a stored Hub collection.
pub open spec fn hub_entries(hubs: Seq<GSFHub>) -> Seq<(Seq<char>, HubView)> {
    hubs.map(|i: int, h: GSFHub| (h@.id, h@))
}

/// The (identifier, record) entries of a stored Server collection.
pub open spec fn server_entries(servers: Seq<GSFServer>) -> Seq<(Seq<char>, ServerView)> {
    servers.map(|i: int, s: GSFServer| (s@.id, s@))
}

/// The registry store's capability set, symmetric for Hubs and Servers.
/// Each collection is a finite map from identifier to record; `add` and
/// `update` both upsert (insert or fully replace), `remove` of an absent
/// identifier is a no-op, and reads return copies.
pub trait Store: Sized {
    /// The Hub collection as a map from identifier to record.
    spec fn hub_map(&self) -> Map<Seq<char>, HubView>;

    /// The Server collection as a map from identifier to record.
    spec fn server_map(&self) -> Map<Seq<char>, ServerView>;

    /// The store's internal well-formedness.
    spec fn inv(&self) -> bool;

    fn new() -> (s: Self)
        ensures
            s.inv(),
            s.hub_map() == Map::<Seq<char>, HubView>::empty(),
            s.server_map() == Map::<Seq<char>, ServerView>::empty(),
    ;

    fn add_hub(&mut self, hub: GSFHub)
        requires
            old(self).inv(),
        ensures
            final(self).inv(),
            final(self).hub_map() == old(self).hub_map().insert(hub@.id, hub@),
            final(self).server_map() == old(self).server_map(),
    ;

    fn get_hub(&self, id: String) -> (r: Option<GSFHub>)
        requires
            self.inv(),
        ensures
            r is Some <==> self.hub_map().contains_key(id@),
            r matches Some(h) ==> h@ == self.hub_map()[id@],
    ;

    fn get_hubs(&self) -> (r: Vec<GSFHub>)
        requires
            self.inv(),
        ensures
            r@.len() == self.hub_map().len(),
            forall|i: int|
                0 <= i < r@.len() ==> self.hub_map().contains_key((#[trigger] r@[i])@.id)
                    && self.hub_map()[r@[i]@.id] == r@[i]@,
            forall|k: Seq<char>|
                #[trigger] self.hub_map().contains_key(k) ==> exists|i: int|
                    0 <= i < r@.len() && (#[trigger] r@[i])@.id == k,
    ;

    fn update_hub(&mut self, hub: GSFHub)
        requires
            old(self).inv(),
        ensures
            final(self).inv(),
            final(self).hub_map() == old(self).hub_map().insert(hub@.id, hub@),
            final(self).server_map() == old(self).server_map(),
    ;

    fn remove_hub(&mut self, id: String)
        requires
            old(self).inv(),
        ensures
            final(self).inv(),
            final(self).hub_map() == old(self).hub_map().remove(id@),
            final(self).server_map() == old(self).server_map(),
    ;

    fn add_server(&mut self, server: GSFServer)
        requires
            old(self).inv(),
        ensures
            final(self).inv(),
            final(self).server_map() == old(self).server_map().insert(server@.id, server@),
            final(self).hub_map() == old(self).hub_map(),
    ;

    fn get_server(&self, id: String) -> (r: Option<GSFServer>)
        requires
            self.inv(),
        ensures
            r is Some <==> self.server_map().contains_key(id@),
            r matches Some(s) ==> s@ == self.server_map()[id@],
    ;

    fn get_servers(&self) -> (r: Vec<GSFServer>)
        requires
            self.inv(),
        ensures
            r@.len() == self.server_map().len(),
            forall|i: int|
                0 <= i < r@.len() ==> self.server_map().contains_key((#[trigger] r@[i])@.id)
                    && self.server_map()[r@[i]@.id] == r@[i]@,
            forall|k: Seq<char>|
                #[trigger] self.server_map().contains_key(k) ==> exists|i: int|
                    0 <= i < r@.len() && (#[trigger] r@[i])@.id == k,
    ;

    fn update_server(&mut self, server: GSFServer)
        requires
            old(self).inv(),
        ensures
            final(self).inv(),
            final(self).server_map() == old(self).server_map().insert(server@.id, server@),
            final(self).hub_map() == old(self).hub_map(),
    ;

    fn remove_server(&mut self, id: String)
        requires
            old(self).inv(),
        ensures
            final(self).inv(),
            final(self).server_map() == old(self).server_map().remove(id@),
            final(self).hub_map() == old(self).hub_map(),
    ;
}

/// An in-memory registry store: both collections live in process memory and
/// are lost on restart.
#[derive(Debug)]
pub struct InMemoryStore {
    hubs: Vec<GSFHub>,
    servers: Vec<GSFServer>,
}

/// Index of the Hub holding this identifier, if one does.
fn hub_index(hubs: &Vec<GSFHub>, id: &String) -> (r: Option<usize>)
    ensures
        r matches Some(i) ==> i < hubs@.len() && hubs@[i as int]@.id == id@,
        r is None ==> forall|j: int| 0 <= j < hubs@.len() ==> (#[trigger] hubs@[j])@.id != id@,
{
    let n = hubs.len();
    let mut i: usize = 0;
    while i < n
        invariant
            n == hubs@.len(),
            i <= n,
            forall|j: int| 0 <= j < i ==> (#[trigger] hubs@[j])@.id != id@,
        decreases n - i,
    {
        if hubs[i].id == *id {
            return Some(i);
        }
        i += 1;
    }
    None
}

/// Index of the Server holding this identifier, if one does.
fn server_index(servers: &Vec<GSFServer>, id: &String) -> (r: Option<usize>)
    ensures
        r matches Some(i) ==> i < servers@.len() && servers@[i as int]@.id == id@,
        r is None ==> forall|j: int|
            0 <= j < servers@.len() ==> (#[trigger] servers@[j])@.id != id@,
{
    let n = servers.len();
    let mut i: usize = 0;
    while i < n
        invariant
            n == servers@.len(),
            i <= n,
            forall|j: int| 0 <= j < i ==> (#[trigger] servers@[j])@.id != id@,
        decreases n - i,
    {
        if servers[i].id == *id {
            return Some(i);
        }
        i += 1;
    }
    None
}

impl Default for InMemoryStore {
    fn default() -> (s: Self)
        ensures
            s.inv(),
            s.hub_map() == Map::<Seq<char>, HubView>::empty(),
            s.server_map() == Map::<Seq<char>, ServerView>::empty(),
    {
        let s = InMemoryStore { hubs: Vec::new(), servers: Vec::new() };
        proof {
            assert(hub_entries(s.hubs@) =~= Seq::<(Seq<char>, HubView)>::empty());
            assert(server_entries(s.servers@) =~= Seq::<(Seq<char>, ServerView)>::empty());
        }
        s
    }
}

impl Store for InMemoryStore {
    closed spec fn hub_map(&self) -> Map<Seq<char>, HubView> {
        map_of(hub_entries(self.hubs@))
    }

    closed spec fn server_map(&self) -> Map<Seq<char>, ServerView> {
        map_of(server_entries(self.servers@))
    }

    closed spec fn inv(&self) -> bool {
        keys_unique(hub_entries(self.hubs@)) && keys_unique(server_entries(self.servers@))
    }

    fn new() -> (s: Self) {
        let s = InMemoryStore { hubs: Vec::new(), servers: Vec::new() };
        proof {
            assert(hub_entries(s.hubs@) =~= Seq::<(Seq<char>, HubView)>::empty());
            assert(server_entries(s.servers@) =~= Seq::<(Seq<char>, ServerView)>::empty());
        }
        s
    }

    fn add_hub(&mut self, hub: GSFHub) {
        let ghost pre = hub_entries(self.hubs@);
        let ghost pair = (hub@.id, hub@);
        match hub_index(&self.hubs, &hub.id) {
            Some(i) => {
                self.hubs.set(i, hub);
                proof {
                    assert(hub_entries(self.hubs@) =~= pre.update(i as int, pair));
                    lemma_map_of_update(pre, i as int, pair);
                    assert forall|a: int, b: int|
                        0 <= a < b < pre.update(i as int, pair).len() implies pre.update(
                        i as int,
                        pair,
                    )[a].0 != pre.update(i as int, pair)[b].0 by {
                        assert(pre[a].0 != pre[b].0);
                    }
                }
            },
            None => {
                self.hubs.push(hub);
                proof {
                    assert(hub_entries(self.hubs@) =~= pre.push(pair));
                    lemma_map_of_push(pre, pair);
                }
            },
        }
    }

    fn get_hub(&self, id: String) -> (r: Option<GSFHub>) {
        proof {
            lemma_map_of_contains(hub_entries(self.hubs@), id@);
        }
        match hub_index(&self.hubs, &id) {
            Some(i) => {
                proof {
                    lemma_map_of_index(hub_entries(self.hubs@), i as int);
                }
                Some(self.hubs[i].clone())
            },
            None => None,
        }
    }

    fn get_hubs(&self) -> (r: Vec<GSFHub>) {
        let ghost entries = hub_entries(self.hubs@);
        let n = self.hubs.len();
        let mut r: Vec<GSFHub> = Vec::new();
        let mut i: usize = 0;
        while i < n
            invariant
                n == self.hubs@.len(),
                i <= n,
                r@.len() == i,
                forall|j: int| 0 <= j < i ==> #[trigger] r@[j] == self.hubs@[j],
            decreases n - i,
        {
            r.push(self.hubs[i].clone());
            i += 1;
        }
        proof {
            lemma_map_of_len(entries);
            assert forall|j: int| 0 <= j < r@.len() implies self.hub_map().contains_key(
                (#[trigger] r@[j])@.id,
            ) && self.hub_map()[r@[j]@.id] == r@[j]@ by {
                lemma_map_of_index(entries, j);
            }
            assert forall|k: Seq<char>| #[trigger]
                self.hub_map().contains_key(k) implies exists|j: int|
                0 <= j < r@.len() && (#[trigger] r@[j])@.id == k by {
                lemma_map_of_contains(entries, k);
                let j = choose|j: int| 0 <= j < entries.len() && (#[trigger] entries[j]).0 == k;
                assert(r@[j]@.id == k);
            }
        }
        r
    }

    fn update_hub(&mut self, hub: GSFHub) {
        self.add_hub(hub);
    }

    fn remove_hub(&mut self, id: String) {
        let ghost pre = hub_entries(self.hubs@);
        match hub_index(&self.hubs, &id) {
            Some(i) => {
                self.hubs.remove(i);
                proof {
                    assert(hub_entries(self.hubs@) =~= pre.remove(i as int));
                    lemma_map_of_remove(pre, i as int);
                    assert forall|a: int, b: int|
                        0 <= a < b < pre.remove(i as int).len() implies pre.remove(i as int)[a].0
                        != pre.remove(i as int)[b].0 by {
                        let pa: int = if a < i { a } else { a + 1 };
                        let pb: int = if b < i { b } else { b + 1 };
                        assert(pre[pa].0 != pre[pb].0);
                    }
                }
            },
            None => {
                proof {
                    lemma_map_of_contains(pre, id@);
                    assert(map_of(pre).remove(id@) =~= map_of(pre));
                }
            },
        }
    }

    fn add_server(&mut self, server: GSFServer) {
        let ghost pre = server_entries(self.servers@);
        let ghost pair = (server@.id, server@);
        match server_index(&self.servers, &server.id) {
            Some(i) => {
                self.servers.set(i, server);
                proof {
                    assert(server_entries(self.servers@) =~= pre.update(i as int, pair));
                    lemma_map_of_update(pre, i as int, pair);
                    assert forall|a: int, b: int|
                        0 <= a < b < pre.update(i as int, pair).len() implies pre.update(
                        i as int,
                        pair,
                    )[a].0 != pre.update(i as int, pair)[b].0 by {
                        assert(pre[a].0 != pre[b].0);
                    }
                }
            },
            None => {
                self.servers.push(server);
                proof {
                    assert(server_entries(self.servers@) =~= pre.push(pair));
                    lemma_map_of_push(pre, pair);
                }
            },
        }
    }

    fn get_server(&self, id: String) -> (r: Option<GSFServer>) {
        proof {
            lemma_map_of_contains(server_entries(self.servers@), id@);
        }
        match server_index(&self.servers, &id) {
            Some(i) => {
                proof {
                    lemma_map_of_index(server_entries(self.servers@), i as int);
                }
                Some(self.servers[i].clone())
            },
            None => None,
        }
    }

    fn get_servers(&self) -> (r: Vec<GSFServer>) {
        let ghost entries = server_entries(self.servers@);
        let n = self.servers.len();
        let mut r: Vec<GSFServer> = Vec::new();
        let mut i: usize = 0;
        while i < n
            invariant
                n == self.servers@.len(),
                i <= n,
                r@.len() == i,
                forall|j: int| 0 <= j < i ==> #[trigger] r@[j] == self.servers@[j],
            decreases n - i,
        {
            r.push(self.servers[i].clone());
            i += 1;
        }
        proof {
            lemma_map_of_len(entries);
            assert forall|j: int| 0 <= j < r@.len() implies self.server_map().contains_key(
                (#[trigger] r@[j])@.id,
            ) && self.server_map()[r@[j]@.id] == r@[j]@ by {
                lemma_map_of_index(entries, j);
            }
            assert forall|k: Seq<char>| #[trigger]
                self.server_map().contains_key(k) implies exists|j: int|
                0 <= j < r@.len() && (#[trigger] r@[j])@.id == k by {
                lemma_map_of_contains(entries, k);
                let j = choose|j: int| 0 <= j < entries.len() && (#[trigger] entries[j]).0 == k;
                assert(r@[j]@.id == k);
            }
        }
        r
    }

    fn update_server(&mut self, server: GSFServer) {
        self.add_server(server);
    }

    fn remove_server(&mut self, id: String) {
        let ghost pre = server_entries(self.servers@);
        match server_index(&self.servers, &id) {
            Some(i) => {
                self.servers.remove(i);
                proof {
                    assert(server_entries(self.servers@) =~= pre.remove(i as int));
                    lemma_map_of_remove(pre, i as int);
                    assert forall|a: int, b: int|
                        0 <= a < b < pre.remove(i as int).len() implies pre.remove(i as int)[a].0
                        != pre.remove(i as int)[b].0 by {
                        let pa: int = if a < i { a } else { a + 1 };
                        let pb: int = if b < i { b } else { b + 1 };
                        assert(pre[pa].0 != pre[pb].0);
                    }
                }
            },
            None => {
                proof {
                    lemma_map_of_contains(pre, id@);
                    assert(map_of(pre).remove(id@) =~= map_of(pre));
                }
            },
        }
    }
}

/// Law (upsert idempotence): registering twice under one identifier leaves
/// exactly one record under that identifier, the second call's, with the
/// first fully replaced.
pub proof fn lemma_upsert_idempotence<V>(m: Map<Seq<char>, V>, k: Seq<char>, v1: V, v2: V)
    ensures
        m.insert(k, v1).insert(k, v2) == m.insert(k, v2),
        m.insert(k, v2)[k] == v2,
{
    assert(m.insert(k, v1).insert(k, v2) =~= m.insert(k, v2));
}

/// Law (snapshot consistency): however many of a burst of registrations have
/// completed when a snapshot is taken, the snapshot holds at most one record
/// per completed registration — so never more records than registrations —
/// and every record it holds is one of the registered records, whole.
pub proof fn lemma_snapshot_consistency<V>(adds: Seq<(Seq<char>, V)>)
    ensures
        map_of(adds).dom().finite(),
        map_of(adds).len() <= adds.len(),
        forall|k: Seq<char>| #[trigger]
            map_of(adds).contains_key(k) ==> exists|i: int|
                0 <= i < adds.len() && (#[trigger] adds[i]).0 == k && adds[i].1 == map_of(adds)[k],
    decreases adds.len(),
{
    if adds.len() == 0 {
        assert(map_of(adds).dom() =~= Set::<Seq<char>>::empty());
    } else {
        let prefix = adds.drop_last();
        let last = adds.last();
        lemma_snapshot_consistency(prefix);
        assert(map_of(adds).dom() =~= map_of(prefix).dom().insert(last.0));
        assert forall|k: Seq<char>| #[trigger] map_of(adds).contains_key(k) implies exists|i: int|
            0 <= i < adds.len() && (#[trigger] adds[i]).0 == k && adds[i].1 == map_of(adds)[k] by {
            if k == last.0 {
                assert(adds[adds.len() - 1].0 == k && adds[adds.len() - 1].1 == map_of(adds)[k]);
            } else {
                assert(map_of(prefix).contains_key(k));
                let i = choose|i: int|
                    0 <= i < prefix.len() && (#[trigger] prefix[i]).0 == k && prefix[i].1 == map_of(
                        prefix,
                    )[k];
                assert(adds[i] == prefix[i]);
            }
        }
    }
}

} // verus!
