//! The discovery service: the request/response records of the registration
//! and query RPCs, and the handlers that translate them to and from registry
//! store operations. A `Register*` request whose nested payload is absent is
//! rejected with an invalid-argument error; a well-formed one always
//! succeeds. Queries return the full snapshot; their filter fields are
//! accepted but not applied.

use crate::store::{GSFHub, GSFServer, HubView, InMemoryStore, ServerView, Store};
use vstd::prelude::*;

verus! {

/// The wire form of a Hub record.
#[derive(Debug, Clone)]
pub struct GitstafetteHub {
    pub id: String,
    pub name: String,
    pub version: String,
    pub host: String,
    pub port: String,
    pub repositories: String,
    pub relay_host: String,
    pub relay_port: String,
}

/// The wire form of a Server record.
#[derive(Debug, Clone)]
pub struct GitstafetteServer {
    pub id: String,
    pub name: String,
    pub version: String,
    pub host: String,
    pub port: String,
    pub repositories: String,
}

impl View for GitstafetteHub {
    type V = HubView;

    open spec fn view(&self) -> HubView {
        HubView {
            id: self.id@,
            name: self.name@,
            version: self.version@,
            host: self.host@,
            port: self.port@,
            repositories: self.repositories@,
            relay_host: self.relay_host@,
            relay_port: self.relay_port@,
        }
    }
}

impl View for GitstafetteServer {
    type V = ServerView;

    open spec fn view(&self) -> ServerView {
        ServerView {
            id: self.id@,
            name: self.name@,
            version: self.version@,
            host: self.host@,
            port: self.port@,
            repositories: self.repositories@,
        }
    }
}

impl GitstafetteHub {
    /// Maps the wire record to the internal Hub record, field for field.
    pub fn to_internal(self) -> (r: GSFHub)
        ensures
            r@ == self@,
    {
        GSFHub {
            id: self.id,
            name: self.name,
            version: self.version,
            host: self.host,
            port: self.port,
            repositories: self.repositories,
            relay_host: self.relay_host,
            relay_port: self.relay_port,
        }
    }

    /// Maps the internal Hub record to the wire record, field for field.
    pub fn from_internal(h: GSFHub) -> (r: Self)
        ensures
            r@ == h@,
    {
        GitstafetteHub {
            id: h.id,
            name: h.name,
            version: h.version,
            host: h.host,
            port: h.port,
            repositories: h.repositories,
            relay_host: h.relay_host,
            relay_port: h.relay_port,
        }
    }
}

impl GitstafetteServer {
    /// Maps the wire record to the internal Server record, field for field.
    pub fn to_internal(self) -> (r: GSFServer)
        ensures
            r@ == self@,
    {
        GSFServer {
            id: self.id,
            name: self.name,
            version: self.version,
            host: self.host,
            port: self.port,
            repositories: self.repositories,
        }
    }

    /// Maps the internal Server record to the wire record, field for field.
    pub fn from_internal(s: GSFServer) -> (r: Self)
        ensures
            r@ == s@,
    {
        GitstafetteServer {
            id: s.id,
            name: s.name,
            version: s.version,
            host: s.host,
            port: s.port,
            repositories: s.repositories,
        }
    }
}

/// The shared registration outcome record. The `error` and `error_code`
/// fields are reserved and stay empty on the success path.
#[derive(Debug, Clone)]
pub struct RegisterResponse {
    pub success: bool,
    pub message: String,
    pub error: String,
    pub error_code: String,
}

#[derive(Debug, Clone)]
pub struct RegisterHubRequest {
    pub hub: Option<GitstafetteHub>,
}

#[derive(Debug, Clone)]
pub struct RegisterHubResponse {
    pub response: Option<RegisterResponse>,
}

#[derive(Debug, Clone)]
pub struct RegisterServerRequest {
    pub server: Option<GitstafetteServer>,
}

#[derive(Debug, Clone)]
pub struct RegisterServerResponse {
    pub response: Option<RegisterResponse>,
}

/// A query for registered Hubs. The filter fields are accepted but not
/// applied: the full snapshot is returned.
#[derive(Debug, Clone)]
pub struct GetHubsRequest {
    pub client_id: String,
    pub name: String,
    pub host: String,
    pub port: String,
}

#[derive(Debug, Clone)]
pub struct GetHubsResponse {
    pub hubs: Vec<GitstafetteHub>,
}

/// A query for registered Servers. The filter fields are accepted but not
/// applied: the full snapshot is returned.
#[derive(Debug, Clone)]
pub struct GetServersRequest {
    pub client_id: String,
    pub name: String,
    pub host: String,
    pub port: String,
}

#[derive(Debug, Clone)]
pub struct GetServersResponse {
    pub servers: Vec<GitstafetteServer>,
}

/// The class of an RPC-level error the discovery service reports.
#[derive(Debug, Clone, Copy, PartialEq, Eq, Structural)]
pub enum RpcErrorCode {
    InvalidArgument,
}

/// An RPC-level error: a status class plus a human-readable message.
#[derive(Debug, Clone)]
pub struct RpcError {
    pub code: RpcErrorCode,
    pub message: String,
}

/// The RPC-facing discovery service. It owns the registry store for the
/// process lifetime; all registry mutation goes through its handlers.
#[derive(Debug)]
pub struct DiscoveryService {
    store: InMemoryStore,
}

impl DiscoveryService {
    /// The Hub collection behind the service, as a map from identifier to
    /// record.
    pub closed spec fn hub_map(&self) -> Map<Seq<char>, HubView> {
        self.store.hub_map()
    }

    /// The Server collection behind the service.
    pub closed spec fn server_map(&self) -> Map<Seq<char>, ServerView> {
        self.store.server_map()
    }

    pub closed spec fn inv(&self) -> bool {
        self.store.inv()
    }

    pub fn new(store: InMemoryStore) -> (s: Self)
        requires
            store.inv(),
        ensures
            s.inv(),
            s.hub_map() == store.hub_map(),
            s.server_map() == store.server_map(),
    {
        DiscoveryService { store }
    }

    /// Registers (upserts) a Hub. A request with no hub payload is rejected
    /// with an invalid-argument error and leaves the registry unchanged; any
    /// other request stores the record under its identifier and succeeds.
    pub fn register_hub(&mut self, request: RegisterHubRequest) -> (r: Result<
        RegisterHubResponse,
        RpcError,
    >)
        requires
            old(self).inv(),
        ensures
            final(self).inv(),
            final(self).server_map() == old(self).server_map(),
            request.hub matches Some(hub) ==> {
                &&& final(self).hub_map() == old(self).hub_map().insert(hub@.id, hub@)
                &&& r matches Ok(resp)
                &&& (r matches Ok(resp) ==> resp.response matches Some(rr) && rr.success
                    && rr.message@ == "Hub registered"@ && rr.error@ == Seq::<char>::empty()
                    && rr.error_code@ == Seq::<char>::empty())
            },
            request.hub is None ==> {
                &&& final(self).hub_map() == old(self).hub_map()
                &&& r matches Err(e)
                &&& (r matches Err(e) ==> e.code == RpcErrorCode::InvalidArgument)
            },
    {
        match request.hub {
            Some(hub) => {
                self.store.add_hub(hub.to_internal());
                Ok(
                    RegisterHubResponse {
                        response: Some(
                            RegisterResponse {
                                success: true,
                                message: "Hub registered".to_owned(),
                                error: String::new(),
                                error_code: String::new(),
                            },
                        ),
                    },
                )
            },
            None => Err(
                RpcError {
                    code: RpcErrorCode::InvalidArgument,
                    message: "missing hub payload".to_owned(),
                },
            ),
        }
    }

    /// Registers (upserts) a Server; symmetric to Hub registration.
    pub fn register_server(&mut self, request: RegisterServerRequest) -> (r: Result<
        RegisterServerResponse,
        RpcError,
    >)
        requires
            old(self).inv(),
        ensures
            final(self).inv(),
            final(self).hub_map() == old(self).hub_map(),
            request.server matches Some(server) ==> {
                &&& final(self).server_map() == old(self).server_map().insert(
                    server@.id,
                    server@,
                )
                &&& r matches Ok(resp)
                &&& (r matches Ok(resp) ==> resp.response matches Some(rr) && rr.success
                    && rr.message@ == "Hub registered"@ && rr.error@ == Seq::<char>::empty()
                    && rr.error_code@ == Seq::<char>::empty())
            },
            request.server is None ==> {
                &&& final(self).server_map() == old(self).server_map()
                &&& r matches Err(e)
                &&& (r matches Err(e) ==> e.code == RpcErrorCode::InvalidArgument)
            },
    {
        match request.server {
            Some(server) => {
                self.store.add_server(server.to_internal());
                Ok(
                    RegisterServerResponse {
                        response: Some(
                            RegisterResponse {
                                success: true,
                                message: "Hub registered".to_owned(),
                                error: String::new(),
                                error_code: String::new(),
                            },
                        ),
                    },
                )
            },
            None => Err(
                RpcError {
                    code: RpcErrorCode::InvalidArgument,
                    message: "missing server payload".to_owned(),
                },
            ),
        }
    }

    /// Returns the full Hub snapshot; the query's filter fields are ignored.
    pub fn get_hubs(&self, _request: GetHubsRequest) -> (r: GetHubsResponse)
        requires
            self.inv(),
        ensures
            r.hubs@.len() == self.hub_map().len(),
            forall|i: int|
                0 <= i < r.hubs@.len() ==> self.hub_map().contains_key(
                    (#[trigger] r.hubs@[i])@.id,
                ) && self.hub_map()[r.hubs@[i]@.id] == r.hubs@[i]@,
            forall|k: Seq<char>|
                #[trigger] self.hub_map().contains_key(k) ==> exists|i: int|
                    0 <= i < r.hubs@.len() && (#[trigger] r.hubs@[i])@.id == k,
    {
        let internal = self.store.get_hubs();
        let n = internal.len();
        let mut hubs: Vec<GitstafetteHub> = Vec::new();
        let mut i: usize = 0;
        while i < n
            invariant
                n == internal@.len(),
                i <= n,
                hubs@.len() == i,
                forall|j: int| 0 <= j < i ==> (#[trigger] hubs@[j])@ == internal@[j]@,
            decreases n - i,
        {
            hubs.push(GitstafetteHub::from_internal(internal[i].clone()));
            i += 1;
        }
        proof {
            assert forall|k: Seq<char>| #[trigger]
                self.hub_map().contains_key(k) implies exists|j: int|
                0 <= j < hubs@.len() && (#[trigger] hubs@[j])@.id == k by {
                let j = choose|j: int|
                    0 <= j < internal@.len() && (#[trigger] internal@[j])@.id == k;
                assert(hubs@[j]@.id == k);
            }
        }
        GetHubsResponse { hubs }
    }

    /// Returns the full Server snapshot; the query's filter fields are
    /// ignored.
    pub fn get_servers(&self, _request: GetServersRequest) -> (r: GetServersResponse)
        requires
            self.inv(),
        ensures
            r.servers@.len() == self.server_map().len(),
            forall|i: int|
                0 <= i < r.servers@.len() ==> self.server_map().contains_key(
                    (#[trigger] r.servers@[i])@.id,
                ) && self.server_map()[r.servers@[i]@.id] == r.servers@[i]@,
            forall|k: Seq<char>|
                #[trigger] self.server_map().contains_key(k) ==> exists|i: int|
                    0 <= i < r.servers@.len() && (#[trigger] r.servers@[i])@.id == k,
    {
        let internal = self.store.get_servers();
        let n = internal.len();
        let mut servers: Vec<GitstafetteServer> = Vec::new();
        let mut i: usize = 0;
        while i < n
            invariant
                n == internal@.len(),
                i <= n,
                servers@.len() == i,
                forall|j: int| 0 <= j < i ==> (#[trigger] servers@[j])@ == internal@[j]@,
            decreases n - i,
        {
            servers.push(GitstafetteServer::from_internal(internal[i].clone()));
            i += 1;
        }
        proof {
            assert forall|k: Seq<char>| #[trigger]
                self.server_map().contains_key(k) implies exists|j: int|
                0 <= j < servers@.len() && (#[trigger] servers@[j])@.id == k by {
                let j = choose|j: int|
                    0 <= j < internal@.len() && (#[trigger] internal@[j])@.id == k;
                assert(servers@[j]@.id == k);
            }
        }
        GetServersResponse { servers }
    }
}

/// Law: registering a record under an identifier and then reading leaves the
/// collection containing that record, field for field, under that
/// identifier. Together with the query handlers' contracts this gives the
/// register-then-query round trip.
pub proof fn lemma_register_then_query_roundtrip(m: Map<Seq<char>, HubView>, h: HubView)
    ensures
        m.insert(h.id, h).contains_key(h.id),
        m.insert(h.id, h)[h.id] == h,
{
}

} // verus!
