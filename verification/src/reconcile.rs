//! The decision step of the self-registration reconciliation loop. Each
//! cycle polls the local info endpoint and, from the outcome, decides what
//! to send to the remote discovery service: nothing when the poll failed or
//! the node is not alive, a Hub registration when the node is a live Hub,
//! and a Server registration for any other live node. No outcome ends the
//! loop: a failed poll only skips the cycle's registration.

use crate::discovery::{
    GitstafetteHub, GitstafetteServer, RegisterHubRequest, RegisterServerRequest,
};
use crate::info::{GetInfoResponse, GetInfoResponseView, InstanceType, RelayInfoView};
use crate::store::{HubView, ServerView};
use vstd::prelude::*;

verus! {

/// What one reconciliation cycle does after its poll, before it sleeps.
#[derive(Debug, Clone)]
pub enum ReconcileAction {
    /// Register nothing this cycle.
    Skip,
    /// Send this Hub registration to the discovery service.
    SendRegisterHub(RegisterHubRequest),
    /// Send this Server registration to the discovery service.
    SendRegisterServer(RegisterServerRequest),
}

/// The Hub record a reconciliation cycle registers for a live Hub node:
/// identifier left empty, name and version from the response, host, port and
/// repositories from the embedded endpoint description if present, relay
/// fields from the embedded relay description if present, all else empty.
pub open spec fn spec_hub_from_info(info: GetInfoResponseView) -> HubView {
    HubView {
        id: Seq::<char>::empty(),
        name: info.name,
        version: info.version,
        host: match info.server {
            Some(s) => s.hostname,
            None => Seq::<char>::empty(),
        },
        port: match info.server {
            Some(s) => s.port,
            None => Seq::<char>::empty(),
        },
        repositories: match info.server {
            Some(s) => match s.repositories {
                Some(r) => r,
                None => Seq::<char>::empty(),
            },
            None => Seq::<char>::empty(),
        },
        relay_host: match info.relay {
            Some(r) => r.hostname,
            None => Seq::<char>::empty(),
        },
        relay_port: match info.relay {
            Some(r) => r.port,
            None => Seq::<char>::empty(),
        },
    }
}

/// The Server record a reconciliation cycle registers for any live non-Hub
/// node, built from the embedded endpoint description alone.
pub open spec fn spec_server_from_info(info: GetInfoResponseView) -> ServerView {
    ServerView {
        id: Seq::<char>::empty(),
        name: info.name,
        version: info.version,
        host: match info.server {
            Some(s) => s.hostname,
            None => Seq::<char>::empty(),
        },
        port: match info.server {
            Some(s) => s.port,
            None => Seq::<char>::empty(),
        },
        repositories: match info.server {
            Some(s) => match s.repositories {
                Some(r) => r,
                None => Seq::<char>::empty(),
            },
            None => Seq::<char>::empty(),
        },
    }
}

/// Builds the wire Hub record a cycle registers for a live Hub node.
pub fn build_hub_from_info(info: &GetInfoResponse) -> (h: GitstafetteHub)
    ensures
        h@ == spec_hub_from_info(info@),
{
    let mut hub = GitstafetteHub {
        id: String::new(),
        name: info.name.clone(),
        version: info.version.clone(),
        host: String::new(),
        port: String::new(),
        repositories: String::new(),
        relay_host: String::new(),
        relay_port: String::new(),
    };
    match &info.server {
        Some(server_info) => {
            hub.host = server_info.hostname.clone();
            hub.port = server_info.port.clone();
            match &server_info.repositories {
                Some(repositories) => {
                    hub.repositories = repositories.clone();
                },
                None => {},
            }
        },
        None => {},
    }
    match &info.relay {
        Some(relay_info) => {
            hub.relay_host = relay_info.hostname.clone();
            hub.relay_port = relay_info.port.clone();
        },
        None => {},
    }
    hub
}

/// Builds the wire Server record a cycle registers for a live non-Hub node.
pub fn build_server_from_info(info: &GetInfoResponse) -> (s: GitstafetteServer)
    ensures
        s@ == spec_server_from_info(info@),
{
    let mut server = GitstafetteServer {
        id: String::new(),
        name: info.name.clone(),
        version: info.version.clone(),
        host: String::new(),
        port: String::new(),
        repositories: String::new(),
    };
    match &info.server {
        Some(server_info) => {
            server.host = server_info.hostname.clone();
            server.port = server_info.port.clone();
            match &server_info.repositories {
                Some(repositories) => {
                    server.repositories = repositories.clone();
                },
                None => {},
            }
        },
        None => {},
    }
    server
}

/// Decides one reconciliation cycle from its poll outcome; `None` is a poll
/// that failed at the transport level. A failed poll or a node that is not
/// alive registers nothing, a live Hub is registered as a Hub, and any other
/// live node as a Server. Every outcome yields an action: no outcome ends
/// the loop.
pub fn reconcile_decide(poll: Option<GetInfoResponse>) -> (r: ReconcileAction)
    ensures
        poll is None ==> r is Skip,
        poll matches Some(info) ==> {
            &&& !info.alive ==> r is Skip
            &&& info.alive && info.instance_type == InstanceType::Hub ==> (
            r matches ReconcileAction::SendRegisterHub(req) && req.hub matches Some(h) && h@
                == spec_hub_from_info(info@))
            &&& info.alive && info.instance_type != InstanceType::Hub ==> (
            r matches ReconcileAction::SendRegisterServer(req) && req.server matches Some(s) && s@
                == spec_server_from_info(info@))
        },
{
    match poll {
        None => ReconcileAction::Skip,
        Some(info) => {
            if !info.alive {
                return ReconcileAction::Skip;
            }
            match info.instance_type {
                InstanceType::Hub => ReconcileAction::SendRegisterHub(
                    RegisterHubRequest { hub: Some(build_hub_from_info(&info)) },
                ),
                _ => ReconcileAction::SendRegisterServer(
                    RegisterServerRequest { server: Some(build_server_from_info(&info)) },
                ),
            }
        },
    }
}

/// Law (kind routing): for a live Hub node with a populated relay, the
/// registered Hub record's relay fields match the relay description. That a
/// live Server node never yields a Hub registration is pinned by
/// `reconcile_decide`'s contract.
pub proof fn lemma_kind_routing(info: GetInfoResponseView, relay: RelayInfoView)
    requires
        info.alive,
        info.instance_type == InstanceType::Hub,
        info.relay == Some(relay),
    ensures
        spec_hub_from_info(info).relay_host == relay.hostname,
        spec_hub_from_info(info).relay_port == relay.port,
{
}

} // verus!
