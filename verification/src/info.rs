//! The info service: a pure self-description endpoint. It reports the
//! process's liveness flag, kind, version and name, and, depending on kind,
//! the address of its serving endpoint and of its companion relay. It never
//! touches the registry.

use vstd::prelude::*;

verus! {

/// The kind of node an Info response describes.
#[derive(Debug, Clone, Copy, PartialEq, Eq, Structural)]
pub enum InstanceType {
    Discovery,
    Hub,
    Server,
}

/// The wire coding of each node kind.
pub open spec fn instance_type_from_code(code: int) -> Option<InstanceType> {
    if code == 0 {
        Some(InstanceType::Discovery)
    } else if code == 1 {
        Some(InstanceType::Hub)
    } else if code == 2 {
        Some(InstanceType::Server)
    } else {
        None
    }
}

impl InstanceType {
    /// Decodes a wire integer into a node kind; an unknown value is absence,
    /// not a crash.
    pub fn from_code(code: i32) -> (r: Option<InstanceType>)
        ensures
            r == instance_type_from_code(code as int),
    {
        if code == 0 {
            Some(InstanceType::Discovery)
        } else if code == 1 {
            Some(InstanceType::Hub)
        } else if code == 2 {
            Some(InstanceType::Server)
        } else {
            None
        }
    }

    /// The wire integer of this node kind.
    pub fn code(&self) -> (r: i32)
        ensures
            instance_type_from_code(r as int) == Some(*self),
    {
        match self {
            InstanceType::Discovery => 0,
            InstanceType::Hub => 1,
            InstanceType::Server => 2,
        }
    }
}

/// The mathematical content of a serving-endpoint description.
pub ghost struct ServerInfoView {
    pub hostname: Seq<char>,
    pub ip: Seq<char>,
    pub port: Seq<char>,
    pub protocol: Seq<char>,
    pub repositories: Option<Seq<char>>,
}

/// The mathematical content of a relay-endpoint description.
pub ghost struct RelayInfoView {
    pub hostname: Seq<char>,
    pub port: Seq<char>,
}

/// The mathematical content of an Info response.
pub ghost struct GetInfoResponseView {
    pub alive: bool,
    pub instance_type: InstanceType,
    pub version: Seq<char>,
    pub name: Seq<char>,
    pub server: Option<ServerInfoView>,
    pub relay: Option<RelayInfoView>,
}

/// Where and how a node serves, and which repositories it serves, if stated.
#[derive(Debug, Clone)]
pub struct ServerInfo {
    pub hostname: String,
    pub ip: String,
    pub port: String,
    pub protocol: String,
    pub repositories: Option<String>,
}

/// The address of a Hub's companion relay.
#[derive(Debug, Clone)]
pub struct RelayInfo {
    pub hostname: String,
    pub port: String,
}

/// Who is asking, and where the asking client can be reached.
#[derive(Debug, Clone)]
pub struct GetInfoRequest {
    pub client_id: String,
    pub client_endpoint: String,
}

/// A node's self-description: liveness, kind, version and name, and the
/// endpoint descriptions its kind calls for.
#[derive(Debug, Clone)]
pub struct GetInfoResponse {
    pub alive: bool,
    pub instance_type: InstanceType,
    pub version: String,
    pub name: String,
    pub server: Option<ServerInfo>,
    pub relay: Option<RelayInfo>,
}

impl View for ServerInfo {
    type V = ServerInfoView;

    open spec fn view(&self) -> ServerInfoView {
        ServerInfoView {
            hostname: self.hostname@,
            ip: self.ip@,
            port: self.port@,
            protocol: self.protocol@,
            repositories: match self.repositories {
                Some(r) => Some(r@),
                None => None,
            },
        }
    }
}

impl View for RelayInfo {
    type V = RelayInfoView;

    open spec fn view(&self) -> RelayInfoView {
        RelayInfoView { hostname: self.hostname@, port: self.port@ }
    }
}

impl View for GetInfoResponse {
    type V = GetInfoResponseView;

    open spec fn view(&self) -> GetInfoResponseView {
        GetInfoResponseView {
            alive: self.alive,
            instance_type: self.instance_type,
            version: self.version@,
            name: self.name@,
            server: match self.server {
                Some(s) => Some(s@),
                None => None,
            },
            relay: match self.relay {
                Some(r) => Some(r@),
                None => None,
            },
        }
    }
}

/// The RPC-facing info service of the discovery process itself.
#[derive(Debug)]
pub struct InfoService {}

impl InfoService {
    /// Describes this process: always alive while reachable, of Discovery
    /// kind, serving plain HTTP on the standard listen port of the given
    /// host, with no repositories and no relay. The request's fields are
    /// accepted but not read.
    pub fn get_info(&self, _request: GetInfoRequest, hostname: String) -> (r: GetInfoResponse)
        ensures
            r.alive == true,
            r.instance_type == InstanceType::Discovery,
            r.version@ == "0.1.0"@,
            r.name@ == "Gitstafette Discovery"@,
            r.relay is None,
            r.server matches Some(s) && s.hostname@ == hostname@ && s.ip@ == "127.0.0.1"@
                && s.port@ == "50051"@ && s.protocol@ == "http"@ && s.repositories is None,
    {
        let server_info = ServerInfo {
            hostname,
            ip: "127.0.0.1".to_owned(),
            port: "50051".to_owned(),
            protocol: "http".to_owned(),
            repositories: None,
        };
        GetInfoResponse {
            alive: true,
            instance_type: InstanceType::Discovery,
            version: "0.1.0".to_owned(),
            name: "Gitstafette Discovery".to_owned(),
            server: Some(server_info),
            relay: None,
        }
    }
}

} // verus!
