use gitstafette_discovery::discovery::{
    DiscoveryService, GetHubsRequest, GetServersRequest, GitstafetteHub, GitstafetteServer,
    RegisterHubRequest, RegisterServerRequest, RpcErrorCode,
};
use gitstafette_discovery::store::{InMemoryStore, Store};

fn service() -> DiscoveryService {
    DiscoveryService::new(InMemoryStore::new())
}

fn wire_hub() -> GitstafetteHub {
    GitstafetteHub {
        id: "h1".to_owned(),
        name: "hub-a".to_owned(),
        version: "1.0".to_owned(),
        host: "10.0.0.1".to_owned(),
        port: "9000".to_owned(),
        repositories: "repoA,repoB".to_owned(),
        relay_host: "10.0.0.2".to_owned(),
        relay_port: "9100".to_owned(),
    }
}

fn wire_server() -> GitstafetteServer {
    GitstafetteServer {
        id: "s1".to_owned(),
        name: "server-a".to_owned(),
        version: "2.0".to_owned(),
        host: "10.0.0.3".to_owned(),
        port: "9001".to_owned(),
        repositories: "repoC".to_owned(),
    }
}

fn hubs_query() -> GetHubsRequest {
    GetHubsRequest {
        client_id: "test".to_owned(),
        name: "test".to_owned(),
        host: "test".to_owned(),
        port: "0".to_owned(),
    }
}

fn servers_query() -> GetServersRequest {
    GetServersRequest {
        client_id: "test".to_owned(),
        name: "test".to_owned(),
        host: "test".to_owned(),
        port: "0".to_owned(),
    }
}

#[test]
fn register_hub_round_trips_field_for_field() {
    let mut svc = service();
    let response = svc
        .register_hub(RegisterHubRequest { hub: Some(wire_hub()) })
        .expect("a request with a hub payload must succeed");
    let register = response.response.expect("a response payload is always set");
    assert!(register.success);
    assert_eq!(register.message, "Hub registered");
    assert_eq!(register.error, "");
    assert_eq!(register.error_code, "");

    let listed = svc.get_hubs(hubs_query()).hubs;
    assert_eq!(listed.len(), 1);
    let got = &listed[0];
    assert_eq!(got.id, "h1");
    assert_eq!(got.name, "hub-a");
    assert_eq!(got.version, "1.0");
    assert_eq!(got.host, "10.0.0.1");
    assert_eq!(got.port, "9000");
    assert_eq!(got.repositories, "repoA,repoB");
    assert_eq!(got.relay_host, "10.0.0.2");
    assert_eq!(got.relay_port, "9100");
}

#[test]
fn register_server_round_trips_field_for_field() {
    let mut svc = service();
    let response = svc
        .register_server(RegisterServerRequest { server: Some(wire_server()) })
        .expect("a request with a server payload must succeed");
    assert!(response.response.expect("a response payload is always set").success);

    let listed = svc.get_servers(servers_query()).servers;
    assert_eq!(listed.len(), 1);
    let got = &listed[0];
    assert_eq!(got.id, "s1");
    assert_eq!(got.name, "server-a");
    assert_eq!(got.version, "2.0");
    assert_eq!(got.host, "10.0.0.3");
    assert_eq!(got.port, "9001");
    assert_eq!(got.repositories, "repoC");
}

#[test]
fn missing_hub_payload_is_invalid_argument_not_a_crash() {
    let mut svc = service();
    let err = svc
        .register_hub(RegisterHubRequest { hub: None })
        .expect_err("a request with no hub payload must be rejected");
    assert_eq!(err.code, RpcErrorCode::InvalidArgument);
    assert!(svc.get_hubs(hubs_query()).hubs.is_empty());
}

#[test]
fn missing_server_payload_is_invalid_argument_not_a_crash() {
    let mut svc = service();
    let err = svc
        .register_server(RegisterServerRequest { server: None })
        .expect_err("a request with no server payload must be rejected");
    assert_eq!(err.code, RpcErrorCode::InvalidArgument);
    assert!(svc.get_servers(servers_query()).servers.is_empty());
}

#[test]
fn registering_a_hub_never_affects_listed_servers() {
    let mut svc = service();
    svc.register_server(RegisterServerRequest { server: Some(wire_server()) })
        .expect("server registration succeeds");
    svc.register_hub(RegisterHubRequest { hub: Some(wire_hub()) })
        .expect("hub registration succeeds");
    let servers = svc.get_servers(servers_query()).servers;
    assert_eq!(servers.len(), 1);
    assert_eq!(servers[0].id, "s1");
    let hubs = svc.get_hubs(hubs_query()).hubs;
    assert_eq!(hubs.len(), 1);
    assert_eq!(hubs[0].id, "h1");
}

#[test]
fn reregistration_overwrites_within_service() {
    let mut svc = service();
    svc.register_hub(RegisterHubRequest { hub: Some(wire_hub()) })
        .expect("first registration succeeds");
    let mut second = wire_hub();
    second.name = "hub-b".to_owned();
    svc.register_hub(RegisterHubRequest { hub: Some(second) })
        .expect("second registration succeeds");
    let listed = svc.get_hubs(hubs_query()).hubs;
    assert_eq!(listed.len(), 1);
    assert_eq!(listed[0].name, "hub-b");
}

#[test]
fn query_filter_fields_are_ignored() {
    let mut svc = service();
    svc.register_hub(RegisterHubRequest { hub: Some(wire_hub()) })
        .expect("registration succeeds");
    let narrow = GetHubsRequest {
        client_id: "someone-else".to_owned(),
        name: "no-such-name".to_owned(),
        host: "no-such-host".to_owned(),
        port: "1".to_owned(),
    };
    assert_eq!(svc.get_hubs(narrow).hubs.len(), 1);
}
