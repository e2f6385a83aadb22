use gitstafette_discovery::info::{
    GetInfoResponse, InstanceType, RelayInfo, ServerInfo,
};
use gitstafette_discovery::reconcile::{
    build_hub_from_info, build_server_from_info, reconcile_decide, ReconcileAction,
};

fn live_info(kind: InstanceType) -> GetInfoResponse {
    GetInfoResponse {
        alive: true,
        instance_type: kind,
        version: "3.1".to_owned(),
        name: "node-a".to_owned(),
        server: Some(ServerInfo {
            hostname: "node-a.internal".to_owned(),
            ip: "10.1.0.1".to_owned(),
            port: "7777".to_owned(),
            protocol: "http".to_owned(),
            repositories: Some("repoX,repoY".to_owned()),
        }),
        relay: Some(RelayInfo { hostname: "relay.internal".to_owned(), port: "8888".to_owned() }),
    }
}

#[test]
fn failed_poll_skips_the_cycle() {
    assert!(matches!(reconcile_decide(None), ReconcileAction::Skip));
}

#[test]
fn not_alive_skips_the_cycle() {
    let mut info = live_info(InstanceType::Hub);
    info.alive = false;
    assert!(matches!(reconcile_decide(Some(info)), ReconcileAction::Skip));
}

#[test]
fn live_hub_routes_to_register_hub_with_relay_fields() {
    let action = reconcile_decide(Some(live_info(InstanceType::Hub)));
    match action {
        ReconcileAction::SendRegisterHub(request) => {
            let hub = request.hub.expect("the built request carries a hub");
            assert_eq!(hub.id, "");
            assert_eq!(hub.name, "node-a");
            assert_eq!(hub.version, "3.1");
            assert_eq!(hub.host, "node-a.internal");
            assert_eq!(hub.port, "7777");
            assert_eq!(hub.repositories, "repoX,repoY");
            assert_eq!(hub.relay_host, "relay.internal");
            assert_eq!(hub.relay_port, "8888");
        }
        other => panic!("a live hub must route to a hub registration, got {:?}", other),
    }
}

#[test]
fn live_server_never_routes_to_register_hub() {
    let action = reconcile_decide(Some(live_info(InstanceType::Server)));
    match action {
        ReconcileAction::SendRegisterServer(request) => {
            let server = request.server.expect("the built request carries a server");
            assert_eq!(server.id, "");
            assert_eq!(server.name, "node-a");
            assert_eq!(server.version, "3.1");
            assert_eq!(server.host, "node-a.internal");
            assert_eq!(server.port, "7777");
            assert_eq!(server.repositories, "repoX,repoY");
        }
        other => panic!("a live server must route to a server registration, got {:?}", other),
    }
}

#[test]
fn live_discovery_node_routes_to_register_server() {
    let action = reconcile_decide(Some(live_info(InstanceType::Discovery)));
    assert!(matches!(action, ReconcileAction::SendRegisterServer(_)));
}

#[test]
fn absent_endpoint_descriptions_leave_fields_empty() {
    let mut info = live_info(InstanceType::Hub);
    info.server = None;
    info.relay = None;
    let hub = build_hub_from_info(&info);
    assert_eq!(hub.id, "");
    assert_eq!(hub.name, "node-a");
    assert_eq!(hub.version, "3.1");
    assert_eq!(hub.host, "");
    assert_eq!(hub.port, "");
    assert_eq!(hub.repositories, "");
    assert_eq!(hub.relay_host, "");
    assert_eq!(hub.relay_port, "");
}

#[test]
fn absent_repositories_leave_field_empty() {
    let mut info = live_info(InstanceType::Server);
    if let Some(server_info) = &mut info.server {
        server_info.repositories = None;
    }
    let server = build_server_from_info(&info);
    assert_eq!(server.host, "node-a.internal");
    assert_eq!(server.repositories, "");
}
