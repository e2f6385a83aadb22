use gitstafette_discovery::info::{GetInfoRequest, InfoService, InstanceType};

fn request() -> GetInfoRequest {
    GetInfoRequest {
        client_id: "myself".to_owned(),
        client_endpoint: "127.0.0.1:50051".to_owned(),
    }
}

#[test]
fn get_info_describes_a_live_discovery_node() {
    let svc = InfoService {};
    let info = svc.get_info(request(), "registry.internal".to_owned());
    assert!(info.alive);
    assert_eq!(info.instance_type, InstanceType::Discovery);
    assert_eq!(info.version, "0.1.0");
    assert_eq!(info.name, "Gitstafette Discovery");
    assert!(info.relay.is_none());
    let server = info.server.expect("a discovery node describes its endpoint");
    assert_eq!(server.hostname, "registry.internal");
    assert_eq!(server.ip, "127.0.0.1");
    assert_eq!(server.port, "50051");
    assert_eq!(server.protocol, "http");
    assert!(server.repositories.is_none());
}

#[test]
fn instance_type_codes_round_trip() {
    for kind in [InstanceType::Discovery, InstanceType::Hub, InstanceType::Server] {
        assert_eq!(InstanceType::from_code(kind.code()), Some(kind));
    }
    assert_eq!(InstanceType::from_code(0), Some(InstanceType::Discovery));
    assert_eq!(InstanceType::from_code(1), Some(InstanceType::Hub));
    assert_eq!(InstanceType::from_code(2), Some(InstanceType::Server));
}

#[test]
fn unknown_instance_type_code_is_absence_not_a_crash() {
    assert_eq!(InstanceType::from_code(3), None);
    assert_eq!(InstanceType::from_code(-1), None);
    assert_eq!(InstanceType::from_code(i32::MAX), None);
}
