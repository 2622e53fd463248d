use ascot::device::action::{Action, MandatoryAction};
use ascot::device::registry::Device;
use ascot::device::table::DeviceKind;
use ascot::error::Error;
use ascot::mqtt::{BrokerData, CLIENT_BUFFER_BYTES, MAX_PACKET_BYTES, SOCKET_BUFFER_BYTES};
use ascot::route::{RestKind, Route};
use ascot::server::{
    listener_bind, registrations, AscotServer, Server, ServiceConfig, DEFAULT_SERVER_PORT,
    DEFAULT_STACK_SIZE,
};
use ascot::wifi::{WifiConfig, WifiError, MAX_PASSWORD_BYTES, MAX_SSID_BYTES};

fn light() -> Device {
    let mut device = Device::new(DeviceKind::Light);
    device
        .add_action(Action::new(Route::put("/on"), 1).mandatory(MandatoryAction::TurnLightOn))
        .unwrap();
    device
        .add_action(Action::new(Route::put("/off"), 2).mandatory(MandatoryAction::TurnLightOff))
        .unwrap();
    device.add_info_action(Action::new(Route::get("/"), 3)).unwrap();
    device
}

#[test]
fn plan_of_a_constrained_server() {
    assert_eq!(DEFAULT_SERVER_PORT, 3000);
    assert_eq!(DEFAULT_STACK_SIZE, 10240);
    let plan = AscotServer::new(light()).run_with_service().unwrap();
    assert_eq!(plan.kind, DeviceKind::Light);
    assert_eq!(plan.port, 3000);
    assert_eq!(plan.stack_size, 10240);
    assert_eq!(plan.main_route, "/light");
    let bound: Vec<(RestKind, &str, u64)> = plan
        .registrations
        .iter()
        .map(|r| (r.method, r.path.as_str(), r.handler))
        .collect();
    assert_eq!(
        bound,
        vec![
            (RestKind::Put, "/light/on", 1),
            (RestKind::Put, "/light/off", 2),
            (RestKind::Get, "/light/", 3),
        ]
    );

    let plan = AscotServer::new(light())
        .port(8080)
        .stack_size(4096)
        .run_with_service()
        .unwrap();
    assert_eq!(plan.port, 8080);
    assert_eq!(plan.stack_size, 4096);
    let plan = AscotServer::new(light())
        .stack_size(4096)
        .port(8080)
        .run_with_service()
        .unwrap();
    assert_eq!((plan.port, plan.stack_size), (8080, 4096));

    assert_eq!(
        AscotServer::new(Device::new(DeviceKind::Light))
            .run_with_service()
            .err(),
        Some(Error::IncompleteDevice)
    );
}

#[test]
fn registrations_keep_the_order_of_the_actions() {
    let actions = vec![
        Action::new(Route::delete("/b"), 5),
        Action::new(Route::post("/a"), 4),
    ];
    let bound: Vec<(RestKind, String, u64)> = registrations("/p", &actions)
        .into_iter()
        .map(|r| (r.method, r.path, r.handler))
        .collect();
    assert_eq!(
        bound,
        vec![
            (RestKind::Delete, "/p/b".to_string(), 5),
            (RestKind::Post, "/p/a".to_string(), 4),
        ]
    );
    assert!(registrations("/p", &vec![]).is_empty());
}

#[test]
fn where_to_listen() {
    assert_eq!(listener_bind([0, 0, 0, 0], 3000), "0.0.0.0:3000");
    assert_eq!(listener_bind([192, 168, 1, 126], 80), "192.168.1.126:80");
    assert_eq!(listener_bind([255, 255, 255, 255], 65535), "255.255.255.255:65535");
    assert_eq!(listener_bind([10, 0, 100, 9], 0), "10.0.100.9:0");
}

#[test]
fn plan_of_a_general_server() {
    let plan = Server::new(light()).run().unwrap();
    assert_eq!(plan.kind, DeviceKind::Light);
    assert_eq!(plan.listener_bind, "0.0.0.0:3000");
    assert_eq!(plan.well_known_uri, "/.well-known/ascot");
    assert_eq!(plan.main_route, "/light");
    assert_eq!(plan.actions.len(), 3);
    assert!(plan.service.is_none());

    let plan = Server::new(light())
        .address([127, 0, 0, 1])
        .port(8000)
        .scheme("https")
        .well_known_service("fridge")
        .discovery_service(ServiceConfig::mdns_sd("device").property("a", "b"))
        .run()
        .unwrap();
    assert_eq!(plan.listener_bind, "127.0.0.1:8000");
    assert_eq!(plan.well_known_uri, "/.well-known/fridge");
    let service = plan.service.unwrap();
    assert_eq!(service.instance_name, "device");
    assert_eq!(
        service.properties,
        vec![
            ("a".to_string(), "b".to_string()),
            ("scheme".to_string(), "https".to_string()),
            ("path".to_string(), "/.well-known/fridge".to_string()),
        ]
    );

    let plan = Server::new(light())
        .discovery_service(ServiceConfig::mdns_sd("device"))
        .run()
        .unwrap();
    assert_eq!(
        plan.service.unwrap().properties,
        vec![
            ("scheme".to_string(), "http".to_string()),
            ("path".to_string(), "/.well-known/ascot".to_string()),
        ]
    );

    assert_eq!(
        Server::new(Device::new(DeviceKind::Fridge)).run().err(),
        Some(Error::IncompleteDevice)
    );
}

#[test]
fn wifi_credentials() {
    let check = |ssid: &'static str, password: &'static str| WifiConfig { ssid, password }.check();
    assert_eq!(check("", ""), Err(WifiError::MissingSsid));
    assert_eq!(check("", "secret"), Err(WifiError::MissingSsid));
    assert_eq!(check("home", ""), Err(WifiError::MissingPassword));
    assert_eq!(check("home", "secret"), Ok(()));
    assert_eq!(WifiConfig::empty().check(), Err(WifiError::MissingSsid));
    assert_eq!(WifiConfig::empty().ssid, "");
    assert_eq!(WifiConfig::empty().password, "");
    assert_eq!(WifiError::MissingSsid.message(), "Missing Wi-Fi SSID");
    assert_eq!(WifiError::MissingPassword.message(), "Missing Wifi password");
}

#[test]
fn wifi_credentials_have_to_fit() {
    assert_eq!((MAX_SSID_BYTES, MAX_PASSWORD_BYTES), (32, 64));
    let fits = |ssid: &'static str, password: &'static str| WifiConfig { ssid, password }.fits();
    assert!(fits("home", "secret"));
    assert!(fits("12345678901234567890123456789012", "x"));
    assert!(!fits("123456789012345678901234567890123", "x"));
    assert!(fits(
        "x",
        "1234567890123456789012345678901234567890123456789012345678901234"
    ));
    assert!(!fits(
        "x",
        "12345678901234567890123456789012345678901234567890123456789012345"
    ));
    // Sixteen characters of two bytes each fit, seventeen do not.
    assert!(fits("éééééééééééééééé", "x"));
    assert!(!fits("ééééééééééééééééé", "x"));
}

#[test]
fn broker_data() {
    assert_eq!((SOCKET_BUFFER_BYTES, CLIENT_BUFFER_BYTES, MAX_PACKET_BYTES), (1024, 80, 100));
    let by_name = BrokerData::url("broker.local", 1883);
    assert!(matches!(by_name, BrokerData::Url("broker.local", 1883)));
    assert_eq!(by_name.port(), 1883);
    assert_eq!(by_name.address(), None);
    let by_address = BrokerData::ip([10, 0, 0, 2], 8883);
    assert!(matches!(by_address, BrokerData::Ip([10, 0, 0, 2], 8883)));
    assert_eq!(by_address.port(), 8883);
    assert_eq!(by_address.address(), Some([10, 0, 0, 2]));
}
