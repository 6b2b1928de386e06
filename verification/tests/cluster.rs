use fleet_core::health::address::{choose_mac, dotted_text, IpAddr, MacAddr};
use fleet_core::health::cluster::{
    extract_manager_devices, manager_credentials, read_manager_devices, DeviceEntry,
};
use fleet_core::health::config::ClusterEndpointSourceConfig;
use fleet_core::health::endpoint::{
    build_endpoints, connected_endpoints, endpoint_identity, resolve_mac, BmcCredentials,
    EndpointBuild, SkipReason,
};
use fleet_core::health::error::HealthError;
use fleet_core::health::inventory::{ClusterNode, FileCredentials, FileInventory, FileNode};
use fleet_core::health::json::Json;
use fleet_core::health::rpc::{
    devices_request, json_rpc_url, manager_rpc_url, partition_request, rpc_body, rpc_sent,
    HttpStatus, ManagerCall,
};
use fleet_core::health::source::{ClusterEndpointSource, LoadAction, LoadEvent, LoadState};
use fleet_core::ids::Uuid;
use mac_address::MacAddress;
use std::collections::BTreeMap;
use std::str::FromStr;

fn file_node(octets: [u8; 4], credentials: Option<FileCredentials>) -> FileNode {
    FileNode {
        hostname: None,
        bmc_ip: IpAddr::V4(octets),
        bmc_mac: None,
        rack: None,
        uuid: None,
        labels: BTreeMap::new(),
        credentials,
    }
}

fn credentials(username: &str, password: Option<&str>) -> FileCredentials {
    FileCredentials {
        username: username.to_string(),
        password: password.map(str::to_string),
    }
}

#[test]
fn file_inventory_resolves_default_and_per_node_credentials() {
    // Two nodes at 10.0.0.1 and 10.0.0.2; the second has credentials of its own.
    let inventory = FileInventory {
        default_credentials: credentials("admin", Some("default-secret")),
        nodes: vec![
            file_node([10, 0, 0, 1], None),
            file_node([10, 0, 0, 2], Some(credentials("root", Some("node-secret")))),
        ],
    };

    let nodes = inventory.into_cluster_nodes();
    assert_eq!(nodes[0].username, "admin");
    assert_eq!(nodes[0].password.as_deref(), Some("default-secret"));
    assert_eq!(nodes[1].username, "root");
    assert_eq!(nodes[1].password.as_deref(), Some("node-secret"));
}

#[test]
fn own_credentials_without_a_password_are_not_mixed_with_the_default_ones() {
    let inventory = FileInventory {
        default_credentials: credentials("admin", Some("default-secret")),
        nodes: vec![file_node([10, 0, 0, 1], Some(credentials("root", None)))],
    };
    let nodes = inventory.into_cluster_nodes();
    assert_eq!(nodes[0].username, "root");
    assert_eq!(nodes[0].password, None);
}

#[test]
fn an_empty_rack_is_no_rack() {
    let mut empty = file_node([10, 0, 0, 1], None);
    empty.rack = Some(String::new());
    let mut named = file_node([10, 0, 0, 2], None);
    named.rack = Some("rack-01".to_string());
    named.hostname = Some("node-02".to_string());
    let nodes = FileInventory {
        default_credentials: credentials("admin", None),
        nodes: vec![empty, named],
    }
    .into_cluster_nodes();
    assert_eq!(nodes.len(), 2);
    assert_eq!(nodes[0].rack, None);
    assert_eq!(nodes[1].rack.as_deref(), Some("rack-01"));
    assert_eq!(nodes[1].hostname.as_deref(), Some("node-02"));
}

fn node(bmc_ip: IpAddr, bmc_mac: Option<&str>) -> ClusterNode {
    ClusterNode {
        hostname: None,
        bmc_ip,
        bmc_mac: bmc_mac.map(str::to_string),
        rack: None,
        uuid: None,
        inventory_labels: BTreeMap::new(),
        username: "admin".to_string(),
        password: None,
    }
}

/// The octets of a dotted address.
fn v4(text: &str) -> IpAddr {
    let octets: Vec<u8> = text.split('.').map(|part| part.parse().unwrap()).collect();
    IpAddr::V4([octets[0], octets[1], octets[2], octets[3]])
}

fn mac(text: &str) -> MacAddr {
    MacAddr {
        octets: MacAddress::from_str(text).unwrap().bytes(),
    }
}

#[test]
fn build_endpoints_prefers_inventory_mac_and_falls_back_to_synthetic_mac() {
    let inventory_mac = MacAddress::from_str("aa:bb:cc:dd:ee:ff").unwrap();
    let inventory_uuid = Uuid::from_u128(
        uuid::Uuid::parse_str("550e8400-e29b-41d4-a716-446655440000")
            .unwrap()
            .as_u128(),
    );
    let nodes = vec![
        ClusterNode {
            hostname: None,
            bmc_ip: v4("10.0.0.1"),
            bmc_mac: Some(inventory_mac.to_string()),
            rack: None,
            uuid: Some(inventory_uuid),
            inventory_labels: BTreeMap::from([
                ("compute_zone".to_string(), "az51".to_string()),
                ("node_group".to_string(), "dev3-dh1".to_string()),
            ]),
            username: "admin".to_string(),
            password: None,
        },
        ClusterNode {
            hostname: None,
            bmc_ip: v4("10.0.0.2"),
            bmc_mac: None,
            rack: None,
            uuid: None,
            inventory_labels: BTreeMap::new(),
            username: "admin".to_string(),
            password: None,
        },
    ];

    let endpoints = build_endpoints(nodes, None).endpoints;

    assert_eq!(endpoints[0].addr.mac.octets, inventory_mac.bytes());
    assert_eq!(endpoints[0].uuid, Some(inventory_uuid));
    assert_eq!(
        endpoints[0]
            .inventory_labels
            .get("compute_zone")
            .map(String::as_str),
        Some("az51")
    );
    assert_eq!(
        endpoints[0]
            .inventory_labels
            .get("node_group")
            .map(String::as_str),
        Some("dev3-dh1")
    );
    assert_eq!(endpoints[1].addr.mac, mac("02:00:0a:00:00:02"));
}

#[test]
fn build_endpoints_skips_invalid_inventory_mac() {
    let nodes = vec![ClusterNode {
        hostname: None,
        bmc_ip: v4("10.0.0.1"),
        bmc_mac: Some("not-a-mac".to_string()),
        rack: None,
        uuid: None,
        inventory_labels: BTreeMap::new(),
        username: "admin".to_string(),
        password: None,
    }];

    assert!(build_endpoints(nodes, None).endpoints.is_empty());
}

#[test]
fn build_endpoints_keeps_the_order_and_says_what_it_skipped() {
    let mut named = node(v4("10.0.0.1"), Some("AA-BB-CC-DD-EE-01"));
    named.hostname = Some("node-01".to_string());
    named.rack = Some("rack-01".to_string());
    named.password = Some("secret".to_string());
    let nodes = vec![
        named,
        node(IpAddr::V6([0xfe80, 0, 0, 0, 0, 0, 0, 1]), None),
        node(v4("10.0.0.3"), Some("aabbccddee03")),
        node(v4("10.0.0.4"), Some("zz:bb:cc:dd:ee:ff")),
        node(v4("10.0.0.5"), Some("")),
        node(v4("10.0.0.6"), Some("80:F\u{c1}:5B:41:10:6B")),
        node(v4("192.168.255.7"), None),
    ];
    let build = build_endpoints(nodes, Some(8443));

    assert_eq!(build.endpoints.len(), 3);
    assert_eq!(build.endpoints[0].addr.ip, v4("10.0.0.1"));
    assert_eq!(build.endpoints[0].addr.port, Some(8443));
    assert_eq!(
        build.endpoints[0].addr.mac.octets,
        [0xaa, 0xbb, 0xcc, 0xdd, 0xee, 0x01]
    );
    assert!(build.endpoints[0].metadata.is_none());
    assert_eq!(build.endpoints[0].rack_id.as_ref().unwrap().id, "rack-01");
    match &build.endpoints[0].credentials {
        BmcCredentials::UsernamePassword { username, password } => {
            assert_eq!(username, "admin");
            assert_eq!(password.as_deref(), Some("secret"));
        }
    }
    assert_eq!(
        build.endpoints[1].addr.mac.octets,
        [0xaa, 0xbb, 0xcc, 0xdd, 0xee, 0x03]
    );
    assert!(build.endpoints[1].rack_id.is_none());
    assert_eq!(
        build.endpoints[2].addr.mac.octets,
        [0x02, 0x00, 192, 168, 255, 7]
    );
    assert_eq!(build.identities, vec!["node-01", "10.0.0.3", "192.168.255.7"]);

    let reasons: Vec<SkipReason> = build.skipped.iter().map(|skipped| skipped.reason).collect();
    assert_eq!(
        reasons,
        vec![
            SkipReason::NotIpv4,
            SkipReason::InvalidMac,
            SkipReason::InvalidMac,
            SkipReason::InvalidMac
        ]
    );
    assert_eq!(
        build.skipped[1].node.bmc_mac.as_deref(),
        Some("zz:bb:cc:dd:ee:ff")
    );
}

#[test]
fn identities_are_host_names_then_identifiers_then_addresses() {
    let mut named = node(v4("10.0.0.1"), None);
    named.hostname = Some("node-01".to_string());
    named.uuid = Some(Uuid::from_u128(1));
    assert_eq!(endpoint_identity(&named, "10.0.0.1"), "node-01");
    named.hostname = None;
    assert_eq!(
        endpoint_identity(&named, "10.0.0.1"),
        "00000000-0000-0000-0000-000000000001"
    );
    named.uuid = None;
    assert_eq!(endpoint_identity(&named, "10.0.0.1"), "10.0.0.1");
    let unnamed = node(IpAddr::V6([0xfe80, 0, 0, 0, 0, 0, 0, 1]), None);
    assert_eq!(endpoint_identity(&unnamed, "fe80::1"), "fe80::1");
    assert_eq!(dotted_text([255, 0, 100, 99]), "255.0.100.99");
    assert_eq!(dotted_text([9, 10, 109, 200]), "9.10.109.200");
}

#[test]
fn endpoints_without_a_client_are_skipped() {
    let build = || {
        build_endpoints(
            vec![
                node(v4("10.0.0.1"), None),
                node(v4("10.0.0.2"), None),
                node(v4("10.0.0.3"), None),
                node(v4("10.0.0.4"), None),
            ],
            None,
        )
    };
    let ips = |flags: Vec<bool>| -> Vec<IpAddr> {
        connected_endpoints(build(), &flags)
            .iter()
            .map(|endpoint| endpoint.addr.ip)
            .collect()
    };
    assert_eq!(
        ips(vec![true, false, true, true]),
        vec![v4("10.0.0.1"), v4("10.0.0.3"), v4("10.0.0.4")]
    );
    assert_eq!(ips(vec![false, true]), vec![v4("10.0.0.2")]);
    assert!(ips(vec![false, false, false, false]).is_empty());
}

#[test]
fn hardware_addresses_are_resolved_or_the_node_is_skipped() {
    let of = |text: &str| resolve_mac(&node(v4("10.0.0.1"), Some(text)));
    let expected = MacAddr {
        octets: [0x80, 0xfa, 0x5b, 0x41, 0x10, 0x6b],
    };
    for text in ["80:FA:5B:41:10:6B", "80-fa-5b-41-10-6b", "80fa5b41106B"] {
        assert_eq!(of(text), Ok(expected));
    }
    for text in ["+0:FA-5B:41:10:6B", "+0fa5b41106b"] {
        assert_eq!(
            of(text),
            Ok(MacAddr {
                octets: [0x00, 0xfa, 0x5b, 0x41, 0x10, 0x6b],
            })
        );
    }
    for text in [
        "AA:BB:CC:DD:EE:GG",
        "80-FA-5B-41-10-6+",
        "80 FA 5B 41 10 6B",
        "80fa5b41106g",
        "80fa5b41106+",
        "++fa5b41106b",
        "80fa5b-1106b",
    ] {
        assert_eq!(of(text), Err(SkipReason::InvalidMac), "{text}");
    }
    for text in ["", "80:FA:5B:41", "80:FA:5B:41:10:6B:AC", "80:F\u{c1}:5B:41:10:6B"] {
        assert_eq!(of(text), Err(SkipReason::InvalidMac));
    }
    let v6 = node(IpAddr::V6([0; 8]), Some("80:FA:5B:41:10:6B"));
    assert_eq!(resolve_mac(&v6), Err(SkipReason::NotIpv4));
    assert_eq!(
        resolve_mac(&node(v4("10.0.0.1"), None)),
        Ok(mac("02:00:0a:00:00:01"))
    );
}

#[test]
fn synthetic_macs_are_local_and_distinct() {
    let a = choose_mac(None, [10, 0, 0, 1]).unwrap();
    let b = choose_mac(None, [10, 0, 1, 0]).unwrap();
    assert_eq!(a.octets, [0x02, 0x00, 10, 0, 0, 1]);
    assert_ne!(a, b);
    assert_eq!(a.octets[0] & 0x03, 0x02);
    assert_eq!(choose_mac(Some(Some(b)), [10, 0, 0, 1]), Some(b));
    assert_eq!(choose_mac(Some(None), [10, 0, 0, 1]), None);
}

fn text(value: &str) -> Json {
    Json::Str(value.to_string())
}

fn object(entries: Vec<(&str, Json)>) -> Json {
    Json::Object(
        entries
            .into_iter()
            .map(|(key, value)| (key.to_string(), value))
            .collect(),
    )
}

fn config() -> ClusterEndpointSourceConfig {
    ClusterEndpointSourceConfig {
        cluster_manager_url: None,
        cluster_manager_partition: "base".to_string(),
        default_username: "fallback".to_string(),
        default_password: Some("fallback-secret".to_string()),
        inventory_path: "/etc/cluster.json".to_string(),
        port: None,
    }
}

fn both(reply: Option<&Json>) -> (String, Option<String>) {
    manager_credentials(reply, &config())
}

fn pair(username: &str, password: &str) -> (String, Option<String>) {
    (username.to_string(), Some(password.to_string()))
}

#[test]
fn credentials_are_found_at_any_of_three_places() {
    let settings = || object(vec![("username", text("root")), ("password", text("pw"))]);
    let at_top = object(vec![("bmcSettings", settings())]);
    let in_result = object(vec![("result", object(vec![("bmcSettings", settings())]))]);
    let in_data = object(vec![("data", object(vec![("bmcSettings", settings())]))]);
    for reply in [at_top, in_result, in_data] {
        assert_eq!(both(Some(&reply)), pair("root", "pw"));
    }
    let other_names = object(vec![(
        "bmcSettings",
        object(vec![("userName", text("op")), ("bmcPassword", text("pw2"))]),
    )]);
    assert_eq!(both(Some(&other_names)), pair("op", "pw2"));
}

#[test]
fn missing_credentials_fall_back_to_the_configuration() {
    let fallback = pair("fallback", "fallback-secret");
    assert_eq!(both(None), fallback);
    assert_eq!(both(Some(&Json::Null)), fallback);
    assert_eq!(both(Some(&Json::Array(Vec::new()))), fallback);
    let only_name = object(vec![("bmcSettings", object(vec![("username", text("root"))]))]);
    assert_eq!(both(Some(&only_name)), pair("root", "fallback-secret"));
    // A first key that is there but no string hides the second.
    let hidden = object(vec![(
        "bmcSettings",
        object(vec![
            ("username", Json::Null),
            ("userName", text("op")),
            ("password", Json::Number("7".to_string())),
            ("bmcPassword", text("pw")),
        ]),
    )]);
    assert_eq!(both(Some(&hidden)), fallback);
    // So does a first place that is no object.
    let shadowed = object(vec![
        ("bmcSettings", Json::Bool(true)),
        (
            "data",
            object(vec![("bmcSettings", object(vec![("username", text("x"))]))]),
        ),
    ]);
    assert_eq!(both(Some(&shadowed)), fallback);
}

fn device(hostname: &str, interface: &str, ip: &str) -> Json {
    object(vec![
        ("hostname", text(hostname)),
        (
            "interfaces",
            object(vec![(interface, object(vec![("ip", text(ip))]))]),
        ),
    ])
}

fn error_text(error: HealthError) -> String {
    match error {
        HealthError::GenericError(message) => message,
        _ => panic!("expected a generic error"),
    }
}

#[test]
fn devices_are_listed_at_the_top_or_under_four_names() {
    let list = || Json::Array(vec![device("n1", "ipmi0", "10.0.0.1")]);
    assert_eq!(read_manager_devices(&list()).unwrap().len(), 1);
    for key in ["result", "data", "items", "devices"] {
        let devices = read_manager_devices(&object(vec![(key, list())])).unwrap();
        assert_eq!(devices[0].hostname.as_deref(), Some("n1"));
    }
    // The first that is an array counts.
    let raw = object(vec![
        ("devices", Json::Array(Vec::new())),
        ("data", list()),
        ("result", Json::Null),
    ]);
    assert_eq!(read_manager_devices(&raw).unwrap().len(), 1);
    for raw in [Json::Null, text("x"), object(vec![("nodes", list())])] {
        assert_eq!(
            error_text(read_manager_devices(&raw).unwrap_err()),
            "Cluster manager getDevices response has no recognized shape; probe /api on head node and update extract_manager_devices in cluster.rs"
        );
    }
}

#[test]
fn devices_have_their_address_at_any_of_seven_places() {
    for interface in ["ipmi0", "bmc", "ilo0", "rf0"] {
        let devices =
            read_manager_devices(&Json::Array(vec![device("n", interface, "10.0.0.9")])).unwrap();
        assert_eq!(devices[0].bmc_ip.as_deref(), Some("10.0.0.9"));
    }
    for key in ["bmcAddress", "bmcIp", "ipmiAddress"] {
        let devices =
            read_manager_devices(&Json::Array(vec![object(vec![(key, text("10.0.0.8"))])]))
                .unwrap();
        assert_eq!(devices[0].bmc_ip.as_deref(), Some("10.0.0.8"));
        assert_eq!(devices[0].hostname, None);
    }
    // An interface goes before the top level, and a value that is no string hides the others.
    let raw = Json::Array(vec![
        object(vec![
            ("bmcAddress", text("10.0.0.1")),
            (
                "interfaces",
                object(vec![("rf0", object(vec![("ip", text("10.0.0.2"))]))]),
            ),
        ]),
        object(vec![("bmcAddress", Json::Null), ("bmcIp", text("10.0.0.3"))]),
        object(vec![("interfaces", object(vec![("eth0", Json::Null)]))]),
    ]);
    let devices = read_manager_devices(&raw).unwrap();
    assert_eq!(devices[0].bmc_ip.as_deref(), Some("10.0.0.2"));
    assert_eq!(devices[1].bmc_ip, None);
    assert_eq!(devices[2].bmc_ip, None);
}

#[test]
fn the_rack_of_a_device_is_its_category_or_partition() {
    let raw = Json::Array(vec![
        object(vec![("category", text("gpu")), ("partition", text("base"))]),
        object(vec![("partition", text("base")), ("name", text("n2"))]),
        object(vec![("category", text("")), ("partition", text("base"))]),
    ]);
    let devices = read_manager_devices(&raw).unwrap();
    assert_eq!(devices[0].rack.as_deref(), Some("gpu"));
    assert_eq!(devices[1].rack.as_deref(), Some("base"));
    assert_eq!(devices[1].hostname.as_deref(), Some("n2"));
    assert_eq!(devices[2].rack, None);
}

fn entry(hostname: &str, bmc_ip: Option<&str>) -> DeviceEntry {
    DeviceEntry {
        hostname: Some(hostname.to_string()),
        bmc_ip: bmc_ip.map(str::to_string),
        rack: Some("gpu".to_string()),
    }
}

#[test]
fn devices_without_an_address_are_skipped() {
    let devices = vec![
        entry("n1", Some("10.0.0.1")),
        entry("n2", None),
        entry("n3", Some("nonsense")),
        entry("n4", Some("10.0.0.4")),
        entry("n5", Some("10.0.0.5")),
    ];
    let addresses = vec![
        Some(v4("10.0.0.1")),
        Some(v4("10.0.0.2")),
        None,
        Some(v4("10.0.0.4")),
    ];
    let nodes = extract_manager_devices(
        devices,
        addresses,
        "root".to_string(),
        Some("pw".to_string()),
    )
    .unwrap();
    assert_eq!(nodes.len(), 2);
    assert_eq!(nodes[0].hostname.as_deref(), Some("n1"));
    assert_eq!(nodes[1].hostname.as_deref(), Some("n4"));
    assert_eq!(nodes[1].bmc_ip, v4("10.0.0.4"));
    assert_eq!(nodes[1].rack.as_deref(), Some("gpu"));
    assert_eq!(nodes[1].username, "root");
    assert_eq!(nodes[1].password.as_deref(), Some("pw"));
    assert_eq!(nodes[1].bmc_mac, None);
    assert_eq!(nodes[1].uuid, None);
    assert!(nodes[1].inventory_labels.is_empty());
}

#[test]
fn devices_that_all_lack_an_address_are_an_error_but_no_devices_are_none() {
    let result = extract_manager_devices(
        vec![entry("n1", None)],
        vec![None],
        "root".to_string(),
        None,
    );
    assert_eq!(
        error_text(result.unwrap_err()),
        "Cluster manager getDevices returned entries but none had a recognized BMC IP; probe /api on head node and update extract_manager_devices in cluster.rs"
    );
    let result = extract_manager_devices(Vec::new(), Vec::new(), "root".to_string(), None);
    assert!(result.unwrap().is_empty());
}

fn string_at<'a>(value: &'a Json, key: &str) -> &'a str {
    match value.get(key) {
        Some(Json::Str(text)) => text,
        _ => panic!("expected a string"),
    }
}

#[test]
fn requests_name_service_call_and_argument() {
    let partition = partition_request("base");
    assert_eq!(string_at(&partition, "service"), "cmpart");
    assert_eq!(string_at(&partition, "call"), "getPartition");
    assert_eq!(string_at(&partition, "arg"), "base");
    let devices = devices_request();
    assert_eq!(string_at(&devices, "service"), "cmdevice");
    assert_eq!(string_at(&devices, "call"), "getDevices");
    match devices.get2("arg", "type") {
        Some(Json::Str(text)) => assert_eq!(text, "PhysicalNode"),
        _ => panic!("the devices are asked for by type"),
    }
}

#[test]
fn responses_that_are_no_success_are_errors() {
    let call = ManagerCall::Devices;
    assert!(HttpStatus::new(99).is_none());
    assert!(HttpStatus::new(1000).is_none());
    for code in [200, 204, 299] {
        assert!(rpc_sent(call, Ok(HttpStatus::new(code).unwrap())).is_ok());
    }
    for (code, status) in [
        (199, "199 <unknown status code>"),
        (300, "300 Multiple Choices"),
        (404, "404 Not Found"),
        (503, "503 Service Unavailable"),
    ] {
        let result = rpc_sent(call, Ok(HttpStatus::new(code).unwrap()));
        assert_eq!(
            error_text(result.unwrap_err()),
            format!("cluster manager RPC cmdevice.getDevices returned HTTP {status}")
        );
    }
    assert_eq!(
        error_text(rpc_sent(ManagerCall::Partition, Err("refused".to_string())).unwrap_err()),
        "cluster manager RPC cmpart.getPartition failed: refused"
    );
    assert_eq!(
        error_text(rpc_body(call, Err("EOF".to_string())).unwrap_err()),
        "cluster manager RPC cmdevice.getDevices parse failed: EOF"
    );
    assert!(matches!(rpc_body(call, Ok(Json::Null)), Ok(Json::Null)));
}

#[test]
fn calls_go_to_json_on_the_manager() {
    assert_eq!(
        manager_rpc_url("https://head:8081/api?x=1").unwrap(),
        "https://head:8081/json/"
    );
    assert_eq!(
        error_text(manager_rpc_url("head node").unwrap_err()),
        "Invalid cluster manager URL: relative URL without a base"
    );
    assert_eq!(
        error_text(manager_rpc_url("mailto:ops@example.net").unwrap_err()),
        "Invalid cluster manager URL: relative URL with a cannot-be-a-base base"
    );
    assert_eq!(json_rpc_url(Ok("u".to_string())).unwrap(), "u");
    assert_eq!(
        error_text(json_rpc_url(Err("bad".to_string())).unwrap_err()),
        "Invalid cluster manager URL: bad"
    );
}

fn source(cluster_manager_url: Option<&str>) -> ClusterEndpointSource {
    let mut cfg = config();
    cfg.cluster_manager_url = cluster_manager_url.map(str::to_string);
    cfg.port = Some(8443);
    ClusterEndpointSource::from_config(cfg, Some("http://proxy:3128/"), 10)
}

fn finished(action: LoadAction) -> Result<EndpointBuild, HealthError> {
    match action {
        LoadAction::Finish(result) => result,
        _ => panic!("expected the result"),
    }
}

fn ok() -> LoadEvent {
    LoadEvent::Sent(Ok(HttpStatus::new(200).unwrap()))
}

#[test]
fn a_source_is_what_it_was_configured_to_be() {
    let source = source(None);
    assert_eq!(source.proxy_url.as_deref(), Some("http://proxy:3128/"));
    assert_eq!(source.cache_size, 10);
    assert_eq!(source.cfg.inventory_path, "/etc/cluster.json");
    assert_eq!(
        ClusterEndpointSource::from_config(config(), None, 0).proxy_url,
        None
    );
}

#[test]
fn a_load_from_a_file() {
    let source = source(None);
    let (state, action) = source.load_step(LoadState::Start, LoadEvent::Begin);
    match action {
        LoadAction::ReadFile { path } => assert_eq!(path, "/etc/cluster.json"),
        _ => panic!("without a manager the file is read"),
    }
    let (state, action) = source.load_step(state, LoadEvent::FileRead(Ok("{}".to_string())));
    match action {
        LoadAction::ParseInventory { contents } => assert_eq!(contents, "{}"),
        _ => panic!("the file is parsed"),
    }
    let inventory = FileInventory {
        default_credentials: credentials("admin", None),
        nodes: vec![
            file_node([10, 0, 0, 1], None),
            file_node([10, 0, 0, 2], None),
        ],
    };
    let (state, action) = source.load_step(state, LoadEvent::Parsed(Ok(inventory)));
    let build = finished(action).unwrap();
    assert_eq!(build.endpoints.len(), 2);
    assert_eq!(build.endpoints[1].addr.ip, v4("10.0.0.2"));
    assert_eq!(build.endpoints[1].addr.port, Some(8443));
    let (state, action) = source.load_step(state, LoadEvent::Begin);
    assert!(matches!(state, LoadState::Finished));
    assert!(matches!(action, LoadAction::KeepWaiting));
}

#[test]
fn a_file_that_cannot_be_read_or_parsed_fails_the_load() {
    let source = source(None);
    let (_, action) = source.load_step(
        LoadState::ReadingFile,
        LoadEvent::FileRead(Err("No such file or directory".to_string())),
    );
    assert_eq!(
        error_text(finished(action).unwrap_err()),
        "Failed to read cluster inventory /etc/cluster.json: No such file or directory"
    );
    let (_, action) = source.load_step(
        LoadState::ParsingFile,
        LoadEvent::Parsed(Err("missing field `nodes`".to_string())),
    );
    match finished(action) {
        Err(HealthError::Json(error)) => assert_eq!(error, "missing field `nodes`"),
        _ => panic!("a bad inventory is an error of its own"),
    }
}

#[test]
fn a_load_from_the_manager() {
    let source = source(Some("https://head:8081/"));
    let (state, action) = source.load_step(LoadState::Start, LoadEvent::Begin);
    assert!(matches!(action, LoadAction::BuildHttp));
    let (state, action) = source.load_step(state, LoadEvent::HttpBuilt(Ok(())));
    match action {
        LoadAction::Send { url, body, warning } => {
            assert_eq!(url, "https://head:8081/json/");
            assert_eq!(string_at(&body, "call"), "getPartition");
            assert_eq!(string_at(&body, "arg"), "base");
            assert!(warning.is_none());
        }
        _ => panic!("the partition is asked for first"),
    }
    let (state, action) = source.load_step(state, ok());
    assert!(matches!(action, LoadAction::ReadBody));
    let partition = object(vec![("bmcSettings", object(vec![("username", text("root"))]))]);
    let (state, action) = source.load_step(state, LoadEvent::BodyRead(Ok(partition)));
    match action {
        LoadAction::Send { url, body, warning } => {
            assert_eq!(url, "https://head:8081/json/");
            assert_eq!(string_at(&body, "call"), "getDevices");
            assert!(warning.is_none());
        }
        _ => panic!("the devices are asked for next"),
    }
    let (state, action) = source.load_step(state, ok());
    assert!(matches!(action, LoadAction::ReadBody));
    let raw = Json::Array(vec![
        device("n1", "ipmi0", "10.0.0.1"),
        object(vec![("hostname", text("n2"))]),
        device("n3", "bmc", "nonsense"),
    ]);
    let (state, action) = source.load_step(state, LoadEvent::BodyRead(Ok(raw)));
    match action {
        LoadAction::ResolveAddresses(texts) => assert_eq!(
            texts,
            vec![
                Some("10.0.0.1".to_string()),
                None,
                Some("nonsense".to_string())
            ]
        ),
        _ => panic!("the addresses are resolved"),
    }
    let (_, action) = source.load_step(
        state,
        LoadEvent::Resolved(vec![Some(v4("10.0.0.1")), None, None]),
    );
    let build = finished(action).unwrap();
    assert_eq!(build.identities, vec!["n1"]);
    match &build.endpoints[0].credentials {
        BmcCredentials::UsernamePassword { username, password } => {
            assert_eq!(username, "root");
            assert_eq!(password.as_deref(), Some("fallback-secret"));
        }
    }
}

#[test]
fn missing_credentials_do_not_fail_a_load() {
    let source = source(Some("https://head:8081/"));
    let sending = || LoadState::CredentialsSending {
        url: "u".to_string(),
    };
    let reading = || LoadState::CredentialsReading {
        url: "u".to_string(),
    };
    let steps = vec![
        (
            sending(),
            LoadEvent::Sent(Err("refused".to_string())),
            "cluster manager RPC cmpart.getPartition failed: refused",
        ),
        (
            sending(),
            LoadEvent::Sent(Ok(HttpStatus::new(401).unwrap())),
            "cluster manager RPC cmpart.getPartition returned HTTP 401 Unauthorized",
        ),
        (
            reading(),
            LoadEvent::BodyRead(Err("EOF".to_string())),
            "cluster manager RPC cmpart.getPartition parse failed: EOF",
        ),
    ];
    for (state, event, expected) in steps {
        let (state, action) = source.load_step(state, event);
        match state {
            LoadState::DevicesSending { username, password } => {
                assert_eq!(username, "fallback");
                assert_eq!(password.as_deref(), Some("fallback-secret"));
            }
            _ => panic!("the devices are asked for all the same"),
        }
        match action {
            LoadAction::Send { url, body, warning } => {
                assert_eq!(url, "u");
                assert_eq!(string_at(&body, "call"), "getDevices");
                assert_eq!(error_text(warning.unwrap()), expected);
            }
            _ => panic!("the devices are asked for all the same"),
        }
    }
}

#[test]
fn what_fails_a_load_from_the_manager() {
    let source = source(Some("https://head:8081/"));
    let building = |base: &str| LoadState::BuildingHttp {
        base: base.to_string(),
    };
    let devices_sending = || LoadState::DevicesSending {
        username: "u".to_string(),
        password: None,
    };
    let devices_reading = || LoadState::DevicesReading {
        username: "u".to_string(),
        password: None,
    };
    let steps = vec![
        (
            building("https://head/"),
            LoadEvent::HttpBuilt(Err("no TLS".to_string())),
            "Cluster manager HTTP client build failed: no TLS",
        ),
        (
            building("head"),
            LoadEvent::HttpBuilt(Ok(())),
            "Invalid cluster manager URL: relative URL without a base",
        ),
        (
            devices_sending(),
            LoadEvent::Sent(Err("refused".to_string())),
            "cluster manager RPC cmdevice.getDevices failed: refused",
        ),
        (
            devices_sending(),
            LoadEvent::Sent(Ok(HttpStatus::new(500).unwrap())),
            "cluster manager RPC cmdevice.getDevices returned HTTP 500 Internal Server Error",
        ),
        (
            devices_reading(),
            LoadEvent::BodyRead(Err("EOF".to_string())),
            "cluster manager RPC cmdevice.getDevices parse failed: EOF",
        ),
        (
            devices_reading(),
            LoadEvent::BodyRead(Ok(Json::Null)),
            "Cluster manager getDevices response has no recognized shape; probe /api on head node and update extract_manager_devices in cluster.rs",
        ),
        (
            LoadState::Resolving {
                devices: vec![entry("n1", Some("nonsense"))],
                username: "u".to_string(),
                password: None,
            },
            LoadEvent::Resolved(vec![None]),
            "Cluster manager getDevices returned entries but none had a recognized BMC IP; probe /api on head node and update extract_manager_devices in cluster.rs",
        ),
    ];
    for (state, event, expected) in steps {
        let (state, action) = source.load_step(state, event);
        assert!(matches!(state, LoadState::Finished));
        assert_eq!(error_text(finished(action).unwrap_err()), expected);
    }
}

#[test]
fn an_event_out_of_turn_leaves_a_load_as_it_is() {
    let source = source(Some("https://head:8081/"));
    let (state, action) = source.load_step(LoadState::Start, ok());
    assert!(matches!(state, LoadState::Start));
    assert!(matches!(action, LoadAction::KeepWaiting));
}

#[test]
fn fields_are_found_in_objects_only() {
    let value = object(vec![
        ("a", object(vec![("b", object(vec![("c", text("x"))]))])),
        ("a", Json::Null),
    ]);
    assert!(matches!(value.get3("a", "b", "c"), Some(Json::Str(_))));
    assert!(value.get("z").is_none());
    assert!(value.get3("a", "b", "z").is_none());
    assert!(text("a").get("a").is_none());
    assert!(Json::Array(vec![text("a")]).get("0").is_none());
}
