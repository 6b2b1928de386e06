//! What the cluster manager knows: the BMC credentials of a partition and the devices.

use crate::health::address::IpAddr;
use crate::health::config::ClusterEndpointSourceConfig;
use crate::health::error::HealthError;
use crate::health::inventory::{keep_nonempty, ClusterNode};
use crate::health::json::{as_string, Json};
use std::collections::BTreeMap;
use vstd::prelude::*;

verus! {

/// The BMC settings in the description of a partition; they may stand at any of three places.
pub open spec fn bmc_settings(raw: Json) -> Option<Json> {
    crate::health::json::first_of(
        crate::health::json::first_of(
            raw.field("bmcSettings"@),
            raw.field2("result"@, "bmcSettings"@),
        ),
        raw.field2("data"@, "bmcSettings"@),
    )
}

/// The string under the first of two keys that the settings have.
pub open spec fn setting(settings: Option<Json>, key: Seq<char>, other: Seq<char>) -> Option<
    String,
> {
    match settings {
        Some(settings) => crate::health::json::string_of(
            crate::health::json::first_of(settings.field(key), settings.field(other)),
        ),
        None => None,
    }
}

fn find_bmc_settings(raw: &Json) -> (r: Option<&Json>)
    ensures
        r.is_some() == bmc_settings(*raw).is_some(),
        r matches Some(settings) ==> bmc_settings(*raw) == Some(*settings),
{
    match raw.get("bmcSettings") {
        Some(settings) => Some(settings),
        None => match raw.get2("result", "bmcSettings") {
            Some(settings) => Some(settings),
            None => raw.get2("data", "bmcSettings"),
        },
    }
}

fn find_setting(settings: Option<&Json>, key: &str, other: &str) -> (r: Option<String>)
    ensures
        r == setting(
            match settings {
                Some(settings) => Some(*settings),
                None => None,
            },
            key@,
            other@,
        ),
{
    match settings {
        Some(settings) => match settings.get(key) {
            Some(value) => as_string(Some(value)),
            None => as_string(settings.get(other)),
        },
        None => None,
    }
}

/// The user name for the BMCs, given the description of the partition, if it could be had.
pub open spec fn bmc_username(reply: Option<Json>, cfg: ClusterEndpointSourceConfig) -> String {
    match reply {
        Some(raw) => match setting(bmc_settings(raw), "username"@, "userName"@) {
            Some(username) => username,
            None => cfg.default_username,
        },
        None => cfg.default_username,
    }
}

/// The password for the BMCs, given the description of the partition, if it could be had.
pub open spec fn bmc_password(reply: Option<Json>, cfg: ClusterEndpointSourceConfig) -> Option<
    String,
> {
    match reply {
        Some(raw) => match setting(bmc_settings(raw), "password"@, "bmcPassword"@) {
            Some(password) => Some(password),
            None => cfg.default_password,
        },
        None => cfg.default_password,
    }
}

/// The credentials for the BMCs, given the description of the partition, if it could be had. Each
/// of the two that is missing there is taken from the configuration.
pub fn manager_credentials(reply: Option<&Json>, cfg: &ClusterEndpointSourceConfig) -> (r: (
    String,
    Option<String>,
))
    ensures
        ({
            let reply = match reply {
                Some(raw) => Some(*raw),
                None => None,
            };
            r.0 == bmc_username(reply, *cfg) && r.1 == bmc_password(reply, *cfg)
        }),
{
    match reply {
        Some(raw) => {
            let settings = find_bmc_settings(raw);
            let username = match find_setting(settings, "username", "userName") {
                Some(username) => username,
                None => cfg.default_username.clone(),
            };
            let password = match find_setting(settings, "password", "bmcPassword") {
                Some(password) => Some(password),
                None => cfg.default_password.clone(),
            };
            (username, password)
        },
        None => (cfg.default_username.clone(), cfg.default_password.clone()),
    }
}

/// What is read of a device. The address of its BMC is a text here.
#[derive(Debug)]
pub struct DeviceEntry {
    pub hostname: Option<String>,
    pub bmc_ip: Option<String>,
    pub rack: Option<String>,
}

/// The value at the first of the places where the address of a BMC may stand. It belongs to an
/// interface of the device, or stands at the top level.
pub open spec fn bmc_ip_value(item: Json) -> Option<Json> {
    let interface = crate::health::json::first_of(
        crate::health::json::first_of(
            crate::health::json::first_of(
                item.field3("interfaces"@, "ipmi0"@, "ip"@),
                item.field3("interfaces"@, "bmc"@, "ip"@),
            ),
            item.field3("interfaces"@, "ilo0"@, "ip"@),
        ),
        item.field3("interfaces"@, "rf0"@, "ip"@),
    );
    let top = crate::health::json::first_of(
        crate::health::json::first_of(item.field("bmcAddress"@), item.field("bmcIp"@)),
        item.field("ipmiAddress"@),
    );
    crate::health::json::first_of(interface, top)
}

/// What is read of a device. Its category, or else its partition, is its rack.
pub open spec fn device_entry(item: Json) -> DeviceEntry {
    DeviceEntry {
        hostname: crate::health::json::string_of(
            crate::health::json::first_of(item.field("hostname"@), item.field("name"@)),
        ),
        bmc_ip: crate::health::json::string_of(bmc_ip_value(item)),
        rack: crate::health::inventory::nonempty(
            crate::health::json::string_of(
                crate::health::json::first_of(item.field("category"@), item.field("partition"@)),
            ),
        ),
    }
}

fn find_interface_ip(item: &Json) -> (r: Option<&Json>)
    ensures
        ({
            let value = crate::health::json::first_of(
                crate::health::json::first_of(
                    crate::health::json::first_of(
                        item.field3("interfaces"@, "ipmi0"@, "ip"@),
                        item.field3("interfaces"@, "bmc"@, "ip"@),
                    ),
                    item.field3("interfaces"@, "ilo0"@, "ip"@),
                ),
                item.field3("interfaces"@, "rf0"@, "ip"@),
            );
            &&& r.is_some() == value.is_some()
            &&& r matches Some(ip) ==> value == Some(*ip)
        }),
{
    match item.get3("interfaces", "ipmi0", "ip") {
        Some(ip) => Some(ip),
        None => match item.get3("interfaces", "bmc", "ip") {
            Some(ip) => Some(ip),
            None => match item.get3("interfaces", "ilo0", "ip") {
                Some(ip) => Some(ip),
                None => item.get3("interfaces", "rf0", "ip"),
            },
        },
    }
}

fn read_device(item: &Json) -> (r: DeviceEntry)
    ensures
        r == device_entry(*item),
{
    let hostname = match item.get("hostname") {
        Some(hostname) => Some(hostname),
        None => item.get("name"),
    };
    let bmc_ip = match find_interface_ip(item) {
        Some(ip) => Some(ip),
        None => match item.get("bmcAddress") {
            Some(ip) => Some(ip),
            None => match item.get("bmcIp") {
                Some(ip) => Some(ip),
                None => item.get("ipmiAddress"),
            },
        },
    };
    let rack = match item.get("category") {
        Some(rack) => Some(rack),
        None => item.get("partition"),
    };
    DeviceEntry {
        hostname: as_string(hostname),
        bmc_ip: as_string(bmc_ip),
        rack: keep_nonempty(as_string(rack)),
    }
}

/// The items of an array, if the value is there and is one.
pub open spec fn array_of(value: Option<Json>) -> Option<Seq<Json>> {
    match value {
        Some(Json::Array(items)) => Some(items@),
        _ => None,
    }
}

/// The first list that is there.
pub open spec fn first_list(first: Option<Seq<Json>>, second: Option<Seq<Json>>) -> Option<
    Seq<Json>,
> {
    match first {
        Some(_) => first,
        None => second,
    }
}

/// The devices in an answer: the answer itself, or the first of four fields that is an array.
pub open spec fn device_items(raw: Json) -> Option<Seq<Json>> {
    if raw is Array {
        array_of(Some(raw))
    } else {
        first_list(
            first_list(
                first_list(array_of(raw.field("result"@)), array_of(raw.field("data"@))),
                array_of(raw.field("items"@)),
            ),
            array_of(raw.field("devices"@)),
        )
    }
}

fn get_array<'a>(raw: &'a Json, key: &str) -> (r: Option<&'a Vec<Json>>)
    ensures
        r.is_some() == array_of(raw.field(key@)).is_some(),
        r matches Some(items) ==> array_of(raw.field(key@)) == Some(items@),
{
    match raw.get(key) {
        Some(Json::Array(items)) => Some(items),
        _ => None,
    }
}

fn find_items(raw: &Json) -> (r: Option<&Vec<Json>>)
    ensures
        r.is_some() == device_items(*raw).is_some(),
        r matches Some(items) ==> device_items(*raw) == Some(items@),
{
    match raw {
        Json::Array(items) => Some(items),
        _ => match get_array(raw, "result") {
            Some(items) => Some(items),
            None => match get_array(raw, "data") {
                Some(items) => Some(items),
                None => match get_array(raw, "items") {
                    Some(items) => Some(items),
                    None => get_array(raw, "devices"),
                },
            },
        },
    }
}

/// The devices in an answer, in their order. An answer without a list of them is an error.
pub fn read_manager_devices(raw: &Json) -> (r: Result<Vec<DeviceEntry>, HealthError>)
    ensures
        match device_items(*raw) {
            Some(items) => {
                &&& r matches Ok(devices)
                &&& devices@.len() == items.len()
                &&& forall|i: int|
                    0 <= i < items.len() ==> #[trigger] devices@[i] == device_entry(items[i])
            },
            None => r is Err && r->Err_0.says(
                "Cluster manager getDevices response has no recognized shape; probe /api on head node and update extract_manager_devices in cluster.rs"@,
            ),
        },
{
    let items = match find_items(raw) {
        Some(items) => items,
        None => {
            return Err(
                HealthError::GenericError(
                    "Cluster manager getDevices response has no recognized shape; probe /api on head node and update extract_manager_devices in cluster.rs".to_owned(),
                ),
            );
        },
    };
    let mut devices: Vec<DeviceEntry> = Vec::new();
    let mut i: usize = 0;
    while i < items.len()
        invariant
            i <= items@.len(),
            devices@.len() == i,
            forall|j: int| 0 <= j < i ==> #[trigger] devices@[j] == device_entry(items@[j]),
        decreases items@.len() - i,
    {
        devices.push(read_device(&items[i]));
        i += 1;
    }
    Ok(devices)
}

/// The address of the device at this place: what its text stands for, if it has one.
pub open spec fn address_of(
    devices: Seq<DeviceEntry>,
    addresses: Seq<Option<IpAddr>>,
    i: int,
) -> Option<IpAddr> {
    if devices[i].bmc_ip is Some && i < addresses.len() {
        addresses[i]
    } else {
        None
    }
}

/// The places of the first `n` devices that have an address, in their order.
pub open spec fn located(
    devices: Seq<DeviceEntry>,
    addresses: Seq<Option<IpAddr>>,
    n: int,
) -> Seq<int>
    decreases n,
{
    if n <= 0 {
        seq![]
    } else if address_of(devices, addresses, n - 1) is Some {
        located(devices, addresses, n - 1).push(n - 1)
    } else {
        located(devices, addresses, n - 1)
    }
}

/// `node` is the device with this address and these credentials. Hardware address, identifier and
/// labels are not known.
pub open spec fn is_manager_node(
    node: ClusterNode,
    device: DeviceEntry,
    bmc_ip: IpAddr,
    username: String,
    password: Option<String>,
) -> bool {
    &&& node.hostname == device.hostname
    &&& node.bmc_ip == bmc_ip
    &&& node.bmc_mac is None
    &&& node.rack == device.rack
    &&& node.uuid is None
    &&& node.inventory_labels@ == Map::<String, String>::empty()
    &&& node.username == username
    &&& node.password == password
}

/// `nodes` are the devices at these places.
pub open spec fn are_manager_nodes(
    nodes: Seq<ClusterNode>,
    places: Seq<int>,
    devices: Seq<DeviceEntry>,
    addresses: Seq<Option<IpAddr>>,
    username: String,
    password: Option<String>,
) -> bool {
    &&& nodes.len() == places.len()
    &&& forall|k: int|
        0 <= k < nodes.len() ==> is_manager_node(
            #[trigger] nodes[k],
            devices[places[k]],
            address_of(devices, addresses, places[k])->0,
            username,
            password,
        )
}

/// The devices are these nodes; or there are devices, none of which has an address.
pub open spec fn is_extraction(
    devices: Seq<DeviceEntry>,
    addresses: Seq<Option<IpAddr>>,
    username: String,
    password: Option<String>,
    r: Result<Vec<ClusterNode>, HealthError>,
) -> bool {
    let places = located(devices, addresses, devices.len() as int);
    if places.len() == 0 && devices.len() > 0 {
        r is Err && r->Err_0.says(
            "Cluster manager getDevices returned entries but none had a recognized BMC IP; probe /api on head node and update extract_manager_devices in cluster.rs"@,
        )
    } else {
        r is Ok && are_manager_nodes(
            r->Ok_0@,
            places,
            devices,
            addresses,
            username,
            password,
        )
    }
}

/// The nodes of the cluster. `addresses` are what the texts of the devices' addresses stand for,
/// in the order of the devices, `None` for one that is no address; a device without a text or
/// without an address is skipped. If none is left of some, that is an error.
pub fn extract_manager_devices(
    devices: Vec<DeviceEntry>,
    addresses: Vec<Option<IpAddr>>,
    username: String,
    password: Option<String>,
) -> (r: Result<Vec<ClusterNode>, HealthError>)
    ensures
        is_extraction(devices@, addresses@, username, password, r),
{
    let item_count: usize = devices.len();
    let mut nodes: Vec<ClusterNode> = Vec::new();
    let mut i: usize = 0;
    for device in it: devices
        invariant
            i == it.index(),
            item_count == devices@.len(),
            are_manager_nodes(
                nodes@,
                located(devices@, addresses@, it.index() as int),
                devices@,
                addresses@,
                username,
                password,
            ),
    {
        let address: Option<IpAddr> = if device.bmc_ip.is_some() && i < addresses.len() {
            addresses[i]
        } else {
            None
        };
        match address {
            Some(bmc_ip) => nodes.push(
                ClusterNode {
                    hostname: device.hostname,
                    bmc_ip,
                    bmc_mac: None,
                    rack: device.rack,
                    uuid: None,
                    inventory_labels: BTreeMap::new(),
                    username: username.clone(),
                    password: password.clone(),
                },
            ),
            None => {},
        }
        i += 1;
    }
    if nodes.len() == 0 && item_count > 0 {
        return Err(
            HealthError::GenericError(
                "Cluster manager getDevices returned entries but none had a recognized BMC IP; probe /api on head node and update extract_manager_devices in cluster.rs".to_owned(),
            ),
        );
    }
    Ok(nodes)
}

} // verus!
