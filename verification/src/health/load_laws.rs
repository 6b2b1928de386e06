//! What a load does at each step and gives in the end, told by the configuration, the answers and
//! the file themselves.

use crate::health::address::{IpAddr, MacAddr};
use crate::health::cluster::DeviceEntry;
use crate::health::config::ClusterEndpointSourceConfig;
use crate::health::endpoint::{BmcCredentials, BmcEndpoint, EndpointBuild};
use crate::health::error::HealthError;
use crate::health::inventory::{ClusterNode, FileCredentials, FileInventory, FileNode};
use crate::health::json::Json;
use crate::health::rpc::HttpStatus;
use crate::health::source::{ClusterEndpointSource, LoadAction, LoadEvent, LoadState};
use vstd::prelude::*;

verus! {

/// A source is what it was made from.
pub proof fn law_a_source_is_what_it_was_made_from(
    cfg: ClusterEndpointSourceConfig,
    proxy_url: Option<&str>,
    cache_size: usize,
    r: ClusterEndpointSource,
)
    requires
        call_ensures(ClusterEndpointSource::from_config, (cfg, proxy_url, cache_size), r),
    ensures
        r.cfg == cfg,
        r.cache_size == cache_size,
        r.proxy_url is None <==> proxy_url is None,
        proxy_url matches Some(url) ==> r.proxy_url->0@ == url@,
{
}

/// The load ends with an error of this message.
pub open spec fn ends_with_message(r: (LoadState, LoadAction), text: Seq<char>) -> bool {
    &&& r.0 is Finished
    &&& r.1 matches LoadAction::Finish(Err(error))
    &&& crate::health::cluster_laws::is_message(error, text)
}

/// The devices are asked for at this URL; the endpoints will have these credentials. The warning
/// tells why the manager's are not used, if they are not.
pub open spec fn asks_for_the_devices(
    r: (LoadState, LoadAction),
    to: String,
    user: String,
    word: Option<String>,
    why: Option<Seq<char>>,
) -> bool {
    &&& r.0 matches LoadState::DevicesSending { username, password }
    &&& username == user
    &&& password == word
    &&& r.1 matches LoadAction::Send { url, body, warning }
    &&& url == to
    &&& crate::health::rpc_laws::is_request_for_devices(body)
    &&& why is None <==> warning is None
    &&& why matches Some(text) ==> crate::health::cluster_laws::is_message(warning->0, text)
}

/// A load begins with the client for the manager, where one is configured, and with the file
/// otherwise.
pub proof fn law_a_load_begins_where_the_nodes_are_listed(
    source: ClusterEndpointSource,
    r: (LoadState, LoadAction),
)
    requires
        call_ensures(
            ClusterEndpointSource::load_step,
            (&source, LoadState::Start, LoadEvent::Begin),
            r,
        ),
    ensures
        source.cfg.cluster_manager_url matches Some(url) ==> {
            &&& r.0 matches LoadState::BuildingHttp { base }
            &&& base == url
            &&& r.1 is BuildHttp
        },
        source.cfg.cluster_manager_url is None ==> {
            &&& r.0 is ReadingFile
            &&& r.1 matches LoadAction::ReadFile { path }
            &&& path == source.cfg.inventory_path
        },
{
}

/// With a client, the configured partition is asked for at `/json/` of the manager. Without one,
/// or where there is no such URL, the load ends and tells why.
pub proof fn law_the_partition_is_asked_for_first(
    source: ClusterEndpointSource,
    base: String,
    error: String,
    r: (LoadState, LoadAction),
    failed: (LoadState, LoadAction),
)
    requires
        call_ensures(
            ClusterEndpointSource::load_step,
            (&source, LoadState::BuildingHttp { base }, LoadEvent::HttpBuilt(Ok(()))),
            r,
        ),
        call_ensures(
            ClusterEndpointSource::load_step,
            (&source, LoadState::BuildingHttp { base }, LoadEvent::HttpBuilt(Err(error))),
            failed,
        ),
    ensures
        crate::health::rpc::url_join(base@, "/json/"@) matches Ok(joined) ==> {
            &&& r.0 matches LoadState::CredentialsSending { url: kept }
            &&& kept@ == joined
            &&& r.1 matches LoadAction::Send { url, body, warning }
            &&& url@ == joined
            &&& warning is None
            &&& crate::health::rpc_laws::is_request_for_partition(
                body,
                source.cfg.cluster_manager_partition@,
            )
        },
        crate::health::rpc::url_join(base@, "/json/"@) matches Err(why) ==> ends_with_message(
            r,
            "Invalid cluster manager URL: "@ + why,
        ),
        ends_with_message(failed, "Cluster manager HTTP client build failed: "@ + error@),
{
    if crate::health::rpc::url_join(base@, "/json/"@) is Ok {
        crate::health::rpc_laws::lemma_partition_request(
            r.1->Send_body,
            source.cfg.cluster_manager_partition@,
        );
    }
}

/// The response about the partition is read where it is a success; otherwise the devices are asked
/// for with the configured credentials, and the warning tells why.
pub proof fn law_a_failed_partition_call_falls_back(
    source: ClusterEndpointSource,
    url: String,
    status: HttpStatus,
    error: String,
    r: (LoadState, LoadAction),
    not_sent: (LoadState, LoadAction),
    not_read: (LoadState, LoadAction),
)
    requires
        call_ensures(
            ClusterEndpointSource::load_step,
            (&source, LoadState::CredentialsSending { url }, LoadEvent::Sent(Ok(status))),
            r,
        ),
        call_ensures(
            ClusterEndpointSource::load_step,
            (&source, LoadState::CredentialsSending { url }, LoadEvent::Sent(Err(error))),
            not_sent,
        ),
        call_ensures(
            ClusterEndpointSource::load_step,
            (&source, LoadState::CredentialsReading { url }, LoadEvent::BodyRead(Err(error))),
            not_read,
        ),
    ensures
        200 <= status.spec_code() < 300 ==> {
            &&& r.0 matches LoadState::CredentialsReading { url: kept }
            &&& kept == url
            &&& r.1 is ReadBody
        },
        !(200 <= status.spec_code() < 300) ==> asks_for_the_devices(
            r,
            url,
            source.cfg.default_username,
            source.cfg.default_password,
            Some(
                "cluster manager RPC "@ + "cmpart"@ + "."@ + "getPartition"@ + " returned HTTP "@
                    + crate::health::rpc::status_text(status.spec_code()),
            ),
        ),
        asks_for_the_devices(
            not_sent,
            url,
            source.cfg.default_username,
            source.cfg.default_password,
            Some(
                "cluster manager RPC "@ + "cmpart"@ + "."@ + "getPartition"@ + " failed: "@
                    + error@,
            ),
        ),
        asks_for_the_devices(
            not_read,
            url,
            source.cfg.default_username,
            source.cfg.default_password,
            Some(
                "cluster manager RPC "@ + "cmpart"@ + "."@ + "getPartition"@ + " parse failed: "@
                    + error@,
            ),
        ),
{
    if !(200 <= status.spec_code() < 300) {
        crate::health::rpc_laws::lemma_devices_request(r.1->Send_body);
    }
    crate::health::rpc_laws::lemma_devices_request(not_sent.1->Send_body);
    crate::health::rpc_laws::lemma_devices_request(not_read.1->Send_body);
}

/// The credentials that the partition tells are those with which the devices will be reached:
/// they are what `manager_credentials` makes of the answer.
pub proof fn law_the_credentials_of_the_partition_are_used(
    source: ClusterEndpointSource,
    url: String,
    raw: Json,
    credentials: (String, Option<String>),
    r: (LoadState, LoadAction),
)
    requires
        call_ensures(
            crate::health::cluster::manager_credentials,
            (Some(&raw), &source.cfg),
            credentials,
        ),
        call_ensures(
            ClusterEndpointSource::load_step,
            (&source, LoadState::CredentialsReading { url }, LoadEvent::BodyRead(Ok(raw))),
            r,
        ),
    ensures
        asks_for_the_devices(r, url, credentials.0, credentials.1, None),
{
    crate::health::rpc_laws::lemma_devices_request(r.1->Send_body);
}

/// The response about the devices is read where it is a success, and the credentials are kept;
/// otherwise the load ends and tells why.
pub proof fn law_a_failed_device_call_fails_the_load(
    source: ClusterEndpointSource,
    username: String,
    password: Option<String>,
    status: HttpStatus,
    error: String,
    r: (LoadState, LoadAction),
    not_sent: (LoadState, LoadAction),
    not_read: (LoadState, LoadAction),
)
    requires
        call_ensures(
            ClusterEndpointSource::load_step,
            (
                &source,
                LoadState::DevicesSending { username, password },
                LoadEvent::Sent(Ok(status)),
            ),
            r,
        ),
        call_ensures(
            ClusterEndpointSource::load_step,
            (
                &source,
                LoadState::DevicesSending { username, password },
                LoadEvent::Sent(Err(error)),
            ),
            not_sent,
        ),
        call_ensures(
            ClusterEndpointSource::load_step,
            (
                &source,
                LoadState::DevicesReading { username, password },
                LoadEvent::BodyRead(Err(error)),
            ),
            not_read,
        ),
    ensures
        200 <= status.spec_code() < 300 ==> {
            &&& r.0 matches LoadState::DevicesReading { username: u, password: p }
            &&& u == username
            &&& p == password
            &&& r.1 is ReadBody
        },
        !(200 <= status.spec_code() < 300) ==> ends_with_message(
            r,
            "cluster manager RPC "@ + "cmdevice"@ + "."@ + "getDevices"@ + " returned HTTP "@
                + crate::health::rpc::status_text(status.spec_code()),
        ),
        ends_with_message(
            not_sent,
            "cluster manager RPC "@ + "cmdevice"@ + "."@ + "getDevices"@ + " failed: "@ + error@,
        ),
        ends_with_message(
            not_read,
            "cluster manager RPC "@ + "cmdevice"@ + "."@ + "getDevices"@ + " parse failed: "@
                + error@,
        ),
{
}

/// The devices of the answer are kept with the credentials, and the texts of their addresses, in
/// their order, are to be resolved. An answer without a list ends the load.
pub proof fn law_the_addresses_of_all_devices_are_resolved(
    source: ClusterEndpointSource,
    username: String,
    password: Option<String>,
    raw: Json,
    items: Vec<Json>,
    r: (LoadState, LoadAction),
)
    requires
        call_ensures(
            ClusterEndpointSource::load_step,
            (
                &source,
                LoadState::DevicesReading { username, password },
                LoadEvent::BodyRead(Ok(raw)),
            ),
            r,
        ),
    ensures
        crate::health::cluster_laws::has_list(raw, items) ==> {
            &&& r.0 matches LoadState::Resolving { devices, username: u, password: p }
            &&& u == username
            &&& p == password
            &&& devices@.len() == items@.len()
            &&& forall|i: int|
                0 <= i < items@.len() ==> crate::health::cluster_laws::is_read_from(
                    #[trigger] devices@[i],
                    items@[i],
                )
            &&& r.1 matches LoadAction::ResolveAddresses(texts)
            &&& texts@.len() == items@.len()
            &&& forall|i: int|
                0 <= i < items@.len() ==> #[trigger] texts@[i] == devices@[i].bmc_ip
        },
        crate::health::cluster_laws::has_no_list(raw) ==> ends_with_message(
            r,
            "Cluster manager getDevices response has no recognized shape; probe /api on head node and update extract_manager_devices in cluster.rs"@,
        ),
{
    crate::health::cluster_laws::lemma_list(raw);
    if crate::health::cluster_laws::has_list(raw, items) {
        let devices = r.0->Resolving_devices;
        assert forall|i: int|
            0 <= i < items@.len() implies crate::health::cluster_laws::is_read_from(
            #[trigger] devices@[i],
            items@[i],
        ) by {
            crate::health::cluster_laws::lemma_device(items@[i]);
        }
    }
}

/// The file is parsed as it was read; a file that cannot be read, or is no inventory, ends the
/// load and is told.
pub proof fn law_the_file_is_parsed_as_it_was_read(
    source: ClusterEndpointSource,
    contents: String,
    error: String,
    r: (LoadState, LoadAction),
    not_read: (LoadState, LoadAction),
    not_parsed: (LoadState, LoadAction),
)
    requires
        call_ensures(
            ClusterEndpointSource::load_step,
            (&source, LoadState::ReadingFile, LoadEvent::FileRead(Ok(contents))),
            r,
        ),
        call_ensures(
            ClusterEndpointSource::load_step,
            (&source, LoadState::ReadingFile, LoadEvent::FileRead(Err(error))),
            not_read,
        ),
        call_ensures(
            ClusterEndpointSource::load_step,
            (&source, LoadState::ParsingFile, LoadEvent::Parsed(Err(error))),
            not_parsed,
        ),
    ensures
        r.0 is ParsingFile,
        r.1 matches LoadAction::ParseInventory { contents: handed } && handed == contents,
        ends_with_message(
            not_read,
            "Failed to read cluster inventory "@ + source.cfg.inventory_path@ + ": "@ + error@,
        ),
        not_parsed.0 is Finished,
        not_parsed.1 matches LoadAction::Finish(Err(HealthError::Json(told))) && told == error,
{
}

/// An event is the one that the state waits for.
pub open spec fn is_awaited(state: LoadState, event: LoadEvent) -> bool {
    match state {
        LoadState::Start => event is Begin,
        LoadState::BuildingHttp { .. } => event is HttpBuilt,
        LoadState::CredentialsSending { .. } => event is Sent,
        LoadState::CredentialsReading { .. } => event is BodyRead,
        LoadState::DevicesSending { .. } => event is Sent,
        LoadState::DevicesReading { .. } => event is BodyRead,
        LoadState::Resolving { .. } => event is Resolved,
        LoadState::ReadingFile => event is FileRead,
        LoadState::ParsingFile => event is Parsed,
        LoadState::Finished => false,
    }
}

/// An event that is not awaited changes nothing, and one that is moves the load on.
pub proof fn law_only_awaited_events_count(
    source: ClusterEndpointSource,
    state: LoadState,
    event: LoadEvent,
    r: (LoadState, LoadAction),
)
    requires
        call_ensures(ClusterEndpointSource::load_step, (&source, state, event), r),
    ensures
        !is_awaited(state, event) <==> r.1 is KeepWaiting,
        !is_awaited(state, event) ==> r.0 == state,
{
}

/// The endpoint has the parts of an entry of the file, the entry's own or the default credentials,
/// and this port and hardware address.
pub open spec fn is_endpoint_of_entry(
    endpoint: BmcEndpoint,
    entry: FileNode,
    default_credentials: FileCredentials,
    port: Option<u16>,
) -> bool {
    &&& endpoint.addr.ip == entry.bmc_ip
    &&& endpoint.addr.port == port
    &&& entry.bmc_mac matches Some(text) ==> crate::health::address::mac_of(text@) == Some(
        endpoint.addr.mac,
    )
    &&& entry.bmc_mac is None ==> {
        &&& endpoint.addr.mac.octets[0] == 2
        &&& endpoint.addr.mac.octets[1] == 0
        &&& endpoint.addr.mac.octets[2] == entry.bmc_ip->V4_0[0]
        &&& endpoint.addr.mac.octets[3] == entry.bmc_ip->V4_0[1]
        &&& endpoint.addr.mac.octets[4] == entry.bmc_ip->V4_0[2]
        &&& endpoint.addr.mac.octets[5] == entry.bmc_ip->V4_0[3]
    }
    &&& endpoint.uuid == entry.uuid
    &&& endpoint.inventory_labels == entry.labels
    &&& endpoint.metadata is None
    &&& entry.rack is Some && entry.rack->0@.len() > 0 ==> endpoint.rack_id is Some
        && endpoint.rack_id->0.id == entry.rack->0
    &&& entry.rack is None || entry.rack->0@.len() == 0 ==> endpoint.rack_id is None
    &&& endpoint.credentials matches BmcCredentials::UsernamePassword { username, password }
    &&& entry.credentials matches Some(own) ==> username == own.username && password
        == own.password
    &&& entry.credentials is None ==> username == default_credentials.username && password
        == default_credentials.password
}

/// A load from a file ends with endpoints: every entry with an IPv4 address, and with a valid
/// hardware address or none, has one, with all its parts. The nodes in between are the entries.
pub proof fn law_a_file_load_gives_an_endpoint_for_every_usable_entry(
    source: ClusterEndpointSource,
    inventory: FileInventory,
    r: (LoadState, LoadAction),
)
    requires
        call_ensures(
            ClusterEndpointSource::load_step,
            (&source, LoadState::ParsingFile, LoadEvent::Parsed(Ok(inventory))),
            r,
        ),
    ensures
        r.0 is Finished,
        r.1 is Finish,
        r.1->Finish_0 is Ok,
        forall|i: int|
            0 <= i < inventory.nodes@.len() && (#[trigger] inventory.nodes@[i]).bmc_ip is V4 && (
            inventory.nodes@[i].bmc_mac matches Some(text) ==> crate::health::address::mac_of(
                text@,
            ) is Some) ==> exists|k: int|
                {
                    &&& 0 <= k < r.1->Finish_0->Ok_0.endpoints@.len()
                    &&& is_endpoint_of_entry(
                        #[trigger] r.1->Finish_0->Ok_0.endpoints@[k],
                        inventory.nodes@[i],
                        inventory.default_credentials,
                        source.cfg.port,
                    )
                },
        exists|nodes: Seq<ClusterNode>| #[trigger]
            is_file_build(inventory, source.cfg.port, r.1->Finish_0->Ok_0, nodes),
{
    let build = r.1->Finish_0->Ok_0;
    let nodes = inventory.cluster_nodes();
    assert forall|i: int|
        0 <= i < inventory.nodes@.len() && (#[trigger] inventory.nodes@[i]).bmc_ip is V4 && (
        inventory.nodes@[i].bmc_mac matches Some(text) ==> crate::health::address::mac_of(
            text@,
        ) is Some) implies exists|k: int|
        {
            &&& 0 <= k < build.endpoints@.len()
            &&& is_endpoint_of_entry(
                #[trigger] build.endpoints@[k],
                inventory.nodes@[i],
                inventory.default_credentials,
                source.cfg.port,
            )
        } by {
        assert(nodes[i] == crate::health::inventory::cluster_node(
            inventory.default_credentials,
            inventory.nodes@[i],
        ));
        crate::health::endpoint_laws::lemma_has_endpoint(nodes, source.cfg.port, build, i);
        let k = choose|k: int|
            {
                &&& 0 <= k < build.endpoints@.len()
                &&& k < build.identities@.len()
                &&& crate::health::endpoint_laws::is_endpoint_for(
                    #[trigger] build.endpoints@[k],
                    nodes[i],
                    source.cfg.port,
                )
                &&& crate::health::endpoint_laws::is_name_for(build.identities@[k]@, nodes[i])
            };
        assert(is_endpoint_of_entry(
            build.endpoints@[k],
            inventory.nodes@[i],
            inventory.default_credentials,
            source.cfg.port,
        ));
    }
    crate::health::endpoint_laws::lemma_split(nodes, source.cfg.port, build);
    assert(is_file_build(inventory, source.cfg.port, build, nodes));
}

/// The nodes are the entries of the file, and the endpoints and skipped nodes are these nodes.
pub open spec fn is_file_build(
    inventory: FileInventory,
    port: Option<u16>,
    build: EndpointBuild,
    nodes: Seq<ClusterNode>,
) -> bool {
    &&& nodes.len() == inventory.nodes@.len()
    &&& forall|i: int|
        0 <= i < nodes.len() ==> crate::health::endpoint_laws::is_listed_node(
            #[trigger] nodes[i],
            inventory.nodes@[i],
            inventory.default_credentials,
        )
    &&& exists|kept: Seq<int>, left: Seq<int>| #[trigger]
        crate::health::endpoint_laws::is_split(nodes, port, build, kept, left)
}

/// The endpoint is the device at this IPv4 address, reached with these credentials.
pub open spec fn is_endpoint_of_device(
    endpoint: BmcEndpoint,
    device: DeviceEntry,
    octets: [u8; 4],
    user: String,
    word: Option<String>,
    port: Option<u16>,
) -> bool {
    &&& endpoint.addr.ip == IpAddr::V4(octets)
    &&& endpoint.addr.port == port
    &&& endpoint.addr.mac.octets[0] == 2
    &&& endpoint.addr.mac.octets[1] == 0
    &&& endpoint.addr.mac.octets[2] == octets[0]
    &&& endpoint.addr.mac.octets[3] == octets[1]
    &&& endpoint.addr.mac.octets[4] == octets[2]
    &&& endpoint.addr.mac.octets[5] == octets[3]
    &&& endpoint.rack_id is Some <==> device.rack is Some
    &&& device.rack matches Some(rack) ==> endpoint.rack_id->0.id == rack
    &&& endpoint.uuid is None
    &&& endpoint.inventory_labels@.dom() =~= Set::<String>::empty()
    &&& endpoint.metadata is None
    &&& endpoint.credentials matches BmcCredentials::UsernamePassword { username, password }
    &&& username == user
    &&& password == word
}

/// Once the addresses are resolved, the load ends: with the endpoints of the devices, where any has
/// an address or there are none, and else with an error. Every device whose text stands for an
/// IPv4 address has an endpoint, and the nodes in between are the devices.
pub proof fn law_a_manager_load_gives_an_endpoint_for_every_device(
    source: ClusterEndpointSource,
    devices: Vec<DeviceEntry>,
    username: String,
    password: Option<String>,
    addresses: Vec<Option<IpAddr>>,
    r: (LoadState, LoadAction),
)
    requires
        call_ensures(
            ClusterEndpointSource::load_step,
            (
                &source,
                LoadState::Resolving { devices, username, password },
                LoadEvent::Resolved(addresses),
            ),
            r,
        ),
    ensures
        r.0 is Finished,
        r.1 is Finish,
        r.1->Finish_0 is Err <==> devices@.len() > 0 && forall|i: int, ip: IpAddr|
            !#[trigger] crate::health::cluster_laws::is_at(devices@, addresses@, i, ip),
        r.1->Finish_0 is Err ==> crate::health::cluster_laws::is_message(
            r.1->Finish_0->Err_0,
            "Cluster manager getDevices returned entries but none had a recognized BMC IP; probe /api on head node and update extract_manager_devices in cluster.rs"@,
        ),
        forall|i: int, octets: [u8; 4]| #[trigger]
            crate::health::cluster_laws::is_at(devices@, addresses@, i, IpAddr::V4(octets))
                ==> exists|k: int|
                {
                    &&& 0 <= k < r.1->Finish_0->Ok_0.endpoints@.len()
                    &&& is_endpoint_of_device(
                        #[trigger] r.1->Finish_0->Ok_0.endpoints@[k],
                        devices@[i],
                        octets,
                        username,
                        password,
                        source.cfg.port,
                    )
                },
        r.1->Finish_0 is Ok ==> exists|nodes: Seq<ClusterNode>| #[trigger]
            is_manager_build(
                devices@,
                addresses@,
                username,
                password,
                source.cfg.port,
                r.1->Finish_0->Ok_0,
                nodes,
            ),
{
    let extraction = choose|extraction: Result<Vec<ClusterNode>, HealthError>|
        {
            &&& #[trigger] crate::health::cluster::is_extraction(
                devices@,
                addresses@,
                username,
                password,
                extraction,
            )
            &&& match extraction {
                Ok(nodes) => crate::health::source::ends_with(source.cfg, nodes@, r.0, r.1),
                Err(error) => r.0 == LoadState::Finished && r.1 == LoadAction::Finish(Err(error)),
            }
        };
    crate::health::cluster_laws::lemma_extraction(
        devices@,
        addresses@,
        username,
        password,
        extraction,
    );
    if extraction is Ok {
        let build = r.1->Finish_0->Ok_0;
        let nodes = extraction->Ok_0@;
        let places = crate::health::cluster::located(devices@, addresses@, devices@.len() as int);
        assert forall|i: int, octets: [u8; 4]| #[trigger]
            crate::health::cluster_laws::is_at(
                devices@,
                addresses@,
                i,
                IpAddr::V4(octets),
            ) implies exists|k: int|
            {
                &&& 0 <= k < build.endpoints@.len()
                &&& is_endpoint_of_device(
                    #[trigger] build.endpoints@[k],
                    devices@[i],
                    octets,
                    username,
                    password,
                    source.cfg.port,
                )
            } by {
            let n = choose|n: int| 0 <= n < places.len() && places[n] == i;
            assert(places.contains(i));
            assert(crate::health::cluster_laws::is_node_of(
                nodes[n],
                devices@[places[n]],
                addresses@[places[n]]->0,
                username,
                password,
            ));
            crate::health::endpoint_laws::lemma_has_endpoint(nodes, source.cfg.port, build, n);
            let k = choose|k: int|
                {
                    &&& 0 <= k < build.endpoints@.len()
                    &&& k < build.identities@.len()
                    &&& crate::health::endpoint_laws::is_endpoint_for(
                        #[trigger] build.endpoints@[k],
                        nodes[n],
                        source.cfg.port,
                    )
                    &&& crate::health::endpoint_laws::is_name_for(build.identities@[k]@, nodes[n])
                };
            assert(is_endpoint_of_device(
                build.endpoints@[k],
                devices@[i],
                octets,
                username,
                password,
                source.cfg.port,
            ));
        }
        crate::health::endpoint_laws::lemma_split(nodes, source.cfg.port, build);
        assert(is_manager_build(
            devices@,
            addresses@,
            username,
            password,
            source.cfg.port,
            build,
            nodes,
        ));
    }
}

/// The nodes are the devices with an address, and the endpoints and skipped nodes are these nodes.
pub open spec fn is_manager_build(
    devices: Seq<DeviceEntry>,
    addresses: Seq<Option<IpAddr>>,
    username: String,
    password: Option<String>,
    port: Option<u16>,
    build: EndpointBuild,
    nodes: Seq<ClusterNode>,
) -> bool {
    &&& exists|places: Seq<int>| #[trigger]
        crate::health::cluster_laws::are_the_nodes(
            nodes,
            places,
            devices,
            addresses,
            username,
            password,
        )
    &&& exists|kept: Seq<int>, left: Seq<int>| #[trigger]
        crate::health::endpoint_laws::is_split(nodes, port, build, kept, left)
}

/// A load of this source was told these events, from its start on.
pub open spec fn is_load_of(
    source: ClusterEndpointSource,
    events: Seq<LoadEvent>,
    states: Seq<LoadState>,
    actions: Seq<LoadAction>,
) -> bool {
    &&& states.len() == events.len() + 1
    &&& actions.len() == events.len()
    &&& states[0] is Start
    &&& forall|i: int|
        0 <= i < events.len() ==> call_ensures(
            ClusterEndpointSource::load_step,
            (&source, states[i], #[trigger] events[i]),
            (states[i + 1], actions[i]),
        )
}

/// From the first step to the last: after a load from a file, an entry with an IPv4 address and a
/// valid hardware address is an endpoint with just this hardware address, and with the entry's
/// other parts.
pub proof fn law_a_listed_mac_is_the_mac_of_its_endpoint(
    source: ClusterEndpointSource,
    contents: String,
    inventory: FileInventory,
    states: Seq<LoadState>,
    actions: Seq<LoadAction>,
    i: int,
    text: String,
    mac: MacAddr,
)
    requires
        source.cfg.cluster_manager_url is None,
        is_load_of(
            source,
            seq![
                LoadEvent::Begin,
                LoadEvent::FileRead(Ok(contents)),
                LoadEvent::Parsed(Ok(inventory)),
            ],
            states,
            actions,
        ),
        0 <= i < inventory.nodes@.len(),
        inventory.nodes@[i].bmc_ip is V4,
        inventory.nodes@[i].bmc_mac == Some(text),
        crate::health::address::mac_of(text@) == Some(mac),
    ensures
        actions[2] is Finish,
        actions[2]->Finish_0 is Ok,
        exists|k: int|
            {
                &&& 0 <= k < actions[2]->Finish_0->Ok_0.endpoints@.len()
                &&& (#[trigger] actions[2]->Finish_0->Ok_0.endpoints@[k]).addr.mac == mac
                &&& is_endpoint_of_entry(
                    actions[2]->Finish_0->Ok_0.endpoints@[k],
                    inventory.nodes@[i],
                    inventory.default_credentials,
                    source.cfg.port,
                )
            },
{
    let events = seq![
        LoadEvent::Begin,
        LoadEvent::FileRead(Ok(contents)),
        LoadEvent::Parsed(Ok(inventory)),
    ];
    assert(events[0] is Begin);
    assert(events[1] is FileRead);
    assert(events[2] is Parsed);
    assert(states[2] is ParsingFile);
    law_a_file_load_gives_an_endpoint_for_every_usable_entry(
        source,
        inventory,
        (states[3], actions[2]),
    );
    let endpoints = actions[2]->Finish_0->Ok_0.endpoints@;
    let k = choose|k: int|
        {
            &&& 0 <= k < endpoints.len()
            &&& is_endpoint_of_entry(
                #[trigger] endpoints[k],
                inventory.nodes@[i],
                inventory.default_credentials,
                source.cfg.port,
            )
        };
    assert(endpoints[k].addr.mac == mac);
}

/// The endpoint is at this IPv4 address and port, in this rack, and is reached with these
/// credentials.
pub open spec fn is_endpoint_with_rack(
    endpoint: BmcEndpoint,
    octets: [u8; 4],
    rack: String,
    user: String,
    word: String,
    port: Option<u16>,
) -> bool {
    &&& endpoint.addr.ip == IpAddr::V4(octets)
    &&& endpoint.addr.port == port
    &&& endpoint.rack_id is Some
    &&& endpoint.rack_id->0.id == rack
    &&& endpoint.credentials == (BmcCredentials::UsernamePassword {
        username: user,
        password: Some(word),
    })
}

/// From the first step to the last: after a load from the manager, a device with a rack and an
/// IPv4 address is an endpoint at that address with that rack, reached with the credentials of the
/// partition, whatever the configuration says of credentials.
pub proof fn law_a_listed_device_is_an_endpoint_with_its_rack(
    source: ClusterEndpointSource,
    url: Seq<char>,
    status1: HttpStatus,
    partition: Json,
    settings: Json,
    user: String,
    word: String,
    status2: HttpStatus,
    raw: Json,
    items: Vec<Json>,
    addresses: Vec<Option<IpAddr>>,
    states: Seq<LoadState>,
    actions: Seq<LoadAction>,
    i: int,
    rack: String,
    address: String,
    octets: [u8; 4],
)
    requires
        source.cfg.cluster_manager_url is Some,
        crate::health::rpc::url_join(source.cfg.cluster_manager_url->0@, "/json/"@) == Ok::<
            Seq<char>,
            Seq<char>,
        >(url),
        200 <= status1.spec_code() < 300,
        200 <= status2.spec_code() < 300,
        is_load_of(
            source,
            seq![
                LoadEvent::Begin,
                LoadEvent::HttpBuilt(Ok(())),
                LoadEvent::Sent(Ok(status1)),
                LoadEvent::BodyRead(Ok(partition)),
                LoadEvent::Sent(Ok(status2)),
                LoadEvent::BodyRead(Ok(raw)),
                LoadEvent::Resolved(addresses),
            ],
            states,
            actions,
        ),
        crate::health::cluster_laws::has_settings(partition, settings),
        crate::health::cluster_laws::holds_text(settings, "username"@, "userName"@, user),
        crate::health::cluster_laws::holds_text(settings, "password"@, "bmcPassword"@, word),
        crate::health::cluster_laws::has_list(raw, items),
        0 <= i < items@.len(),
        crate::health::cluster_laws::holds_text(items@[i], "category"@, "partition"@, rack),
        rack@.len() > 0,
        crate::health::cluster_laws::has_address_text(items@[i], address),
        i < addresses@.len(),
        addresses@[i] == Some(IpAddr::V4(octets)),
    ensures
        actions[5] is ResolveAddresses,
        actions[5]->ResolveAddresses_0@[i] == Some(address),
        actions[6] is Finish,
        actions[6]->Finish_0 is Ok,
        exists|k: int|
            {
                &&& 0 <= k < actions[6]->Finish_0->Ok_0.endpoints@.len()
                &&& is_endpoint_with_rack(
                    #[trigger] actions[6]->Finish_0->Ok_0.endpoints@[k],
                    octets,
                    rack,
                    user,
                    word,
                    source.cfg.port,
                )
            },
{
    let events = seq![
        LoadEvent::Begin,
        LoadEvent::HttpBuilt(Ok(())),
        LoadEvent::Sent(Ok(status1)),
        LoadEvent::BodyRead(Ok(partition)),
        LoadEvent::Sent(Ok(status2)),
        LoadEvent::BodyRead(Ok(raw)),
        LoadEvent::Resolved(addresses),
    ];
    assert(events[0] is Begin);
    assert(events[1] is HttpBuilt);
    assert(events[2] is Sent);
    assert(events[3] is BodyRead);
    assert(events[4] is Sent);
    assert(events[5] is BodyRead);
    assert(events[6] is Resolved);
    let cfg = source.cfg;
    let credentials = (
        crate::health::cluster::bmc_username(Some(partition), cfg),
        crate::health::cluster::bmc_password(Some(partition), cfg),
    );
    crate::health::cluster_laws::lemma_credentials(partition, settings, cfg);
    assert(credentials == (user, Some(word)));
    assert(states[5] == (LoadState::DevicesReading { username: user, password: Some(word) }));
    law_the_addresses_of_all_devices_are_resolved(
        source,
        user,
        Some(word),
        raw,
        items,
        (states[6], actions[5]),
    );
    let devices = states[6]->Resolving_devices;
    assert(crate::health::cluster_laws::is_read_from(devices@[i], items@[i]));
    assert(actions[5]->ResolveAddresses_0@[i] == devices@[i].bmc_ip);
    law_a_manager_load_gives_an_endpoint_for_every_device(
        source,
        devices,
        user,
        Some(word),
        addresses,
        (states[7], actions[6]),
    );
    assert(crate::health::cluster_laws::is_at(devices@, addresses@, i, IpAddr::V4(octets)));
    let endpoints = actions[6]->Finish_0->Ok_0.endpoints@;
    let k = choose|k: int|
        {
            &&& 0 <= k < endpoints.len()
            &&& is_endpoint_of_device(
                #[trigger] endpoints[k],
                devices@[i],
                octets,
                user,
                Some(word),
                source.cfg.port,
            )
        };
    assert(is_endpoint_with_rack(endpoints[k], octets, rack, user, word, source.cfg.port));
}

} // verus!
