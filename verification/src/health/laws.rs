//! What the inventory, the endpoints, the load and the choice of a primary system promise
//! together.

use crate::health::address::{IpAddr, MacAddr};
use crate::health::cluster::DeviceEntry;
use crate::health::config::ClusterEndpointSourceConfig;
use crate::health::endpoint::{BmcEndpoint, EndpointBuild};
use crate::health::error::HealthError;
use crate::health::identity::SystemIdentity;
use crate::health::inventory::{ClusterNode, FileCredentials, FileInventory, FileNode};
use crate::health::json::Json;
use crate::health::rpc::HttpStatus;
use crate::health::source::{LoadAction, LoadEvent, LoadState};
use crate::ids::Uuid;
use vstd::prelude::*;

verus! {

/// A made-up hardware address is a locally administered one of a single device, and different
/// IPv4 addresses have different ones.
pub proof fn law_synthetic_macs_are_local_and_distinct(a: [u8; 4], b: [u8; 4])
    ensures
        crate::health::address::synthetic_mac(a).octets[0] & 0x02 == 0x02,
        crate::health::address::synthetic_mac(a).octets[0] & 0x01 == 0,
        crate::health::address::synthetic_mac(a) == crate::health::address::synthetic_mac(b)
            ==> a@ == b@,
{
    assert(0x02u8 & 0x02u8 == 0x02u8) by (bit_vector);
    assert(0x02u8 & 0x01u8 == 0u8) by (bit_vector);
    let mac_a = crate::health::address::synthetic_mac(a);
    let mac_b = crate::health::address::synthetic_mac(b);
    if mac_a == mac_b {
        assert(mac_a.octets[2] == mac_b.octets[2]);
        assert(mac_a.octets[3] == mac_b.octets[3]);
        assert(mac_a.octets[4] == mac_b.octets[4]);
        assert(mac_a.octets[5] == mac_b.octets[5]);
        assert(a@ =~= b@);
    }
}

/// Every node becomes an endpoint or is skipped, and none becomes both or anything twice: with
/// the skipped nodes put back, the usable ones are the nodes that were there.
pub proof fn law_every_node_is_an_endpoint_or_skipped(nodes: Seq<ClusterNode>)
    ensures
        crate::health::endpoint::usable(nodes).len() + crate::health::endpoint::unusable(
            nodes,
        ).len() == nodes.len(),
        crate::health::endpoint::usable(nodes).to_multiset().add(
            crate::health::endpoint::unusable(nodes).map_values(
                |skipped: crate::health::endpoint::SkippedNode| skipped.node,
            ).to_multiset(),
        ) =~= nodes.to_multiset(),
    decreases nodes.len(),
{
    broadcast use vstd::seq_lib::group_to_multiset_ensures;

    let node_of = |skipped: crate::health::endpoint::SkippedNode| skipped.node;
    if nodes.len() == 0 {
        assert(crate::health::endpoint::unusable(nodes).map_values(node_of) =~= seq![]);
        assert(nodes =~= seq![]);
    } else {
        let rest = nodes.drop_last();
        law_every_node_is_an_endpoint_or_skipped(rest);
        assert(nodes =~= rest.push(nodes.last()));
        if let Err(reason) = crate::health::endpoint::node_mac(nodes.last()) {
            let skipped = crate::health::endpoint::SkippedNode { node: nodes.last(), reason };
            assert(crate::health::endpoint::unusable(nodes).map_values(node_of)
                =~= crate::health::endpoint::unusable(rest).map_values(node_of).push(
                nodes.last(),
            ));
        }
    }
}

/// The places of the usable nodes among the first `n`.
pub open spec fn usable_places(nodes: Seq<ClusterNode>, n: int) -> Seq<int>
    decreases n,
{
    if n <= 0 {
        seq![]
    } else if crate::health::endpoint::node_mac(nodes[n - 1]) is Ok {
        usable_places(nodes, n - 1).push(n - 1)
    } else {
        usable_places(nodes, n - 1)
    }
}

pub(crate) proof fn lemma_usable_places(nodes: Seq<ClusterNode>, n: int)
    requires
        0 <= n <= nodes.len(),
    ensures
        ({
            let places = usable_places(nodes, n);
            let kept = crate::health::endpoint::usable(nodes.take(n));
            &&& places.len() == kept.len()
            &&& forall|k: int|
                0 <= k < places.len() ==> 0 <= #[trigger] places[k] < n && kept[k]
                    == nodes[places[k]] && crate::health::endpoint::node_mac(kept[k]) is Ok
            &&& forall|k: int, l: int|
                0 <= k < l < places.len() ==> #[trigger] places[k] < #[trigger] places[l]
        }),
    decreases n,
{
    if n > 0 {
        lemma_usable_places(nodes, n - 1);
        assert(nodes.take(n).drop_last() =~= nodes.take(n - 1));
        assert(nodes.take(n).last() == nodes[n - 1]);
    }
}

/// The endpoints come in the order of their nodes, each from a node of its own that has an IPv4
/// address and a valid hardware address or none.
pub proof fn law_endpoints_keep_the_order_of_the_nodes(
    nodes: Seq<ClusterNode>,
    port: Option<u16>,
    build: EndpointBuild,
)
    requires
        crate::health::endpoint::is_build(nodes, port, build),
    ensures
        ({
            let places = usable_places(nodes, nodes.len() as int);
            &&& places.len() == build.endpoints@.len()
            &&& forall|k: int, l: int|
                0 <= k < l < places.len() ==> #[trigger] places[k] < #[trigger] places[l]
            &&& forall|k: int|
                0 <= k < places.len() ==> {
                    let node = nodes[#[trigger] places[k]];
                    &&& 0 <= places[k] < nodes.len()
                    &&& crate::health::endpoint::node_mac(node) is Ok
                    &&& build.endpoints@[k] == crate::health::endpoint::endpoint_of(
                        node,
                        port,
                        crate::health::endpoint::node_mac(node)->Ok_0,
                    )
                }
        }),
        forall|k: int|
            0 <= k < build.endpoints@.len() ==> (#[trigger] build.endpoints@[k]).addr.ip is V4,
{
    lemma_usable_places(nodes, nodes.len() as int);
    assert(nodes.take(nodes.len() as int) =~= nodes);
    let places = usable_places(nodes, nodes.len() as int);
    assert forall|k: int| 0 <= k < build.endpoints@.len() implies (
    #[trigger] build.endpoints@[k]).addr.ip is V4 by {
        assert(crate::health::endpoint::node_mac(nodes[places[k]]) is Ok);
    }
}

/// A node with an IPv4 address and no hardware address in the inventory is always an endpoint.
pub proof fn law_a_node_without_a_mac_is_an_endpoint(nodes: Seq<ClusterNode>, i: int)
    requires
        0 <= i < nodes.len(),
        nodes[i].bmc_ip is V4,
        nodes[i].bmc_mac is None,
    ensures
        crate::health::endpoint::node_mac(nodes[i]) == Ok::<
            MacAddr,
            crate::health::endpoint::SkipReason,
        >(crate::health::address::synthetic_mac(nodes[i].bmc_ip->V4_0)),
        usable_places(nodes, nodes.len() as int).contains(i),
        crate::health::endpoint::usable(nodes).contains(nodes[i]),
{
    let n = nodes.len() as int;
    lemma_contains_place(nodes, n, i);
    lemma_usable_places(nodes, n);
    assert(nodes.take(n) =~= nodes);
    let places = usable_places(nodes, n);
    let k = choose|k: int| 0 <= k < places.len() && places[k] == i;
    assert(crate::health::endpoint::usable(nodes)[k] == nodes[places[k]]);
}

pub(crate) proof fn lemma_contains_place(nodes: Seq<ClusterNode>, n: int, i: int)
    requires
        0 <= i < n <= nodes.len(),
        crate::health::endpoint::node_mac(nodes[i]) is Ok,
    ensures
        usable_places(nodes, n).contains(i),
    decreases n,
{
    let places = usable_places(nodes, n);
    if i == n - 1 {
        assert(places.last() == i);
    } else {
        lemma_contains_place(nodes, n - 1, i);
        let before = usable_places(nodes, n - 1);
        let k = choose|k: int| 0 <= k < before.len() && before[k] == i;
        assert(places[k] == i);
    }
}

/// No node has an empty rack, whether a file or the manager listed it.
pub proof fn law_no_node_has_an_empty_rack(
    default_credentials: FileCredentials,
    node: FileNode,
    item: Json,
)
    ensures
        crate::health::inventory::cluster_node(default_credentials, node).rack matches Some(rack)
            ==> rack@.len() > 0,
        crate::health::cluster::device_entry(item).rack matches Some(rack) ==> rack@.len() > 0,
{
}

/// Devices are not lost silently: an answer with devices gives nodes or an error, and an answer
/// without any gives none. Every node is one of the devices, in their order.
pub proof fn law_devices_are_not_lost_silently(
    devices: Seq<DeviceEntry>,
    addresses: Seq<Option<IpAddr>>,
    username: String,
    password: Option<String>,
    r: Result<Vec<ClusterNode>, HealthError>,
)
    requires
        crate::health::cluster::is_extraction(devices, addresses, username, password, r),
    ensures
        devices.len() > 0 && r is Ok ==> r->Ok_0@.len() > 0,
        devices.len() == 0 ==> r is Ok && r->Ok_0@.len() == 0,
        ({
            let places = crate::health::cluster::located(
                devices,
                addresses,
                devices.len() as int,
            );
            &&& forall|k: int| 0 <= k < places.len() ==> 0 <= #[trigger] places[k] < devices.len()
            &&& forall|k: int, l: int|
                0 <= k < l < places.len() ==> #[trigger] places[k] < #[trigger] places[l]
        }),
        forall|i: int|
            0 <= i < devices.len() && (#[trigger] devices[i]).bmc_ip is Some && i < addresses.len()
                && addresses[i] is Some ==> r is Ok,
{
    lemma_located(devices, addresses, devices.len() as int);
}

proof fn lemma_located(devices: Seq<DeviceEntry>, addresses: Seq<Option<IpAddr>>, n: int)
    requires
        0 <= n <= devices.len(),
    ensures
        ({
            let places = crate::health::cluster::located(devices, addresses, n);
            &&& forall|k: int| 0 <= k < places.len() ==> 0 <= #[trigger] places[k] < n
            &&& forall|k: int, l: int|
                0 <= k < l < places.len() ==> #[trigger] places[k] < #[trigger] places[l]
            &&& forall|i: int|
                0 <= i < n && (#[trigger] devices[i]).bmc_ip is Some && i < addresses.len()
                    && addresses[i] is Some ==> places.len() > 0
        }),
    decreases n,
{
    if n > 0 {
        lemma_located(devices, addresses, n - 1);
        let before = crate::health::cluster::located(devices, addresses, n - 1);
        let places = crate::health::cluster::located(devices, addresses, n);
        assert(places == before || places == before.push(n - 1));
        assert forall|i: int|
            0 <= i < n && (#[trigger] devices[i]).bmc_ip is Some && i < addresses.len()
                && addresses[i] is Some implies places.len() > 0 by {
            if i == n - 1 {
                assert(crate::health::cluster::address_of(devices, addresses, i) is Some);
            }
        }
    }
}

/// A load asks the manager exactly when there is one, and reads the file exactly when there is
/// none.
pub proof fn law_the_manager_is_asked_iff_there_is_one(
    cfg: ClusterEndpointSourceConfig,
    next: LoadState,
    action: LoadAction,
)
    requires
        crate::health::source::is_load_step(cfg, LoadState::Start, LoadEvent::Begin, next, action),
    ensures
        action is BuildHttp <==> cfg.cluster_manager_url is Some,
        action is ReadFile <==> cfg.cluster_manager_url is None,
{
}

/// Credentials that cannot be had never fail a load: the devices are asked for all the same, with
/// the credentials of the configuration, and with a warning.
pub proof fn law_missing_credentials_do_not_fail_a_load(
    cfg: ClusterEndpointSourceConfig,
    url: String,
    state: LoadState,
    event: LoadEvent,
    next: LoadState,
    action: LoadAction,
)
    requires
        crate::health::source::is_load_step(cfg, state, event, next, action),
        ({
            ||| state == (LoadState::CredentialsSending { url }) && event is Sent && !(
            event->Sent_0 is Ok && event->Sent_0->Ok_0.is_success_code())
            ||| state == (LoadState::CredentialsReading { url }) && event is BodyRead
                && event->BodyRead_0 is Err
        }),
    ensures
        next == (LoadState::DevicesSending {
            username: cfg.default_username,
            password: cfg.default_password,
        }),
        action matches LoadAction::Send { url: to, body, warning } && to == url
            && crate::health::rpc::is_devices_request(body) && warning is Some,
{
}

/// A load that has begun ends exactly when it gives its result, and then stays as it is.
pub proof fn law_a_load_gives_one_result(
    cfg: ClusterEndpointSourceConfig,
    state: LoadState,
    event: LoadEvent,
    next: LoadState,
    action: LoadAction,
)
    requires
        crate::health::source::is_load_step(cfg, state, event, next, action),
    ensures
        action is Finish <==> next is Finished && !(state is Finished),
        state is Finished ==> next is Finished && action is KeepWaiting,
{
}

/// A load was told these events; `states[i]` and `actions[i]` are its state before event `i`, and
/// what it was then to do.
pub open spec fn is_load(
    cfg: ClusterEndpointSourceConfig,
    events: Seq<LoadEvent>,
    states: Seq<LoadState>,
    actions: Seq<LoadAction>,
) -> bool {
    &&& states.len() == events.len() + 1
    &&& actions.len() == events.len()
    &&& states[0] == LoadState::Start
    &&& forall|i: int|
        0 <= i < events.len() ==> crate::health::source::is_load_step(
            cfg,
            states[i],
            #[trigger] events[i],
            states[i + 1],
            actions[i],
        )
}

/// What a load from a file gives: the endpoints of the listed nodes.
pub proof fn law_a_load_from_a_file(
    cfg: ClusterEndpointSourceConfig,
    contents: String,
    inventory: FileInventory,
    states: Seq<LoadState>,
    actions: Seq<LoadAction>,
)
    requires
        cfg.cluster_manager_url is None,
        is_load(
            cfg,
            seq![
                LoadEvent::Begin,
                LoadEvent::FileRead(Ok(contents)),
                LoadEvent::Parsed(Ok(inventory)),
            ],
            states,
            actions,
        ),
    ensures
        actions[0] == (LoadAction::ReadFile { path: cfg.inventory_path }),
        actions[1] == (LoadAction::ParseInventory { contents }),
        crate::health::source::ends_with(cfg, inventory.cluster_nodes(), states[3], actions[2]),
{
    let events = seq![
        LoadEvent::Begin,
        LoadEvent::FileRead(Ok(contents)),
        LoadEvent::Parsed(Ok(inventory)),
    ];
    assert(events[0] is Begin);
    assert(events[1] is FileRead);
    assert(events[2] is Parsed);
}

/// What a load from the manager gives: the endpoints of the devices that it lists, with the
/// credentials of its partition.
pub proof fn law_a_load_from_the_manager(
    cfg: ClusterEndpointSourceConfig,
    url: Seq<char>,
    status1: HttpStatus,
    partition: Json,
    status2: HttpStatus,
    raw: Json,
    items: Seq<Json>,
    addresses: Vec<Option<IpAddr>>,
    states: Seq<LoadState>,
    actions: Seq<LoadAction>,
)
    requires
        cfg.cluster_manager_url is Some,
        crate::health::rpc::url_join(cfg.cluster_manager_url->0@, "/json/"@) == Ok::<
            Seq<char>,
            Seq<char>,
        >(url),
        status1.is_success_code(),
        status2.is_success_code(),
        crate::health::cluster::device_items(raw) == Some(items),
        is_load(
            cfg,
            seq![
                LoadEvent::Begin,
                LoadEvent::HttpBuilt(Ok(())),
                LoadEvent::Sent(Ok(status1)),
                LoadEvent::BodyRead(Ok(partition)),
                LoadEvent::Sent(Ok(status2)),
                LoadEvent::BodyRead(Ok(raw)),
                LoadEvent::Resolved(addresses),
            ],
            states,
            actions,
        ),
    ensures
        actions[1] matches LoadAction::Send { url: to, body, warning } && to@ == url
            && crate::health::rpc::is_partition_request(body, cfg.cluster_manager_partition@)
            && warning is None,
        actions[3] matches LoadAction::Send { url: to, body, warning } && to@ == url
            && crate::health::rpc::is_devices_request(body) && warning is None,
        crate::health::source::is_resolved_step(
            cfg,
            Seq::new(items.len(), |i: int| crate::health::cluster::device_entry(items[i])),
            crate::health::cluster::bmc_username(Some(partition), cfg),
            crate::health::cluster::bmc_password(Some(partition), cfg),
            addresses@,
            states[7],
            actions[6],
        ),
{
    let events = seq![
        LoadEvent::Begin,
        LoadEvent::HttpBuilt(Ok(())),
        LoadEvent::Sent(Ok(status1)),
        LoadEvent::BodyRead(Ok(partition)),
        LoadEvent::Sent(Ok(status2)),
        LoadEvent::BodyRead(Ok(raw)),
        LoadEvent::Resolved(addresses),
    ];
    assert(events[0] is Begin);
    assert(events[1] is HttpBuilt);
    assert(events[2] is Sent);
    assert(events[3] is BodyRead);
    assert(events[4] is Sent);
    assert(events[5] is BodyRead);
    assert(events[6] is Resolved);
    assert(states[6] is Resolving);
    assert(states[6]->Resolving_devices@ =~= Seq::new(
        items.len(),
        |i: int| crate::health::cluster::device_entry(items[i]),
    ));
}

/// There is a primary system exactly when there are systems, and there is only one. If any system
/// has a BIOS version, the primary one has.
pub proof fn law_the_primary_system_is_unique(systems: Seq<SystemIdentity>)
    ensures
        (exists|at: int| crate::health::identity::is_primary(systems, at)) <==> systems.len() > 0,
        forall|a: int, b: int| #[trigger]
            crate::health::identity::is_primary(systems, a)
                && #[trigger] crate::health::identity::is_primary(systems, b) ==> a == b,
        forall|at: int, i: int|
            #![trigger crate::health::identity::is_primary(systems, at), systems[i]]
            crate::health::identity::is_primary(systems, at) && 0 <= i < systems.len()
                && crate::health::identity::has_bios(systems[i])
                ==> crate::health::identity::has_bios(systems[at]),
{
    if systems.len() > 0 {
        lemma_primary_exists(systems, 0);
    }
}

proof fn lemma_primary_exists(systems: Seq<SystemIdentity>, from: int)
    requires
        0 <= from <= systems.len(),
        systems.len() > 0,
        forall|i: int| 0 <= i < from ==> !crate::health::identity::has_bios(#[trigger] systems[i]),
    ensures
        exists|at: int| crate::health::identity::is_primary(systems, at),
    decreases systems.len() - from,
{
    if from == systems.len() {
        assert(crate::health::identity::is_primary(systems, 0));
    } else if crate::health::identity::has_bios(systems[from]) {
        assert(crate::health::identity::is_primary(systems, from));
    } else {
        lemma_primary_exists(systems, from + 1);
    }
}

/// Resolving the primary system changes nothing of an endpoint but the identifier of its system;
/// resolving it again gives what resolving it the second time alone would give, and so nothing new
/// with the same outcome.
pub proof fn law_resolving_changes_the_system_uuid_only(
    endpoint: BmcEndpoint,
    first: Uuid,
    enriched: BmcEndpoint,
    second: Uuid,
    again: BmcEndpoint,
)
    requires
        crate::health::identity::is_machine(endpoint),
        crate::health::identity::is_enriched(endpoint, first, enriched),
        crate::health::identity::is_enriched(enriched, second, again),
    ensures
        crate::health::identity::is_machine(enriched),
        enriched.addr == endpoint.addr,
        enriched.credentials == endpoint.credentials,
        enriched.uuid == endpoint.uuid,
        enriched.inventory_labels@ == endpoint.inventory_labels@,
        enriched.rack_id == endpoint.rack_id,
        crate::health::identity::is_enriched(endpoint, second, again),
        first == second ==> again.is_same_bmc(enriched) && again.metadata == enriched.metadata,
{
}

} // verus!
