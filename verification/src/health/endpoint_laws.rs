//! What becomes of listed nodes, told by the parts of the nodes themselves.

use crate::health::address::{IpAddr, MacAddr};
use crate::health::endpoint::{
    BmcCredentials, BmcEndpoint, EndpointBuild, SkipReason,
};
use crate::health::inventory::{ClusterNode, FileCredentials, FileInventory, FileNode};
use vstd::prelude::*;

verus! {

/// The node has what the entry of the file has, and the credentials of the entry or, where it has
/// none of its own, the default ones, both of them. An empty rack is none.
pub open spec fn is_listed_node(
    node: ClusterNode,
    entry: FileNode,
    default_credentials: FileCredentials,
) -> bool {
    &&& node.hostname == entry.hostname
    &&& node.bmc_ip == entry.bmc_ip
    &&& node.bmc_mac == entry.bmc_mac
    &&& node.uuid == entry.uuid
    &&& node.inventory_labels == entry.labels
    &&& entry.rack is None ==> node.rack is None
    &&& entry.rack matches Some(rack) ==> node.rack == if rack@.len() > 0 {
        Some(rack)
    } else {
        None
    }
    &&& entry.credentials matches Some(own) ==> node.username == own.username && node.password
        == own.password
    &&& entry.credentials is None ==> node.username == default_credentials.username
        && node.password == default_credentials.password
}

/// Node `i` has the host name, addresses, rack, identifier, labels and credentials of entry `i`.
pub proof fn law_a_node_is_its_entry(inventory: FileInventory, r: Vec<ClusterNode>)
    requires
        call_ensures(FileInventory::into_cluster_nodes, (inventory,), r),
    ensures
        r@.len() == inventory.nodes@.len(),
        forall|i: int|
            0 <= i < r@.len() ==> is_listed_node(
                #[trigger] r@[i],
                inventory.nodes@[i],
                inventory.default_credentials,
            ),
{
}

/// An entry's node does not depend on the other entries, and only an entry without credentials
/// depends on the default ones.
pub proof fn law_nodes_do_not_depend_on_each_other(
    first: FileInventory,
    second: FileInventory,
    r1: Vec<ClusterNode>,
    r2: Vec<ClusterNode>,
    i: int,
    j: int,
)
    requires
        call_ensures(FileInventory::into_cluster_nodes, (first,), r1),
        call_ensures(FileInventory::into_cluster_nodes, (second,), r2),
        0 <= i < first.nodes@.len(),
        0 <= j < second.nodes@.len(),
        first.nodes@[i] == second.nodes@[j],
        first.nodes@[i].credentials is Some || first.default_credentials
            == second.default_credentials,
    ensures
        r1@[i] == r2@[j],
{
}

/// The node is an endpoint with this hardware address: it has an IPv4 address, and the hardware
/// address is the one that its inventory tells or, where it tells none, the one made up from the
/// IPv4 address.
pub open spec fn has_mac(node: ClusterNode, mac: MacAddr) -> bool {
    &&& node.bmc_ip matches IpAddr::V4(octets)
    &&& match node.bmc_mac {
        Some(text) => crate::health::address::mac_of(text@) == Some(mac),
        None => {
            &&& mac.octets[0] == 2
            &&& mac.octets[1] == 0
            &&& mac.octets[2] == octets[0]
            &&& mac.octets[3] == octets[1]
            &&& mac.octets[4] == octets[2]
            &&& mac.octets[5] == octets[3]
        },
    }
}

/// The node can be an endpoint: it has an IPv4 address, and its hardware address is valid if it
/// tells one.
pub open spec fn can_be_endpoint(node: ClusterNode) -> bool {
    &&& node.bmc_ip is V4
    &&& node.bmc_mac matches Some(text) ==> crate::health::address::mac_of(text@) is Some
}

/// The endpoint has the address, credentials, identifier, labels and rack of the node, and this
/// port; its kind is not known.
pub open spec fn is_endpoint_for(
    endpoint: BmcEndpoint,
    node: ClusterNode,
    port: Option<u16>,
) -> bool {
    &&& endpoint.addr.ip == node.bmc_ip
    &&& endpoint.addr.port == port
    &&& has_mac(node, endpoint.addr.mac)
    &&& endpoint.credentials matches BmcCredentials::UsernamePassword { username, password }
    &&& username == node.username
    &&& password == node.password
    &&& endpoint.uuid == node.uuid
    &&& endpoint.inventory_labels == node.inventory_labels
    &&& endpoint.metadata is None
    &&& endpoint.rack_id is Some <==> node.rack is Some
    &&& node.rack matches Some(rack) ==> endpoint.rack_id->0.id == rack
}

/// The name is the node's host name, else its identifier, else the dotted text of its address.
pub open spec fn is_name_for(name: Seq<char>, node: ClusterNode) -> bool {
    &&& node.hostname matches Some(hostname) ==> name == hostname@
    &&& node.hostname is None && node.uuid is Some ==> name == crate::ids::hyphenated(
        node.uuid->0.bits,
    )
    &&& node.hostname is None && node.uuid is None ==> name == crate::health::address::dotted(
        node.bmc_ip->V4_0,
    )
}

/// The places are those of the nodes that can be endpoints, or of those that cannot, each once and
/// in order.
pub open spec fn are_node_places(places: Seq<int>, nodes: Seq<ClusterNode>, usable: bool) -> bool {
    &&& forall|k: int, l: int|
        0 <= k < l < places.len() ==> #[trigger] places[k] < #[trigger] places[l]
    &&& forall|k: int|
        0 <= k < places.len() ==> 0 <= #[trigger] places[k] < nodes.len() && can_be_endpoint(
            nodes[places[k]],
        ) == usable
    &&& forall|i: int|
        0 <= i < nodes.len() && can_be_endpoint(#[trigger] nodes[i]) == usable ==> places.contains(
            i,
        )
}

/// The endpoints, with their names, are the nodes at the first places, and the skipped nodes, with
/// the reasons, those at the others.
pub open spec fn is_split(
    nodes: Seq<ClusterNode>,
    port: Option<u16>,
    build: EndpointBuild,
    kept: Seq<int>,
    left: Seq<int>,
) -> bool {
    &&& are_node_places(kept, nodes, true)
    &&& are_node_places(left, nodes, false)
    &&& build.endpoints@.len() == kept.len()
    &&& build.identities@.len() == kept.len()
    &&& build.skipped@.len() == left.len()
    &&& forall|k: int|
        0 <= k < kept.len() ==> is_endpoint_for(
            #[trigger] build.endpoints@[k],
            nodes[kept[k]],
            port,
        )
    &&& forall|k: int|
        0 <= k < kept.len() ==> is_name_for((#[trigger] build.identities@[k])@, nodes[kept[k]])
    &&& forall|k: int|
        0 <= k < left.len() ==> {
            let skipped = #[trigger] build.skipped@[k];
            &&& skipped.node == nodes[left[k]]
            &&& skipped.reason == if nodes[left[k]].bmc_ip is V4 {
                SkipReason::InvalidMac
            } else {
                SkipReason::NotIpv4
            }
        }
}

proof fn lemma_node_mac(node: ClusterNode)
    ensures
        crate::health::endpoint::node_mac(node) is Ok <==> can_be_endpoint(node),
        crate::health::endpoint::node_mac(node) matches Ok(mac) ==> has_mac(node, mac),
        crate::health::endpoint::node_mac(node) matches Err(reason) ==> reason
            == if node.bmc_ip is V4 {
            SkipReason::InvalidMac
        } else {
            SkipReason::NotIpv4
        },
{
}

/// The places of the nodes that cannot be endpoints among the first `n`.
spec fn left_places(nodes: Seq<ClusterNode>, n: int) -> Seq<int>
    decreases n,
{
    if n <= 0 {
        seq![]
    } else if crate::health::endpoint::node_mac(nodes[n - 1]) is Err {
        left_places(nodes, n - 1).push(n - 1)
    } else {
        left_places(nodes, n - 1)
    }
}

proof fn lemma_left_places(nodes: Seq<ClusterNode>, n: int)
    requires
        0 <= n <= nodes.len(),
    ensures
        ({
            let places = left_places(nodes, n);
            let skipped = crate::health::endpoint::unusable(nodes.take(n));
            &&& places.len() == skipped.len()
            &&& forall|k: int|
                0 <= k < places.len() ==> {
                    &&& 0 <= #[trigger] places[k] < n
                    &&& crate::health::endpoint::node_mac(nodes[places[k]]) == Err::<
                        MacAddr,
                        SkipReason,
                    >(skipped[k].reason)
                    &&& skipped[k].node == nodes[places[k]]
                }
            &&& forall|k: int, l: int|
                0 <= k < l < places.len() ==> #[trigger] places[k] < #[trigger] places[l]
            &&& forall|i: int|
                0 <= i < n && crate::health::endpoint::node_mac(#[trigger] nodes[i]) is Err
                    ==> places.contains(i)
        }),
    decreases n,
{
    if n > 0 {
        lemma_left_places(nodes, n - 1);
        assert(nodes.take(n).drop_last() =~= nodes.take(n - 1));
        assert(nodes.take(n).last() == nodes[n - 1]);
        let before = left_places(nodes, n - 1);
        let places = left_places(nodes, n);
        assert forall|i: int|
            0 <= i < n && crate::health::endpoint::node_mac(
                #[trigger] nodes[i],
            ) is Err implies places.contains(i) by {
            if i == n - 1 {
                assert(places.last() == i);
            } else {
                let k = choose|k: int| 0 <= k < before.len() && before[k] == i;
                assert(places[k] == i);
            }
        }
    }
}

pub(crate) proof fn lemma_split(nodes: Seq<ClusterNode>, port: Option<u16>, build: EndpointBuild)
    requires
        crate::health::endpoint::is_build(nodes, port, build),
    ensures
        exists|kept: Seq<int>, left: Seq<int>| #[trigger] is_split(nodes, port, build, kept, left),
{
    let n = nodes.len() as int;
    let kept = crate::health::laws::usable_places(nodes, n);
    let left = left_places(nodes, n);
    crate::health::laws::lemma_usable_places(nodes, n);
    lemma_left_places(nodes, n);
    assert(nodes.take(n) =~= nodes);
    assert forall|node: ClusterNode|
        #![trigger can_be_endpoint(node)]
        crate::health::endpoint::node_mac(node) is Ok <==> can_be_endpoint(node) by {
        lemma_node_mac(node);
    }
    assert forall|i: int|
        0 <= i < nodes.len() && can_be_endpoint(
            #[trigger] nodes[i],
        ) == true implies kept.contains(i) by {
        crate::health::laws::lemma_contains_place(nodes, n, i);
    }
    assert forall|k: int| 0 <= k < kept.len() implies is_endpoint_for(
        #[trigger] build.endpoints@[k],
        nodes[kept[k]],
        port,
    ) by {
        assert(0 <= kept[k] < n);
        lemma_node_mac(nodes[kept[k]]);
        assert(build.endpoints@[k] == crate::health::endpoint::endpoint_of(
            nodes[kept[k]],
            port,
            crate::health::endpoint::node_mac(nodes[kept[k]])->Ok_0,
        ));
    }
    assert forall|k: int| 0 <= k < kept.len() implies is_name_for(
        (#[trigger] build.identities@[k])@,
        nodes[kept[k]],
    ) by {
        assert(0 <= kept[k] < n);
    }
    assert forall|k: int| 0 <= k < left.len() implies {
        let skipped = #[trigger] build.skipped@[k];
        &&& skipped.node == nodes[left[k]]
        &&& skipped.reason == if nodes[left[k]].bmc_ip is V4 {
            SkipReason::InvalidMac
        } else {
            SkipReason::NotIpv4
        }
    } by {
        assert(0 <= left[k] < n);
        lemma_node_mac(nodes[left[k]]);
    }
    assert(is_split(nodes, port, build, kept, left));
}

/// Every node that can be an endpoint is one, once and in the order of the nodes, with all its
/// parts and a name; every other node is skipped, with the reason.
pub proof fn law_nodes_are_split_into_endpoints_and_skipped(
    nodes: Vec<ClusterNode>,
    port: Option<u16>,
    build: EndpointBuild,
)
    requires
        call_ensures(crate::health::endpoint::build_endpoints, (nodes, port), build),
    ensures
        exists|kept: Seq<int>, left: Seq<int>| #[trigger]
            is_split(nodes@, port, build, kept, left),
{
    lemma_split(nodes@, port, build);
}

/// Some endpoint of the build is that of node `i`, and bears its name.
pub open spec fn has_endpoint_for(
    build: EndpointBuild,
    node: ClusterNode,
    port: Option<u16>,
) -> bool {
    exists|k: int|
        {
            &&& 0 <= k < build.endpoints@.len()
            &&& k < build.identities@.len()
            &&& is_endpoint_for(#[trigger] build.endpoints@[k], node, port)
            &&& is_name_for(build.identities@[k]@, node)
        }
}

pub(crate) proof fn lemma_has_endpoint(
    nodes: Seq<ClusterNode>,
    port: Option<u16>,
    build: EndpointBuild,
    i: int,
)
    requires
        crate::health::endpoint::is_build(nodes, port, build),
        0 <= i < nodes.len(),
        can_be_endpoint(nodes[i]),
    ensures
        has_endpoint_for(build, nodes[i], port),
{
    lemma_split(nodes, port, build);
    let (kept, left) = choose|kept: Seq<int>, left: Seq<int>| #[trigger]
        is_split(nodes, port, build, kept, left);
    let k = choose|k: int| 0 <= k < kept.len() && kept[k] == i;
    assert(kept.contains(i));
    assert(is_endpoint_for(build.endpoints@[k], nodes[kept[k]], port));
    assert(is_name_for(build.identities@[k]@, nodes[kept[k]]));
}

/// Whether a node is an endpoint, and with which hardware address, depends on its two addresses
/// alone.
pub proof fn law_the_mac_depends_on_the_addresses_only(
    node: ClusterNode,
    other: ClusterNode,
    r: Result<MacAddr, SkipReason>,
    r_other: Result<MacAddr, SkipReason>,
)
    requires
        call_ensures(crate::health::endpoint::resolve_mac, (&node,), r),
        call_ensures(crate::health::endpoint::resolve_mac, (&other,), r_other),
    ensures
        r is Ok <==> can_be_endpoint(node),
        r matches Ok(mac) ==> has_mac(node, mac),
        r matches Err(reason) ==> (reason is NotIpv4 <==> !(node.bmc_ip is V4)),
        node.bmc_ip == other.bmc_ip && node.bmc_mac == other.bmc_mac ==> r == r_other,
{
    lemma_node_mac(node);
    lemma_node_mac(other);
}

/// An endpoint made with a given hardware address has this address, whatever the node tells of
/// one, and the other parts of the node.
pub proof fn law_an_endpoint_has_the_parts_of_its_node(
    node: ClusterNode,
    port: Option<u16>,
    mac: MacAddr,
    r: BmcEndpoint,
)
    requires
        call_ensures(crate::health::endpoint::endpoint_with_mac, (node, port, mac), r),
    ensures
        r.addr.mac == mac,
        r.addr.ip == node.bmc_ip,
        r.addr.port == port,
        r.credentials matches BmcCredentials::UsernamePassword { username, password } && username
            == node.username && password == node.password,
        r.uuid == node.uuid,
        r.inventory_labels == node.inventory_labels,
        r.metadata is None,
        r.rack_id is Some <==> node.rack is Some,
        node.rack matches Some(rack) ==> r.rack_id->0.id == rack,
{
}

/// A hardware address from the inventory is taken as it was parsed; only without one is an address
/// made up.
pub proof fn law_a_mac_of_the_inventory_is_kept(
    parsed: Option<MacAddr>,
    octets: [u8; 4],
    kept: Option<MacAddr>,
    made_up: Option<MacAddr>,
)
    requires
        call_ensures(crate::health::address::choose_mac, (Some(parsed), octets), kept),
        call_ensures(crate::health::address::choose_mac, (None, octets), made_up),
    ensures
        kept == parsed,
        made_up is Some,
        made_up->0.octets@ =~= seq![2u8, 0u8, octets[0], octets[1], octets[2], octets[3]],
{
}

/// A node is named by its host name, else by its identifier, else by the text of its address.
pub proof fn law_a_node_is_named_by_what_it_has(node: ClusterNode, address: &str, r: String)
    requires
        call_ensures(crate::health::endpoint::endpoint_identity, (&node, address), r),
    ensures
        node.hostname matches Some(hostname) ==> r@ == hostname@,
        node.hostname is None && node.uuid is Some ==> r@ == crate::ids::hyphenated(
            node.uuid->0.bits,
        ),
        node.hostname is None && node.uuid is None ==> r@ == address@,
{
}

/// The text of an IPv4 address is its four octets in decimal, with dots between them.
pub proof fn law_an_address_is_four_decimals(octets: [u8; 4], r: String)
    requires
        call_ensures(crate::health::address::dotted_text, (octets,), r),
    ensures
        r@ == crate::text::decimal(octets[0]) + seq!['.'] + crate::text::decimal(octets[1])
            + seq!['.'] + crate::text::decimal(octets[2]) + seq!['.'] + crate::text::decimal(
            octets[3],
        ),
{
    reveal_strlit(".");
    assert("."@ =~= seq!['.']);
}

/// The places are those of the endpoints that have a client, each once and in order.
pub open spec fn are_client_places(places: Seq<int>, count: int, connected: Seq<bool>) -> bool {
    &&& forall|k: int, l: int|
        0 <= k < l < places.len() ==> #[trigger] places[k] < #[trigger] places[l]
    &&& forall|k: int|
        0 <= k < places.len() ==> 0 <= #[trigger] places[k] < count && places[k] < connected.len()
            && connected[places[k]]
    &&& forall|i: int|
        0 <= i < count && i < connected.len() && #[trigger] connected[i] ==> places.contains(i)
}

spec fn client_places(connected: Seq<bool>, n: int) -> Seq<int>
    decreases n,
{
    if n <= 0 {
        seq![]
    } else if n - 1 < connected.len() && connected[n - 1] {
        client_places(connected, n - 1).push(n - 1)
    } else {
        client_places(connected, n - 1)
    }
}

proof fn lemma_client_places(endpoints: Seq<BmcEndpoint>, connected: Seq<bool>, n: int)
    requires
        0 <= n <= endpoints.len(),
    ensures
        ({
            let places = client_places(connected, n);
            let kept = crate::health::endpoint::with_client(endpoints, connected, n);
            &&& are_client_places(places, n, connected)
            &&& kept.len() == places.len()
            &&& forall|k: int| 0 <= k < kept.len() ==> #[trigger] kept[k] == endpoints[places[k]]
        }),
    decreases n,
{
    if n > 0 {
        lemma_client_places(endpoints, connected, n - 1);
        let before = client_places(connected, n - 1);
        let places = client_places(connected, n);
        assert forall|i: int|
            0 <= i < n && i < connected.len() && #[trigger] connected[i] implies places.contains(
            i,
        ) by {
            if i == n - 1 {
                assert(places.last() == i);
            } else {
                let k = choose|k: int| 0 <= k < before.len() && before[k] == i;
                assert(places[k] == i);
            }
        }
    }
}

/// The endpoints with a client are kept, each once, unchanged and in order, and no others.
pub proof fn law_endpoints_with_a_client_are_kept(
    build: EndpointBuild,
    connected: Vec<bool>,
    r: Vec<BmcEndpoint>,
)
    requires
        call_ensures(crate::health::endpoint::connected_endpoints, (build, &connected), r),
    ensures
        exists|places: Seq<int>|
            {
                &&& #[trigger] are_client_places(
                    places,
                    build.endpoints@.len() as int,
                    connected@,
                )
                &&& r@.len() == places.len()
                &&& forall|k: int|
                    0 <= k < r@.len() ==> #[trigger] r@[k] == build.endpoints@[places[k]]
            },
{
    lemma_client_places(build.endpoints@, connected@, build.endpoints@.len() as int);
}

/// A copy of credentials has the same user name and password.
pub proof fn law_copied_credentials_are_the_same(credentials: BmcCredentials, r: BmcCredentials)
    requires
        call_ensures(BmcCredentials::duplicate, (&credentials,), r),
    ensures
        r->username == credentials->username,
        r->password == credentials->password,
{
}

/// A copy of an endpoint has all its parts.
pub proof fn law_a_copy_has_all_parts(endpoint: BmcEndpoint, r: BmcEndpoint)
    requires
        call_ensures(BmcEndpoint::duplicate, (&endpoint,), r),
    ensures
        r.addr == endpoint.addr,
        r.credentials == endpoint.credentials,
        r.uuid == endpoint.uuid,
        r.inventory_labels@ == endpoint.inventory_labels@,
        r.metadata == endpoint.metadata,
        r.rack_id == endpoint.rack_id,
{
}

} // verus!
