//! BMC endpoints, and how they are made from the nodes of a cluster.

use crate::health::address::{choose_mac, dotted_text, parse_mac, IpAddr, MacAddr};
use crate::health::inventory::ClusterNode;
use crate::ids::Uuid;
use std::collections::BTreeMap;
use vstd::prelude::*;

verus! {

/// Where a BMC is reached; the hardware address is the key under which it is cached.
#[derive(Debug, Clone, Copy, PartialEq, Eq)]
pub struct BmcAddr {
    pub ip: IpAddr,
    pub port: Option<u16>,
    pub mac: MacAddr,
}

#[derive(Debug)]
pub enum BmcCredentials {
    UsernamePassword { username: String, password: Option<String> },
}

#[derive(Debug)]
pub struct RackId {
    pub id: String,
}

/// What is known of a host machine.
#[derive(Debug, Clone, Copy)]
pub struct MachineData {
    pub system_uuid: Option<Uuid>,
}

/// What kind of thing an endpoint belongs to.
#[derive(Debug, Clone, Copy)]
pub enum EndpointMetadata {
    Machine(MachineData),
    Other,
}

/// A BMC, and all that is needed to talk to it.
#[derive(Debug)]
pub struct BmcEndpoint {
    pub addr: BmcAddr,
    pub credentials: BmcCredentials,
    pub uuid: Option<Uuid>,
    pub inventory_labels: BTreeMap<String, String>,
    pub metadata: Option<EndpointMetadata>,
    pub rack_id: Option<RackId>,
}

impl BmcCredentials {
    /// A copy of the credentials.
    pub fn duplicate(&self) -> (r: BmcCredentials)
        ensures
            r == *self,
    {
        match self {
            BmcCredentials::UsernamePassword {
                username,
                password,
            } => BmcCredentials::UsernamePassword {
                username: username.clone(),
                password: password.clone(),
            },
        }
    }
}

impl BmcEndpoint {
    /// The two are alike in all but what kind of thing they belong to.
    pub open spec fn is_same_bmc(self, other: BmcEndpoint) -> bool {
        &&& self.addr == other.addr
        &&& self.credentials == other.credentials
        &&& self.uuid == other.uuid
        &&& self.inventory_labels@ == other.inventory_labels@
        &&& self.rack_id == other.rack_id
    }

    /// A copy of the endpoint.
    pub fn duplicate(&self) -> (r: BmcEndpoint)
        ensures
            r.is_same_bmc(*self),
            r.metadata == self.metadata,
    {
        BmcEndpoint {
            addr: self.addr,
            credentials: self.credentials.duplicate(),
            uuid: self.uuid,
            inventory_labels: self.inventory_labels.clone(),
            metadata: self.metadata,
            rack_id: match &self.rack_id {
                Some(rack) => Some(RackId { id: rack.id.clone() }),
                None => None,
            },
        }
    }
}

/// Why a node is no endpoint.
#[derive(Debug, Clone, Copy, PartialEq, Eq, Structural)]
pub enum SkipReason {
    /// Its BMC address is not an IPv4 address.
    NotIpv4,
    /// Its inventory has a hardware address that is none.
    InvalidMac,
}

#[derive(Debug)]
pub struct SkippedNode {
    pub node: ClusterNode,
    pub reason: SkipReason,
}

/// What became of the nodes of a cluster.
#[derive(Debug)]
pub struct EndpointBuild {
    pub endpoints: Vec<BmcEndpoint>,
    /// The names of the endpoints, for people to read, in the same order.
    pub identities: Vec<String>,
    pub skipped: Vec<SkippedNode>,
}

/// The name of a node for people to read: its host name, else its identifier, else the text of its
/// address.
pub open spec fn identity(node: ClusterNode, address: Seq<char>) -> Seq<char> {
    match node.hostname {
        Some(hostname) => hostname@,
        None => match node.uuid {
            Some(uuid) => uuid.text(),
            None => address,
        },
    }
}

/// The name of a node for people to read: its host name, else its identifier, else its address.
/// `address` is the text of its address.
pub fn endpoint_identity(node: &ClusterNode, address: &str) -> (r: String)
    ensures
        r@ == identity(*node, address@),
{
    match &node.hostname {
        Some(hostname) => hostname.clone(),
        None => match node.uuid {
            Some(uuid) => uuid.to_text(),
            None => address.to_owned(),
        },
    }
}

/// The hardware address of a node, or why it is no endpoint.
pub open spec fn node_mac(node: ClusterNode) -> Result<MacAddr, SkipReason> {
    match node.bmc_ip {
        IpAddr::V4(octets) => match node.bmc_mac {
            Some(text) => match crate::health::address::mac_of(text@) {
                Some(mac) => Ok(mac),
                None => Err(SkipReason::InvalidMac),
            },
            None => Ok(crate::health::address::synthetic_mac(octets)),
        },
        IpAddr::V6(_) => Err(SkipReason::NotIpv4),
    }
}

/// The endpoint of a node with this hardware address. Its kind is not known yet.
pub open spec fn endpoint_of(node: ClusterNode, port: Option<u16>, mac: MacAddr) -> BmcEndpoint {
    BmcEndpoint {
        addr: BmcAddr { ip: node.bmc_ip, port, mac },
        credentials: BmcCredentials::UsernamePassword {
            username: node.username,
            password: node.password,
        },
        uuid: node.uuid,
        inventory_labels: node.inventory_labels,
        metadata: None,
        rack_id: match node.rack {
            Some(rack) => Some(RackId { id: rack }),
            None => None,
        },
    }
}

/// The endpoint of a node with this hardware address.
pub fn endpoint_with_mac(node: ClusterNode, port: Option<u16>, mac: MacAddr) -> (r: BmcEndpoint)
    ensures
        r == endpoint_of(node, port, mac),
{
    BmcEndpoint {
        addr: BmcAddr { ip: node.bmc_ip, port, mac },
        credentials: BmcCredentials::UsernamePassword {
            username: node.username,
            password: node.password,
        },
        uuid: node.uuid,
        inventory_labels: node.inventory_labels,
        metadata: None,
        rack_id: match node.rack {
            Some(rack) => Some(RackId { id: rack }),
            None => None,
        },
    }
}

/// The hardware address of a node, or why it is no endpoint. An address of the inventory is six
/// pairs of hexadecimal digits, bare or with `:` or `-` between them.
pub fn resolve_mac(node: &ClusterNode) -> (r: Result<MacAddr, SkipReason>)
    ensures
        r == node_mac(*node),
        node.bmc_ip is V4 && node.bmc_mac is Some ==> crate::health::address::is_mac_of(
            node.bmc_mac->0@,
            match r {
                Ok(mac) => Some(mac),
                Err(_) => None,
            },
        ),
{
    match node.bmc_ip {
        IpAddr::V4(octets) => {
            let inventory: Option<Option<MacAddr>> = match &node.bmc_mac {
                Some(text) => Some(parse_mac(text.as_str())),
                None => None,
            };
            match choose_mac(inventory, octets) {
                Some(mac) => Ok(mac),
                None => Err(SkipReason::InvalidMac),
            }
        },
        IpAddr::V6(_) => Err(SkipReason::NotIpv4),
    }
}

/// The nodes that are endpoints, in their order.
pub open spec fn usable(nodes: Seq<ClusterNode>) -> Seq<ClusterNode>
    decreases nodes.len(),
{
    if nodes.len() == 0 {
        seq![]
    } else if node_mac(nodes.last()) is Ok {
        usable(nodes.drop_last()).push(nodes.last())
    } else {
        usable(nodes.drop_last())
    }
}

/// The nodes that are no endpoints, in their order, with the reasons.
pub open spec fn unusable(nodes: Seq<ClusterNode>) -> Seq<SkippedNode>
    decreases nodes.len(),
{
    if nodes.len() == 0 {
        seq![]
    } else {
        match node_mac(nodes.last()) {
            Ok(_) => unusable(nodes.drop_last()),
            Err(reason) => unusable(nodes.drop_last()).push(
                SkippedNode { node: nodes.last(), reason },
            ),
        }
    }
}

/// `build` is what becomes of the nodes: one endpoint, with its name, for each node that can be
/// one, and the others skipped.
pub open spec fn is_build(
    nodes: Seq<ClusterNode>,
    port: Option<u16>,
    build: EndpointBuild,
) -> bool {
    let kept = usable(nodes);
    &&& build.endpoints@.len() == kept.len()
    &&& build.identities@.len() == kept.len()
    &&& forall|i: int|
        0 <= i < kept.len() ==> #[trigger] build.endpoints@[i] == endpoint_of(
            kept[i],
            port,
            node_mac(kept[i])->Ok_0,
        )
    &&& forall|i: int|
        0 <= i < kept.len() ==> (#[trigger] build.identities@[i])@ == identity(
            kept[i],
            crate::health::address::dotted(kept[i].bmc_ip->V4_0),
        )
    &&& build.skipped@ == unusable(nodes)
}

/// The endpoints of the nodes, in their order. A node whose BMC has no IPv4 address, or whose
/// inventory has an invalid hardware address, is skipped.
pub fn build_endpoints(nodes: Vec<ClusterNode>, port: Option<u16>) -> (r: EndpointBuild)
    ensures
        is_build(nodes@, port, r),
{
    let mut build = EndpointBuild {
        endpoints: Vec::new(),
        identities: Vec::new(),
        skipped: Vec::new(),
    };
    for node in it: nodes
        invariant
            is_build(nodes@.take(it.index() as int), port, build),
    {
        let ghost seen = nodes@.take(it.index() as int + 1);
        assert(seen.drop_last() =~= nodes@.take(it.index() as int));
        assert(seen.last() == node);
        match resolve_mac(&node) {
            Ok(mac) => {
                match node.bmc_ip {
                    IpAddr::V4(octets) => {
                        let address: String = dotted_text(octets);
                        build.identities.push(endpoint_identity(&node, address.as_str()));
                    },
                    IpAddr::V6(_) => {},
                }
                build.endpoints.push(endpoint_with_mac(node, port, mac));
            },
            Err(reason) => build.skipped.push(SkippedNode { node, reason }),
        }
    }
    assert(nodes@.take(nodes@.len() as int) =~= nodes@);
    build
}

/// Whether the endpoint at this place has a client.
pub open spec fn is_connected(connected: Seq<bool>, i: int) -> bool {
    i < connected.len() && connected[i]
}

/// Those of the first `n` endpoints that have a client, in their order.
pub open spec fn with_client(endpoints: Seq<BmcEndpoint>, connected: Seq<bool>, n: int) -> Seq<
    BmcEndpoint,
>
    decreases n,
{
    if n <= 0 {
        seq![]
    } else if is_connected(connected, n - 1) {
        with_client(endpoints, connected, n - 1).push(endpoints[n - 1])
    } else {
        with_client(endpoints, connected, n - 1)
    }
}

/// The endpoints for which a client could be made, in their order; `connected` tells it of each,
/// and one that it does not tell of has none. The others are skipped.
pub fn connected_endpoints(build: EndpointBuild, connected: &Vec<bool>) -> (r: Vec<BmcEndpoint>)
    ensures
        r@ == with_client(build.endpoints@, connected@, build.endpoints@.len() as int),
{
    let endpoints = build.endpoints;
    let count: usize = endpoints.len();
    let mut kept: Vec<BmcEndpoint> = Vec::new();
    let mut i: usize = 0;
    for endpoint in it: endpoints
        invariant
            i == it.index(),
            count == endpoints@.len(),
            kept@ == with_client(endpoints@, connected@, it.index() as int),
    {
        if i < connected.len() && connected[i] {
            kept.push(endpoint);
        }
        i += 1;
    }
    kept
}

} // verus!
