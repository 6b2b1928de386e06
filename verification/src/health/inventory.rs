//! The nodes of a cluster, and the inventory file that lists them.

use crate::health::address::IpAddr;
use crate::ids::Uuid;
use std::collections::BTreeMap;
use vstd::prelude::*;

verus! {

/// The inventory file.
#[derive(Debug)]
pub struct FileInventory {
    pub default_credentials: FileCredentials,
    pub nodes: Vec<FileNode>,
}

#[derive(Debug)]
pub struct FileCredentials {
    pub username: String,
    pub password: Option<String>,
}

#[derive(Debug)]
pub struct FileNode {
    pub hostname: Option<String>,
    pub bmc_ip: IpAddr,
    pub bmc_mac: Option<String>,
    pub rack: Option<String>,
    pub uuid: Option<Uuid>,
    pub labels: BTreeMap<String, String>,
    pub credentials: Option<FileCredentials>,
}

/// A node of the cluster, wherever it was listed.
#[derive(Debug)]
pub struct ClusterNode {
    pub hostname: Option<String>,
    pub bmc_ip: IpAddr,
    pub bmc_mac: Option<String>,
    pub rack: Option<String>,
    pub uuid: Option<Uuid>,
    pub inventory_labels: BTreeMap<String, String>,
    pub username: String,
    pub password: Option<String>,
}

/// A text that is there and not empty.
pub open spec fn nonempty(text: Option<String>) -> Option<String> {
    match text {
        Some(text) => if text@.len() == 0 {
            None
        } else {
            Some(text)
        },
        None => None,
    }
}

/// A text that is there and not empty.
pub(crate) fn keep_nonempty(text: Option<String>) -> (r: Option<String>)
    ensures
        r == nonempty(text),
{
    match text {
        Some(text) => if text.as_str().is_empty() {
            None
        } else {
            Some(text)
        },
        None => None,
    }
}

/// A listed node, with its own credentials where it has them, and the default ones otherwise. An
/// empty rack is none.
pub open spec fn cluster_node(default_credentials: FileCredentials, node: FileNode) -> ClusterNode {
    let credentials = match node.credentials {
        Some(credentials) => credentials,
        None => default_credentials,
    };
    ClusterNode {
        hostname: node.hostname,
        bmc_ip: node.bmc_ip,
        bmc_mac: node.bmc_mac,
        rack: nonempty(node.rack),
        uuid: node.uuid,
        inventory_labels: node.labels,
        username: credentials.username,
        password: credentials.password,
    }
}

impl FileInventory {
    /// The listed nodes, in the order of the file.
    pub open spec fn cluster_nodes(self) -> Seq<ClusterNode> {
        Seq::new(
            self.nodes@.len(),
            |i: int| cluster_node(self.default_credentials, self.nodes@[i]),
        )
    }

    /// The listed nodes, in the order of the file.
    pub fn into_cluster_nodes(self) -> (r: Vec<ClusterNode>)
        ensures
            r@ == self.cluster_nodes(),
    {
        let default_credentials = self.default_credentials;
        let nodes = self.nodes;
        let mut cluster_nodes: Vec<ClusterNode> = Vec::new();
        for node in it: nodes
            invariant
                cluster_nodes@.len() == it.index(),
                forall|i: int|
                    0 <= i < cluster_nodes@.len() ==> #[trigger] cluster_nodes@[i] == cluster_node(
                        default_credentials,
                        nodes@[i],
                    ),
        {
            let credentials = match node.credentials {
                Some(credentials) => credentials,
                None => FileCredentials {
                    username: default_credentials.username.clone(),
                    password: default_credentials.password.clone(),
                },
            };
            cluster_nodes.push(
                ClusterNode {
                    hostname: node.hostname,
                    bmc_ip: node.bmc_ip,
                    bmc_mac: node.bmc_mac,
                    rack: keep_nonempty(node.rack),
                    uuid: node.uuid,
                    inventory_labels: node.labels,
                    username: credentials.username,
                    password: credentials.password,
                },
            );
        }
        cluster_nodes
    }
}

} // verus!
