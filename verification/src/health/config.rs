//! How a cluster is found.

use vstd::prelude::*;

verus! {

/// Where the nodes of a cluster are listed, and how their BMCs are reached.
#[derive(Debug)]
pub struct ClusterEndpointSourceConfig {
    /// The cluster manager; without one, the nodes are listed in a file.
    pub cluster_manager_url: Option<String>,
    /// The partition whose BMC credentials are asked for.
    pub cluster_manager_partition: String,
    /// The user name for when the manager knows none.
    pub default_username: String,
    /// The password for when the manager knows none.
    pub default_password: Option<String>,
    /// The inventory file.
    pub inventory_path: String,
    /// The port of the BMCs, if it is not the usual one.
    pub port: Option<u16>,
}

} // verus!
