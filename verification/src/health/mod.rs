//! Where the BMC endpoints of a cluster come from.

pub mod address;
pub mod cluster;
pub mod cluster_laws;
pub mod config;
pub mod endpoint;
pub mod endpoint_laws;
pub mod error;
pub mod identity;
pub mod identity_laws;
pub mod inventory;
pub mod json;
pub mod laws;
pub mod load_laws;
pub mod rpc;
pub mod rpc_laws;
pub mod source;
