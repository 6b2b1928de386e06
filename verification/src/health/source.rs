//! Loading the endpoints of a cluster, from its manager or from a file.
//!
//! The load waits for one thing at a time: a client, a response, the body of a response, a file.
//! Each step takes what came of that and says what to do next.

use crate::health::address::IpAddr;
use crate::health::cluster::{
    extract_manager_devices, manager_credentials, read_manager_devices, DeviceEntry,
};
use crate::health::config::ClusterEndpointSourceConfig;
use crate::health::endpoint::{build_endpoints, EndpointBuild};
use crate::health::error::{generic, HealthError};
use crate::health::inventory::{ClusterNode, FileInventory};
use crate::health::json::Json;
use crate::health::rpc::{
    devices_request, manager_rpc_url, partition_request, rpc_body, rpc_sent, HttpStatus,
    ManagerCall,
};
use vstd::prelude::*;

verus! {

/// A source of endpoints: those of one cluster.
#[derive(Debug)]
pub struct ClusterEndpointSource {
    pub cfg: ClusterEndpointSourceConfig,
    /// The proxy through which the BMCs are reached.
    pub proxy_url: Option<String>,
    /// How many responses the client of a BMC may keep.
    pub cache_size: usize,
}

/// What a load is waiting for.
#[derive(Debug)]
pub enum LoadState {
    /// The word to begin.
    Start,
    /// A client for the manager at `base`.
    BuildingHttp { base: String },
    /// The response to the request for the partition.
    CredentialsSending { url: String },
    /// The body of that response.
    CredentialsReading { url: String },
    /// The response to the request for the devices.
    DevicesSending { username: String, password: Option<String> },
    /// The body of that response.
    DevicesReading { username: String, password: Option<String> },
    /// What the addresses of the devices are.
    Resolving { devices: Vec<DeviceEntry>, username: String, password: Option<String> },
    /// The text of the inventory file.
    ReadingFile,
    /// The inventory that this text describes.
    ParsingFile,
    /// Nothing: the load has ended.
    Finished,
}

/// What a load is told. Errors are told as their texts.
#[derive(Debug)]
pub enum LoadEvent {
    Begin,
    HttpBuilt(Result<(), String>),
    /// The status of a response.
    Sent(Result<HttpStatus, String>),
    /// The body of a response.
    BodyRead(Result<Json, String>),
    /// What the texts of the devices' addresses stand for, in their order.
    Resolved(Vec<Option<IpAddr>>),
    FileRead(Result<String, String>),
    Parsed(Result<FileInventory, String>),
}

/// What a load is to do next.
#[derive(Debug)]
pub enum LoadAction {
    /// Build a client.
    BuildHttp,
    /// Post the body. `warning` is why the credentials could not be had from the manager, so that
    /// those of the configuration are used.
    Send { url: String, body: Json, warning: Option<HealthError> },
    /// Read the body of the response.
    ReadBody,
    /// Read these texts as addresses.
    ResolveAddresses(Vec<Option<String>>),
    ReadFile { path: String },
    /// Read this text as an inventory.
    ParseInventory { contents: String },
    Finish(Result<EndpointBuild, HealthError>),
    /// The event was not the one that the load waits for: wait on.
    KeepWaiting,
}

/// The load ends with this generic error.
pub open spec fn fails_with(next: LoadState, action: LoadAction, message: Seq<char>) -> bool {
    &&& next == LoadState::Finished
    &&& action matches LoadAction::Finish(Err(error))
    &&& error.says(message)
}

/// The load ends with the endpoints of these nodes.
pub open spec fn ends_with(
    cfg: ClusterEndpointSourceConfig,
    nodes: Seq<ClusterNode>,
    next: LoadState,
    action: LoadAction,
) -> bool {
    &&& next == LoadState::Finished
    &&& action matches LoadAction::Finish(Ok(build))
    &&& crate::health::endpoint::is_build(nodes, cfg.port, build)
}

/// The devices are asked for, to be reached with these credentials. With a complaint about the
/// request for the credentials, that is the warning.
pub open spec fn asks_for_devices(
    url: String,
    username: String,
    password: Option<String>,
    complaint: Option<Seq<char>>,
    next: LoadState,
    action: LoadAction,
) -> bool {
    &&& next == (LoadState::DevicesSending { username, password })
    &&& action matches LoadAction::Send { url: to, body, warning }
    &&& to == url
    &&& crate::health::rpc::is_devices_request(body)
    &&& match complaint {
        Some(text) => warning is Some && warning->0.says(text),
        None => warning is None,
    }
}

/// A load begins with the manager if there is one, and with the file otherwise.
pub open spec fn is_beginning(
    cfg: ClusterEndpointSourceConfig,
    next: LoadState,
    action: LoadAction,
) -> bool {
    match cfg.cluster_manager_url {
        Some(base) => next == (LoadState::BuildingHttp { base }) && action == LoadAction::BuildHttp,
        None => next == LoadState::ReadingFile && action == (LoadAction::ReadFile {
            path: cfg.inventory_path,
        }),
    }
}

/// With a client, the partition is asked for.
pub open spec fn is_built_step(
    cfg: ClusterEndpointSourceConfig,
    base: String,
    built: Result<(), String>,
    next: LoadState,
    action: LoadAction,
) -> bool {
    match built {
        Ok(()) => match crate::health::rpc::url_join(base@, "/json/"@) {
            Ok(joined) => {
                &&& next matches LoadState::CredentialsSending { url }
                &&& url@ == joined
                &&& action matches LoadAction::Send { url: to, body, warning }
                &&& to == url
                &&& warning is None
                &&& crate::health::rpc::is_partition_request(
                    body,
                    cfg.cluster_manager_partition@,
                )
            },
            Err(error) => fails_with(next, action, "Invalid cluster manager URL: "@ + error),
        },
        Err(error) => fails_with(
            next,
            action,
            "Cluster manager HTTP client build failed: "@ + error@,
        ),
    }
}

/// The description of the partition is read, if there is one; otherwise the credentials are those
/// of the configuration.
pub open spec fn is_credentials_sent_step(
    cfg: ClusterEndpointSourceConfig,
    url: String,
    sent: Result<HttpStatus, String>,
    next: LoadState,
    action: LoadAction,
) -> bool {
    let complaint = crate::health::rpc::complaint(ManagerCall::Partition);
    match sent {
        Ok(status) => if status.is_success_code() {
            next == (LoadState::CredentialsReading { url }) && action == LoadAction::ReadBody
        } else {
            asks_for_devices(
                url,
                cfg.default_username,
                cfg.default_password,
                Some(
                    complaint + " returned HTTP "@ + crate::health::rpc::status_text(
                        status.spec_code(),
                    ),
                ),
                next,
                action,
            )
        },
        Err(error) => asks_for_devices(
            url,
            cfg.default_username,
            cfg.default_password,
            Some(complaint + " failed: "@ + error@),
            next,
            action,
        ),
    }
}

/// The credentials are those of the partition, as far as it tells them.
pub open spec fn is_credentials_read_step(
    cfg: ClusterEndpointSourceConfig,
    url: String,
    body: Result<Json, String>,
    next: LoadState,
    action: LoadAction,
) -> bool {
    match body {
        Ok(value) => asks_for_devices(
            url,
            crate::health::cluster::bmc_username(Some(value), cfg),
            crate::health::cluster::bmc_password(Some(value), cfg),
            None,
            next,
            action,
        ),
        Err(error) => asks_for_devices(
            url,
            cfg.default_username,
            cfg.default_password,
            Some(
                crate::health::rpc::complaint(ManagerCall::Partition) + " parse failed: "@ + error@,
            ),
            next,
            action,
        ),
    }
}

/// The answer with the devices is read, if there is one.
pub open spec fn is_devices_sent_step(
    username: String,
    password: Option<String>,
    sent: Result<HttpStatus, String>,
    next: LoadState,
    action: LoadAction,
) -> bool {
    let complaint = crate::health::rpc::complaint(ManagerCall::Devices);
    match sent {
        Ok(status) => if status.is_success_code() {
            next == (LoadState::DevicesReading { username, password }) && action
                == LoadAction::ReadBody
        } else {
            fails_with(
                next,
                action,
                complaint + " returned HTTP "@ + crate::health::rpc::status_text(
                    status.spec_code(),
                ),
            )
        },
        Err(error) => fails_with(next, action, complaint + " failed: "@ + error@),
    }
}

/// The texts are those of the devices' addresses, in their order.
pub open spec fn are_address_texts(texts: Seq<Option<String>>, devices: Seq<DeviceEntry>) -> bool {
    &&& texts.len() == devices.len()
    &&& forall|i: int| 0 <= i < texts.len() ==> #[trigger] texts[i] == devices[i].bmc_ip
}

/// The addresses of the devices in the answer have to be resolved.
pub open spec fn is_devices_read_step(
    username: String,
    password: Option<String>,
    body: Result<Json, String>,
    next: LoadState,
    action: LoadAction,
) -> bool {
    match body {
        Ok(raw) => match crate::health::cluster::device_items(raw) {
            Some(items) => {
                &&& next matches LoadState::Resolving { devices, username: u, password: p }
                &&& u == username
                &&& p == password
                &&& devices@.len() == items.len()
                &&& forall|i: int|
                    0 <= i < items.len() ==> #[trigger] devices@[i]
                        == crate::health::cluster::device_entry(items[i])
                &&& action matches LoadAction::ResolveAddresses(texts)
                &&& are_address_texts(texts@, devices@)
            },
            None => fails_with(
                next,
                action,
                "Cluster manager getDevices response has no recognized shape; probe /api on head node and update extract_manager_devices in cluster.rs"@,
            ),
        },
        Err(error) => fails_with(
            next,
            action,
            crate::health::rpc::complaint(ManagerCall::Devices) + " parse failed: "@ + error@,
        ),
    }
}

/// The load ends with the endpoints of the devices that have an address, if there are any.
pub open spec fn is_resolved_step(
    cfg: ClusterEndpointSourceConfig,
    devices: Seq<DeviceEntry>,
    username: String,
    password: Option<String>,
    addresses: Seq<Option<IpAddr>>,
    next: LoadState,
    action: LoadAction,
) -> bool {
    exists|extraction: Result<Vec<ClusterNode>, HealthError>|
        {
            &&& #[trigger] crate::health::cluster::is_extraction(
                devices,
                addresses,
                username,
                password,
                extraction,
            )
            &&& match extraction {
                Ok(nodes) => ends_with(cfg, nodes@, next, action),
                Err(error) => next == LoadState::Finished && action == LoadAction::Finish(
                    Err(error),
                ),
            }
        }
}

/// From `state`, the event leads to the state `next`, with `action` to be done.
pub open spec fn is_load_step(
    cfg: ClusterEndpointSourceConfig,
    state: LoadState,
    event: LoadEvent,
    next: LoadState,
    action: LoadAction,
) -> bool {
    match (state, event) {
        (LoadState::Start, LoadEvent::Begin) => is_beginning(cfg, next, action),
        (LoadState::BuildingHttp { base }, LoadEvent::HttpBuilt(built)) => is_built_step(
            cfg,
            base,
            built,
            next,
            action,
        ),
        (LoadState::CredentialsSending { url }, LoadEvent::Sent(sent)) => is_credentials_sent_step(
            cfg,
            url,
            sent,
            next,
            action,
        ),
        (
            LoadState::CredentialsReading { url },
            LoadEvent::BodyRead(body),
        ) => is_credentials_read_step(cfg, url, body, next, action),
        (
            LoadState::DevicesSending { username, password },
            LoadEvent::Sent(sent),
        ) => is_devices_sent_step(username, password, sent, next, action),
        (
            LoadState::DevicesReading { username, password },
            LoadEvent::BodyRead(body),
        ) => is_devices_read_step(username, password, body, next, action),
        (
            LoadState::Resolving { devices, username, password },
            LoadEvent::Resolved(addresses),
        ) => is_resolved_step(cfg, devices@, username, password, addresses@, next, action),
        (LoadState::ReadingFile, LoadEvent::FileRead(read)) => match read {
            Ok(contents) => next == LoadState::ParsingFile && action
                == (LoadAction::ParseInventory { contents }),
            Err(error) => fails_with(
                next,
                action,
                "Failed to read cluster inventory "@ + cfg.inventory_path@ + ": "@ + error@,
            ),
        },
        (LoadState::ParsingFile, LoadEvent::Parsed(parsed)) => match parsed {
            Ok(inventory) => ends_with(cfg, inventory.cluster_nodes(), next, action),
            Err(error) => next == LoadState::Finished && action == LoadAction::Finish(
                Err(HealthError::Json(error)),
            ),
        },
        _ => next == state && action == LoadAction::KeepWaiting,
    }
}

fn fail(error: HealthError) -> (r: (LoadState, LoadAction))
    ensures
        r == (LoadState::Finished, LoadAction::Finish(Err(error))),
{
    (LoadState::Finished, LoadAction::Finish(Err(error)))
}

fn ask_for_devices(
    url: String,
    username: String,
    password: Option<String>,
    warning: Option<HealthError>,
) -> (r: (LoadState, LoadAction))
    ensures
        r.0 == (LoadState::DevicesSending { username, password }),
        r.1 matches LoadAction::Send { url: to, body, warning: because } && to == url && because
            == warning && crate::health::rpc::is_devices_request(body),
{
    (
        LoadState::DevicesSending { username, password },
        LoadAction::Send { url, body: devices_request(), warning },
    )
}

fn address_texts(devices: &Vec<DeviceEntry>) -> (r: Vec<Option<String>>)
    ensures
        are_address_texts(r@, devices@),
{
    let mut texts: Vec<Option<String>> = Vec::new();
    let mut i: usize = 0;
    while i < devices.len()
        invariant
            i <= devices@.len(),
            texts@.len() == i,
            forall|j: int| 0 <= j < i ==> #[trigger] texts@[j] == devices@[j].bmc_ip,
        decreases devices@.len() - i,
    {
        texts.push(devices[i].bmc_ip.clone());
        i += 1;
    }
    texts
}

impl ClusterEndpointSource {
    pub fn from_config(
        cfg: ClusterEndpointSourceConfig,
        proxy_url: Option<&str>,
        cache_size: usize,
    ) -> (r: ClusterEndpointSource)
        ensures
            r.cfg == cfg,
            r.proxy_url.is_some() == proxy_url.is_some(),
            proxy_url matches Some(url) ==> r.proxy_url->0@ == url@,
            r.cache_size == cache_size,
    {
        let proxy_url: Option<String> = match proxy_url {
            Some(url) => Some(url.to_owned()),
            None => None,
        };
        ClusterEndpointSource { cfg, proxy_url, cache_size }
    }

    fn begin(&self) -> (r: (LoadState, LoadAction))
        ensures
            is_beginning(self.cfg, r.0, r.1),
    {
        match &self.cfg.cluster_manager_url {
            Some(base) => (LoadState::BuildingHttp { base: base.clone() }, LoadAction::BuildHttp),
            None => (
                LoadState::ReadingFile,
                LoadAction::ReadFile { path: self.cfg.inventory_path.clone() },
            ),
        }
    }

    fn http_built(&self, base: String, built: Result<(), String>) -> (r: (LoadState, LoadAction))
        ensures
            is_built_step(self.cfg, base, built, r.0, r.1),
    {
        match built {
            Ok(()) => match manager_rpc_url(base.as_str()) {
                Ok(url) => {
                    let body = partition_request(self.cfg.cluster_manager_partition.as_str());
                    (
                        LoadState::CredentialsSending { url: url.clone() },
                        LoadAction::Send { url, body, warning: None },
                    )
                },
                Err(error) => fail(error),
            },
            Err(error) => fail(
                generic("Cluster manager HTTP client build failed: ", error.as_str()),
            ),
        }
    }

    fn credentials_sent(&self, url: String, sent: Result<HttpStatus, String>) -> (r: (
        LoadState,
        LoadAction,
    ))
        ensures
            is_credentials_sent_step(self.cfg, url, sent, r.0, r.1),
    {
        match rpc_sent(ManagerCall::Partition, sent) {
            Ok(()) => (LoadState::CredentialsReading { url }, LoadAction::ReadBody),
            Err(error) => {
                let (username, password) = manager_credentials(None, &self.cfg);
                ask_for_devices(url, username, password, Some(error))
            },
        }
    }

    fn credentials_read(&self, url: String, body: Result<Json, String>) -> (r: (
        LoadState,
        LoadAction,
    ))
        ensures
            is_credentials_read_step(self.cfg, url, body, r.0, r.1),
    {
        match rpc_body(ManagerCall::Partition, body) {
            Ok(raw) => {
                let (username, password) = manager_credentials(Some(&raw), &self.cfg);
                ask_for_devices(url, username, password, None)
            },
            Err(error) => {
                let (username, password) = manager_credentials(None, &self.cfg);
                ask_for_devices(url, username, password, Some(error))
            },
        }
    }

    fn devices_sent(
        &self,
        username: String,
        password: Option<String>,
        sent: Result<HttpStatus, String>,
    ) -> (r: (LoadState, LoadAction))
        ensures
            is_devices_sent_step(username, password, sent, r.0, r.1),
    {
        match rpc_sent(ManagerCall::Devices, sent) {
            Ok(()) => (LoadState::DevicesReading { username, password }, LoadAction::ReadBody),
            Err(error) => fail(error),
        }
    }

    fn devices_read(
        &self,
        username: String,
        password: Option<String>,
        body: Result<Json, String>,
    ) -> (r: (LoadState, LoadAction))
        ensures
            is_devices_read_step(username, password, body, r.0, r.1),
    {
        match rpc_body(ManagerCall::Devices, body) {
            Ok(raw) => match read_manager_devices(&raw) {
                Ok(devices) => {
                    let texts = address_texts(&devices);
                    (
                        LoadState::Resolving { devices, username, password },
                        LoadAction::ResolveAddresses(texts),
                    )
                },
                Err(error) => fail(error),
            },
            Err(error) => fail(error),
        }
    }

    fn finish(&self, nodes: Vec<ClusterNode>) -> (r: (LoadState, LoadAction))
        ensures
            ends_with(self.cfg, nodes@, r.0, r.1),
    {
        let build = build_endpoints(nodes, self.cfg.port);
        (LoadState::Finished, LoadAction::Finish(Ok(build)))
    }

    fn resolved(
        &self,
        devices: Vec<DeviceEntry>,
        username: String,
        password: Option<String>,
        addresses: Vec<Option<IpAddr>>,
    ) -> (r: (LoadState, LoadAction))
        ensures
            is_resolved_step(self.cfg, devices@, username, password, addresses@, r.0, r.1),
    {
        let extraction = extract_manager_devices(devices, addresses, username, password);
        let ghost witness = extraction;
        assert(crate::health::cluster::is_extraction(
            devices@,
            addresses@,
            username,
            password,
            witness,
        ));
        match extraction {
            Ok(nodes) => self.finish(nodes),
            Err(error) => fail(error),
        }
    }

    fn file_read(&self, read: Result<String, String>) -> (r: (LoadState, LoadAction))
        ensures
            is_load_step(self.cfg, LoadState::ReadingFile, LoadEvent::FileRead(read), r.0, r.1),
    {
        match read {
            Ok(contents) => (LoadState::ParsingFile, LoadAction::ParseInventory { contents }),
            Err(error) => {
                let mut text: String = "Failed to read cluster inventory ".to_owned();
                text.append(self.cfg.inventory_path.as_str());
                text.append(": ");
                fail(generic(text.as_str(), error.as_str()))
            },
        }
    }

    /// One step of a load, which begins in [`LoadState::Start`].
    pub fn load_step(&self, state: LoadState, event: LoadEvent) -> (r: (LoadState, LoadAction))
        ensures
            is_load_step(self.cfg, state, event, r.0, r.1),
    {
        match (state, event) {
            (LoadState::Start, LoadEvent::Begin) => self.begin(),
            (LoadState::BuildingHttp { base }, LoadEvent::HttpBuilt(built)) => self.http_built(
                base,
                built,
            ),
            (LoadState::CredentialsSending { url }, LoadEvent::Sent(sent)) => self.credentials_sent(
                url,
                sent,
            ),
            (
                LoadState::CredentialsReading { url },
                LoadEvent::BodyRead(body),
            ) => self.credentials_read(url, body),
            (
                LoadState::DevicesSending { username, password },
                LoadEvent::Sent(sent),
            ) => self.devices_sent(username, password, sent),
            (
                LoadState::DevicesReading { username, password },
                LoadEvent::BodyRead(body),
            ) => self.devices_read(username, password, body),
            (
                LoadState::Resolving { devices, username, password },
                LoadEvent::Resolved(addresses),
            ) => self.resolved(devices, username, password, addresses),
            (LoadState::ReadingFile, LoadEvent::FileRead(read)) => self.file_read(read),
            (LoadState::ParsingFile, LoadEvent::Parsed(parsed)) => match parsed {
                Ok(inventory) => self.finish(inventory.into_cluster_nodes()),
                Err(error) => fail(HealthError::Json(error)),
            },
            (state, _) => (state, LoadAction::KeepWaiting),
        }
    }
}

} // verus!
