//! The JSON RPC calls of the cluster manager.
//!
//! The manager answers calls at `/json/`. Two are made: one for the devices of the cluster, and
//! one for the BMC credentials of a partition.

use crate::health::error::{generic, HealthError};
use crate::health::json::Json;
use vstd::prelude::*;

verus! {

/// Lists the devices.
pub const MANAGER_DEVICE_CALL: &'static str = "getDevices";

/// Describes a partition.
pub const MANAGER_PARTITION_CALL: &'static str = "getPartition";

/// A call of a service of the manager.
#[derive(Debug, Clone, Copy)]
pub enum ManagerCall {
    Devices,
    Partition,
}

impl ManagerCall {
    pub open spec fn spec_service(self) -> Seq<char> {
        match self {
            ManagerCall::Devices => "cmdevice"@,
            ManagerCall::Partition => "cmpart"@,
        }
    }

    pub open spec fn spec_call(self) -> Seq<char> {
        match self {
            ManagerCall::Devices => MANAGER_DEVICE_CALL@,
            ManagerCall::Partition => MANAGER_PARTITION_CALL@,
        }
    }

    /// The service that the call belongs to.
    pub fn service(&self) -> (r: &'static str)
        ensures
            r@ == self.spec_service(),
    {
        match self {
            ManagerCall::Devices => "cmdevice",
            ManagerCall::Partition => "cmpart",
        }
    }

    /// The name of the call within its service.
    pub fn call(&self) -> (r: &'static str)
        ensures
            r@ == self.spec_call(),
    {
        match self {
            ManagerCall::Devices => MANAGER_DEVICE_CALL,
            ManagerCall::Partition => MANAGER_PARTITION_CALL,
        }
    }
}

/// What every complaint about a call begins with.
pub open spec fn complaint(call: ManagerCall) -> Seq<char> {
    "cluster manager RPC "@ + call.spec_service() + "."@ + call.spec_call()
}

fn complaint_text(call: ManagerCall) -> (r: String)
    ensures
        r@ == complaint(call),
{
    let mut text: String = "cluster manager RPC ".to_owned();
    text.append(call.service());
    text.append(".");
    text.append(call.call());
    text
}

/// The entry is a string under this key.
pub open spec fn is_string_entry(entry: (String, Json), key: Seq<char>, text: Seq<char>) -> bool {
    &&& entry.0@ == key
    &&& entry.1 matches Json::Str(value)
    &&& value@ == text
}

/// The body of a request: the service, the call and its argument.
pub open spec fn is_request(body: Json, call: ManagerCall, arg: Json) -> bool {
    &&& body matches Json::Object(entries)
    &&& entries@.len() == 3
    &&& is_string_entry(entries@[0], "service"@, call.spec_service())
    &&& is_string_entry(entries@[1], "call"@, call.spec_call())
    &&& entries@[2].0@ == "arg"@
    &&& entries@[2].1 == arg
}

/// The body of a request: the service, the call and its argument.
pub fn rpc_request(call: ManagerCall, arg: Json) -> (r: Json)
    ensures
        is_request(r, call, arg),
{
    let mut entries: Vec<(String, Json)> = Vec::new();
    entries.push(("service".to_owned(), Json::Str(call.service().to_owned())));
    entries.push(("call".to_owned(), Json::Str(call.call().to_owned())));
    entries.push(("arg".to_owned(), arg));
    Json::Object(entries)
}

/// A partition is asked for by its name.
pub open spec fn is_partition_request(body: Json, partition: Seq<char>) -> bool {
    exists|arg: Json|
        {
            &&& #[trigger] is_request(body, ManagerCall::Partition, arg)
            &&& arg matches Json::Str(name)
            &&& name@ == partition
        }
}

/// The request for a partition.
pub fn partition_request(partition: &str) -> (r: Json)
    ensures
        is_partition_request(r, partition@),
{
    let arg = Json::Str(partition.to_owned());
    let ghost expected = arg;
    let body = rpc_request(ManagerCall::Partition, arg);
    assert(is_request(body, ManagerCall::Partition, expected));
    body
}

/// Devices are asked for by their type: only physical nodes are wanted.
pub open spec fn is_devices_request(body: Json) -> bool {
    exists|arg: Json|
        {
            &&& #[trigger] is_request(body, ManagerCall::Devices, arg)
            &&& arg matches Json::Object(entries)
            &&& entries@.len() == 1
            &&& is_string_entry(entries@[0], "type"@, "PhysicalNode"@)
        }
}

/// The request for the devices.
pub fn devices_request() -> (r: Json)
    ensures
        is_devices_request(r),
{
    let mut entries: Vec<(String, Json)> = Vec::new();
    entries.push(("type".to_owned(), Json::Str("PhysicalNode".to_owned())));
    let arg = Json::Object(entries);
    let ghost expected = arg;
    let body = rpc_request(ManagerCall::Devices, arg);
    assert(is_request(body, ManagerCall::Devices, expected));
    body
}

/// The status of an HTTP response: a number of three digits.
#[derive(Debug, Clone, Copy, PartialEq, Eq)]
pub struct HttpStatus {
    code: u16,
}

/// What a status is called: its number and its reason.
pub uninterp spec fn status_text(code: u16) -> Seq<char>;

/// `reqwest::StatusCode::from_u16`, which takes the numbers of three digits, and the `Display` of
/// `reqwest::StatusCode`. The reasons come from a table in that crate.
#[verifier::external_body]
fn status_display(code: u16) -> (r: Option<String>)
    ensures
        r is Some <==> 100 <= code <= 999,
        r matches Some(text) ==> text@ == status_text(code),
{
    match reqwest::StatusCode::from_u16(code) {
        Ok(status) => Some(status.to_string()),
        Err(_) => None,
    }
}

impl HttpStatus {
    /// The number of the status.
    pub closed spec fn spec_code(self) -> u16 {
        self.code
    }

    #[verifier::type_invariant]
    spec fn has_three_digits(self) -> bool {
        100 <= self.code <= 999
    }

    /// The status with this number, if there is one.
    pub fn new(code: u16) -> (r: Option<HttpStatus>)
        ensures
            r is Some <==> 100 <= code <= 999,
            r matches Some(status) ==> status.spec_code() == code,
    {
        if 100 <= code && code <= 999 {
            Some(HttpStatus { code })
        } else {
            None
        }
    }

    /// The request was received, understood and accepted.
    pub open spec fn is_success_code(self) -> bool {
        200 <= self.spec_code() <= 299
    }

    /// Was the request received, understood and accepted?
    pub fn is_success(&self) -> (r: bool)
        ensures
            r == self.is_success_code(),
    {
        200 <= self.code && self.code <= 299
    }

    /// The number and the reason of the status.
    pub fn to_text(&self) -> (r: String)
        ensures
            r@ == status_text(self.spec_code()),
    {
        proof {
            use_type_invariant(self);
        }
        match status_display(self.code) {
            Some(text) => text,
            None => String::new(),
        }
    }
}

/// What sending a request came to: an error of its own, or a status that is no success, is an
/// error.
pub fn rpc_sent(call: ManagerCall, sent: Result<HttpStatus, String>) -> (r: Result<
    (),
    HealthError,
>)
    ensures
        match sent {
            Ok(status) => if status.is_success_code() {
                r is Ok
            } else {
                r is Err && r->Err_0.says(
                    complaint(call) + " returned HTTP "@ + status_text(status.spec_code()),
                )
            },
            Err(error) => r is Err && r->Err_0.says(complaint(call) + " failed: "@ + error@),
        },
{
    match sent {
        Ok(status) => {
            if status.is_success() {
                Ok(())
            } else {
                let mut text: String = complaint_text(call);
                text.append(" returned HTTP ");
                Err(generic(text.as_str(), status.to_text().as_str()))
            }
        },
        Err(error) => {
            let mut text: String = complaint_text(call);
            text.append(" failed: ");
            Err(generic(text.as_str(), error.as_str()))
        },
    }
}

/// What reading the body of a response came to.
pub fn rpc_body(call: ManagerCall, body: Result<Json, String>) -> (r: Result<Json, HealthError>)
    ensures
        match body {
            Ok(value) => r == Ok::<Json, HealthError>(value),
            Err(error) => r is Err && r->Err_0.says(complaint(call) + " parse failed: "@ + error@),
        },
{
    match body {
        Ok(value) => Ok(value),
        Err(error) => {
            let mut text: String = complaint_text(call);
            text.append(" parse failed: ");
            Err(generic(text.as_str(), error.as_str()))
        },
    }
}

/// A reference, resolved against the URL `base`, or why it cannot be.
pub uninterp spec fn url_join(base: Seq<char>, reference: Seq<char>) -> Result<
    Seq<char>,
    Seq<char>,
>;

/// `url::Url::join` on the URL that `base` is (`url::Url::parse`), both URLs and the
/// `url::ParseError` as their texts. A base that is no URL is answered with the error of parsing
/// it.
#[verifier::external_body]
fn join(base: &str, reference: &str) -> (r: Result<String, String>)
    ensures
        match r {
            Ok(url) => url_join(base@, reference@) == Ok::<Seq<char>, Seq<char>>(url@),
            Err(error) => url_join(base@, reference@) == Err::<Seq<char>, Seq<char>>(error@),
        },
{
    match url::Url::parse(base) {
        Ok(url) => match url.join(reference) {
            Ok(joined) => Ok(joined.to_string()),
            Err(error) => Err(error.to_string()),
        },
        Err(error) => Err(error.to_string()),
    }
}

/// Where calls are sent, given what became of the reference to it.
pub fn json_rpc_url(joined: Result<String, String>) -> (r: Result<String, HealthError>)
    ensures
        match joined {
            Ok(url) => r == Ok::<String, HealthError>(url),
            Err(error) => r is Err && r->Err_0.says("Invalid cluster manager URL: "@ + error@),
        },
{
    match joined {
        Ok(url) => Ok(url),
        Err(error) => Err(generic("Invalid cluster manager URL: ", error.as_str())),
    }
}

/// `r` is where the calls to the manager at `base` are sent.
pub open spec fn is_rpc_url(base: Seq<char>, r: Result<String, HealthError>) -> bool {
    match url_join(base, "/json/"@) {
        Ok(url) => r is Ok && r->Ok_0@ == url,
        Err(error) => r is Err && r->Err_0.says("Invalid cluster manager URL: "@ + error),
    }
}

/// Where calls to the manager at `base` are sent.
pub fn manager_rpc_url(base: &str) -> (r: Result<String, HealthError>)
    ensures
        is_rpc_url(base@, r),
{
    json_rpc_url(join(base, "/json/"))
}

} // verus!
