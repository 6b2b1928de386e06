//! What is sent to the cluster manager, and what its responses come to, told by the requests and
//! responses themselves.

use crate::health::error::HealthError;
use crate::health::json::Json;
use crate::health::rpc::{HttpStatus, ManagerCall};
use vstd::prelude::*;

verus! {

/// A string with these characters stands under this key.
pub open spec fn has_text(object: Json, key: Seq<char>, text: Seq<char>) -> bool {
    exists|value: String|
        value@ == text && #[trigger] crate::health::cluster_laws::holds(
            object,
            key,
            Json::Str(value),
        )
}

/// The service that a call belongs to.
pub open spec fn service_name(call: ManagerCall) -> Seq<char> {
    match call {
        ManagerCall::Devices => "cmdevice"@,
        ManagerCall::Partition => "cmpart"@,
    }
}

/// The name of a call.
pub open spec fn call_name(call: ManagerCall) -> Seq<char> {
    match call {
        ManagerCall::Devices => "getDevices"@,
        ManagerCall::Partition => "getPartition"@,
    }
}

/// The request names the service, the call and the argument, and nothing else.
pub open spec fn is_request_for(body: Json, call: ManagerCall, arg: Json) -> bool {
    &&& body is Object
    &&& body->Object_0@.len() == 3
    &&& has_text(body, "service"@, service_name(call))
    &&& has_text(body, "call"@, call_name(call))
    &&& crate::health::cluster_laws::holds(body, "arg"@, arg)
}

proof fn lemma_request(body: Json, call: ManagerCall, arg: Json)
    requires
        crate::health::rpc::is_request(body, call, arg),
    ensures
        is_request_for(body, call, arg),
{
    reveal_strlit("service");
    reveal_strlit("call");
    reveal_strlit("arg");
    assert("service"@.len() == 7);
    assert("call"@.len() == 4);
    assert("arg"@.len() == 3);
    let entries = body->Object_0@;
    assert(entries[0].0@ == "service"@);
    assert(entries[1].0@ == "call"@);
    assert(entries[2].0@ == "arg"@);
    assert(crate::health::cluster_laws::holds(body, "service"@, entries[0].1));
    assert(crate::health::cluster_laws::holds(body, "call"@, entries[1].1));
    assert(crate::health::cluster_laws::holds(body, "arg"@, entries[2].1));
    assert(entries[0].1 == Json::Str(entries[0].1->Str_0));
    assert(entries[1].1 == Json::Str(entries[1].1->Str_0));
}

/// The request for a partition has the partition's name for its argument.
pub open spec fn is_request_for_partition(body: Json, partition: Seq<char>) -> bool {
    &&& body is Object
    &&& body->Object_0@.len() == 3
    &&& has_text(body, "service"@, "cmpart"@)
    &&& has_text(body, "call"@, "getPartition"@)
    &&& has_text(body, "arg"@, partition)
}

/// The request for the devices asks for physical nodes.
pub open spec fn is_request_for_devices(body: Json) -> bool {
    &&& body is Object
    &&& body->Object_0@.len() == 3
    &&& has_text(body, "service"@, "cmdevice"@)
    &&& has_text(body, "call"@, "getDevices"@)
    &&& exists|arg: Json|
        {
            &&& #[trigger] crate::health::cluster_laws::holds(body, "arg"@, arg)
            &&& arg is Object
            &&& arg->Object_0@.len() == 1
            &&& has_text(arg, "type"@, "PhysicalNode"@)
        }
}

pub(crate) proof fn lemma_partition_request(body: Json, partition: Seq<char>)
    requires
        crate::health::rpc::is_partition_request(body, partition),
    ensures
        is_request_for_partition(body, partition),
{
    let arg = choose|arg: Json|
        {
            &&& #[trigger] crate::health::rpc::is_request(body, ManagerCall::Partition, arg)
            &&& arg matches Json::Str(name)
            &&& name@ == partition
        };
    lemma_request(body, ManagerCall::Partition, arg);
    assert(arg == Json::Str(arg->Str_0));
}

pub(crate) proof fn lemma_devices_request(body: Json)
    requires
        crate::health::rpc::is_devices_request(body),
    ensures
        is_request_for_devices(body),
{
    let arg = choose|arg: Json|
        {
            &&& #[trigger] crate::health::rpc::is_request(body, ManagerCall::Devices, arg)
            &&& arg matches Json::Object(entries)
            &&& entries@.len() == 1
            &&& crate::health::rpc::is_string_entry(entries@[0], "type"@, "PhysicalNode"@)
        };
    lemma_request(body, ManagerCall::Devices, arg);
    let entries = arg->Object_0@;
    assert(entries[0].0@ == "type"@);
    assert(crate::health::cluster_laws::holds(arg, "type"@, entries[0].1));
    assert(entries[0].1 == Json::Str(entries[0].1->Str_0));
}

/// Requests name service, call and argument: any argument as it was given, a partition by its
/// name, and devices by the type of physical nodes.
pub proof fn law_requests_say_what_is_wanted(
    call: ManagerCall,
    arg: Json,
    any: Json,
    name: &str,
    partition: Json,
    devices: Json,
    service: &'static str,
    call_text: &'static str,
)
    requires
        call_ensures(crate::health::rpc::rpc_request, (call, arg), any),
        call_ensures(crate::health::rpc::partition_request, (name,), partition),
        call_ensures(crate::health::rpc::devices_request, (), devices),
        call_ensures(ManagerCall::service, (&call,), service),
        call_ensures(ManagerCall::call, (&call,), call_text),
    ensures
        is_request_for(any, call, arg),
        is_request_for_partition(partition, name@),
        is_request_for_devices(devices),
        service@ == service_name(call),
        call_text@ == call_name(call),
{
    lemma_request(any, call, arg);
    lemma_partition_request(partition, name@);
    lemma_devices_request(devices);
}

/// What a complaint about a call begins with.
pub open spec fn call_complaint(call: ManagerCall) -> Seq<char> {
    "cluster manager RPC "@ + service_name(call) + "."@ + call_name(call)
}

/// A status can be had for the numbers of three digits; a response is accepted exactly when its
/// number is between 200 and 299, and any other is told by its number.
pub proof fn law_a_response_is_accepted_by_its_number(
    call: ManagerCall,
    code: u16,
    status: Option<HttpStatus>,
    success: bool,
    text: String,
    r: Result<(), HealthError>,
)
    requires
        call_ensures(HttpStatus::new, (code,), status),
        status is Some ==> call_ensures(HttpStatus::is_success, (&status->0,), success),
        status is Some ==> call_ensures(HttpStatus::to_text, (&status->0,), text),
        status is Some ==> call_ensures(
            crate::health::rpc::rpc_sent,
            (call, Ok::<HttpStatus, String>(status->0)),
            r,
        ),
    ensures
        status is Some <==> 100 <= code < 1000,
        status is Some ==> {
            &&& success <==> 200 <= code < 300
            &&& text@ == crate::health::rpc::status_text(code)
            &&& r is Ok <==> 200 <= code < 300
            &&& r is Err ==> crate::health::cluster_laws::is_message(
                r->Err_0,
                call_complaint(call) + " returned HTTP "@ + crate::health::rpc::status_text(code),
            )
        },
{
}

/// A request that could not be sent is an error that tells why; so is a body that could not be
/// read, and a body that could is handed on as it is.
pub proof fn law_failures_of_a_call_are_told(
    call: ManagerCall,
    error: String,
    not_sent: Result<(), HealthError>,
    not_read: Result<Json, HealthError>,
    body: Json,
    read: Result<Json, HealthError>,
)
    requires
        call_ensures(
            crate::health::rpc::rpc_sent,
            (call, Err::<HttpStatus, String>(error)),
            not_sent,
        ),
        call_ensures(crate::health::rpc::rpc_body, (call, Err::<Json, String>(error)), not_read),
        call_ensures(crate::health::rpc::rpc_body, (call, Ok::<Json, String>(body)), read),
    ensures
        not_sent is Err && crate::health::cluster_laws::is_message(
            not_sent->Err_0,
            call_complaint(call) + " failed: "@ + error@,
        ),
        not_read is Err && crate::health::cluster_laws::is_message(
            not_read->Err_0,
            call_complaint(call) + " parse failed: "@ + error@,
        ),
        read == Ok::<Json, HealthError>(body),
{
}

/// Calls go to `/json/`, resolved against the manager's URL; where that cannot be, it is told why.
pub proof fn law_calls_go_to_json(
    base: &str,
    r: Result<String, HealthError>,
    joined: String,
    taken: Result<String, HealthError>,
    error: String,
    refused: Result<String, HealthError>,
)
    requires
        call_ensures(crate::health::rpc::manager_rpc_url, (base,), r),
        call_ensures(crate::health::rpc::json_rpc_url, (Ok::<String, String>(joined),), taken),
        call_ensures(crate::health::rpc::json_rpc_url, (Err::<String, String>(error),), refused),
    ensures
        crate::health::rpc::url_join(base@, "/json/"@) matches Ok(url) ==> r is Ok && r->Ok_0@
            == url,
        crate::health::rpc::url_join(base@, "/json/"@) matches Err(why) ==> r is Err
            && crate::health::cluster_laws::is_message(
            r->Err_0,
            "Invalid cluster manager URL: "@ + why,
        ),
        taken == Ok::<String, HealthError>(joined),
        refused is Err && crate::health::cluster_laws::is_message(
            refused->Err_0,
            "Invalid cluster manager URL: "@ + error@,
        ),
{
}

} // verus!
