//! What is read of the cluster manager's answers, told by the entries of the answers themselves.

use crate::health::address::IpAddr;
use crate::health::cluster::DeviceEntry;
use crate::health::config::ClusterEndpointSourceConfig;
use crate::health::error::HealthError;
use crate::health::inventory::ClusterNode;
use crate::health::json::Json;
use vstd::prelude::*;

verus! {

/// The value is an object, and the first of its entries with this key has this value.
pub open spec fn holds(object: Json, key: Seq<char>, value: Json) -> bool {
    &&& object matches Json::Object(entries)
    &&& exists|i: int|
        {
            &&& 0 <= i < entries@.len()
            &&& (#[trigger] entries@[i]).0@ == key
            &&& entries@[i].1 == value
            &&& forall|j: int| 0 <= j < i ==> (#[trigger] entries@[j]).0@ != key
        }
}

/// The value is no object, or none of its entries has this key.
pub open spec fn lacks(object: Json, key: Seq<char>) -> bool {
    object matches Json::Object(entries) ==> forall|i: int|
        0 <= i < entries@.len() ==> (#[trigger] entries@[i]).0@ != key
}

/// The value stands under a path of two keys.
pub open spec fn holds2(object: Json, key1: Seq<char>, key2: Seq<char>, value: Json) -> bool {
    exists|inner: Json| #[trigger] holds(object, key1, inner) && holds(inner, key2, value)
}

/// Nothing stands under a path of two keys.
pub open spec fn lacks2(object: Json, key1: Seq<char>, key2: Seq<char>) -> bool {
    lacks(object, key1) || exists|inner: Json| #[trigger]
        holds(object, key1, inner) && lacks(inner, key2)
}

/// The value stands under a path of three keys.
pub open spec fn holds3(
    object: Json,
    key1: Seq<char>,
    key2: Seq<char>,
    key3: Seq<char>,
    value: Json,
) -> bool {
    exists|inner: Json| #[trigger] holds2(object, key1, key2, inner) && holds(inner, key3, value)
}

/// Nothing stands under a path of three keys.
pub open spec fn lacks3(object: Json, key1: Seq<char>, key2: Seq<char>, key3: Seq<char>) -> bool {
    lacks2(object, key1, key2) || exists|inner: Json| #[trigger]
        holds2(object, key1, key2, inner) && lacks(inner, key3)
}

proof fn lemma_entry(entries: Seq<(String, Json)>, key: Seq<char>)
    ensures
        match crate::health::json::entry(entries, key) {
            Some(value) => exists|i: int|
                {
                    &&& 0 <= i < entries.len()
                    &&& (#[trigger] entries[i]).0@ == key
                    &&& entries[i].1 == value
                    &&& forall|j: int| 0 <= j < i ==> (#[trigger] entries[j]).0@ != key
                },
            None => forall|i: int| 0 <= i < entries.len() ==> (#[trigger] entries[i]).0@ != key,
        },
    decreases entries.len(),
{
    if entries.len() > 0 && entries[0].0@ != key {
        let rest = entries.drop_first();
        lemma_entry(rest, key);
        match crate::health::json::entry(entries, key) {
            Some(value) => {
                let i = choose|i: int|
                    {
                        &&& 0 <= i < rest.len()
                        &&& (#[trigger] rest[i]).0@ == key
                        &&& rest[i].1 == value
                        &&& forall|j: int| 0 <= j < i ==> (#[trigger] rest[j]).0@ != key
                    };
                assert(entries[i + 1] == rest[i]);
                assert forall|j: int| 0 <= j < i + 1 implies (#[trigger] entries[j]).0@ != key by {
                    if j > 0 {
                        assert(entries[j] == rest[j - 1]);
                    }
                }
            },
            None => {
                assert forall|i: int| 0 <= i < entries.len() implies (#[trigger] entries[i]).0@
                    != key by {
                    if i > 0 {
                        assert(entries[i] == rest[i - 1]);
                    }
                }
            },
        }
    } else if entries.len() > 0 {
        assert(entries[0].0@ == key);
    }
}

proof fn lemma_field(object: Json, key: Seq<char>)
    ensures
        object.field(key) is None <==> lacks(object, key),
        forall|value: Json|
            object.field(key) == Some(value) <==> #[trigger] holds(object, key, value),
{
    if let Json::Object(entries) = object {
        lemma_entry(entries@, key);
        assert forall|value: Json|
            object.field(key) == Some(value) <==> #[trigger] holds(object, key, value) by {
            if holds(object, key, value) {
                let i = choose|i: int|
                    {
                        &&& 0 <= i < entries@.len()
                        &&& (#[trigger] entries@[i]).0@ == key
                        &&& entries@[i].1 == value
                        &&& forall|j: int| 0 <= j < i ==> (#[trigger] entries@[j]).0@ != key
                    };
                let found = object.field(key)->0;
                let k = choose|k: int|
                    {
                        &&& 0 <= k < entries@.len()
                        &&& (#[trigger] entries@[k]).0@ == key
                        &&& entries@[k].1 == found
                        &&& forall|j: int| 0 <= j < k ==> (#[trigger] entries@[j]).0@ != key
                    };
                assert(i == k);
            }
        }
    }
}

proof fn lemma_field2(object: Json, key1: Seq<char>, key2: Seq<char>)
    ensures
        object.field2(key1, key2) is None <==> lacks2(object, key1, key2),
        forall|value: Json|
            object.field2(key1, key2) == Some(value) <==> #[trigger] holds2(
                object,
                key1,
                key2,
                value,
            ),
{
    lemma_field(object, key1);
    if let Some(inner) = object.field(key1) {
        assert(holds(object, key1, inner));
        lemma_field(inner, key2);
    }
}

proof fn lemma_field3(object: Json, key1: Seq<char>, key2: Seq<char>, key3: Seq<char>)
    ensures
        object.field3(key1, key2, key3) is None <==> lacks3(object, key1, key2, key3),
        forall|value: Json|
            object.field3(key1, key2, key3) == Some(value) <==> #[trigger] holds3(
                object,
                key1,
                key2,
                key3,
                value,
            ),
{
    lemma_field2(object, key1, key2);
    if let Some(inner) = object.field2(key1, key2) {
        assert(holds2(object, key1, key2, inner));
        lemma_field(inner, key3);
    }
}

/// Looking a key up gives the value of the first entry with it, and nothing exactly when no entry
/// has it; so it is with paths of two and three keys.
pub proof fn law_a_lookup_gives_what_is_there(
    object: Json,
    key1: &str,
    key2: &str,
    key3: &str,
    one: Option<&Json>,
    two: Option<&Json>,
    three: Option<&Json>,
)
    requires
        call_ensures(Json::get, (&object, key1), one),
        call_ensures(Json::get2, (&object, key1, key2), two),
        call_ensures(Json::get3, (&object, key1, key2, key3), three),
    ensures
        one is None <==> lacks(object, key1@),
        one matches Some(value) ==> holds(object, key1@, *value),
        two is None <==> lacks2(object, key1@, key2@),
        two matches Some(value) ==> holds2(object, key1@, key2@, *value),
        three is None <==> lacks3(object, key1@, key2@, key3@),
        three matches Some(value) ==> holds3(object, key1@, key2@, key3@, *value),
{
    lemma_field(object, key1@);
    lemma_field2(object, key1@, key2@);
    lemma_field3(object, key1@, key2@, key3@);
}

/// A value is taken for a string exactly when it is one, with all its characters.
pub proof fn law_only_strings_are_strings(value: Json, some: Option<String>, none: Option<String>)
    requires
        call_ensures(crate::health::json::as_string, (Some(&value),), some),
        call_ensures(crate::health::json::as_string, (None,), none),
    ensures
        none is None,
        some is Some <==> value is Str,
        value matches Json::Str(text) ==> some->0@ == text@,
{
}

/// The BMC settings of a partition: at the top, else under `result`, else under `data`.
pub open spec fn has_settings(raw: Json, settings: Json) -> bool {
    ||| holds(raw, "bmcSettings"@, settings)
    ||| lacks(raw, "bmcSettings"@) && holds2(raw, "result"@, "bmcSettings"@, settings)
    ||| {
        &&& lacks(raw, "bmcSettings"@)
        &&& lacks2(raw, "result"@, "bmcSettings"@)
        &&& holds2(raw, "data"@, "bmcSettings"@, settings)
    }
}

/// There are BMC settings at none of the three places.
pub open spec fn has_no_settings(raw: Json) -> bool {
    &&& lacks(raw, "bmcSettings"@)
    &&& lacks2(raw, "result"@, "bmcSettings"@)
    &&& lacks2(raw, "data"@, "bmcSettings"@)
}

/// The value under the first of two keys that is there.
pub open spec fn holds_either(object: Json, key: Seq<char>, other: Seq<char>, value: Json) -> bool {
    holds(object, key, value) || (lacks(object, key) && holds(object, other, value))
}

/// A string stands under the first of two keys that is there.
pub open spec fn holds_text(object: Json, key: Seq<char>, other: Seq<char>, text: String) -> bool {
    holds_either(object, key, other, Json::Str(text))
}

/// No string stands under the first of two keys that is there.
pub open spec fn holds_no_text(object: Json, key: Seq<char>, other: Seq<char>) -> bool {
    ||| lacks(object, key) && lacks(object, other)
    ||| exists|value: Json| #[trigger] holds_either(object, key, other, value) && !(value is Str)
}

proof fn lemma_text(object: Json, key: Seq<char>, other: Seq<char>)
    ensures
        ({
            let found = crate::health::json::string_of(
                crate::health::json::first_of(object.field(key), object.field(other)),
            );
            &&& found is None <==> holds_no_text(object, key, other)
            &&& forall|text: String|
                found == Some(text) <==> #[trigger] holds_text(object, key, other, text)
        }),
{
    lemma_field(object, key);
    lemma_field(object, other);
    let value = crate::health::json::first_of(object.field(key), object.field(other));
    if let Some(value) = value {
        assert(holds_either(object, key, other, value));
    }
}

proof fn lemma_settings(raw: Json)
    ensures
        crate::health::cluster::bmc_settings(raw) is None <==> has_no_settings(raw),
        forall|settings: Json|
            crate::health::cluster::bmc_settings(raw) == Some(settings) <==> #[trigger]
            has_settings(raw, settings),
{
    lemma_field(raw, "bmcSettings"@);
    lemma_field2(raw, "result"@, "bmcSettings"@);
    lemma_field2(raw, "data"@, "bmcSettings"@);
}

/// The password of the partition is used whenever it tells one, whatever the configuration says;
/// else that of the configuration, whatever else the partition tells. Two configurations differ in
/// the second case only. The same holds of the user name.
pub proof fn law_the_partition_goes_before_the_configuration(
    raw: Json,
    settings: Json,
    cfg: ClusterEndpointSourceConfig,
    r: (String, Option<String>),
    other_cfg: ClusterEndpointSourceConfig,
    other: (String, Option<String>),
)
    requires
        call_ensures(crate::health::cluster::manager_credentials, (Some(&raw), &cfg), r),
        call_ensures(crate::health::cluster::manager_credentials, (Some(&raw), &other_cfg), other),
        has_settings(raw, settings),
    ensures
        forall|text: String| #[trigger]
            holds_text(settings, "password"@, "bmcPassword"@, text) ==> r.1 == Some(text) && other.1
                == Some(text),
        holds_no_text(settings, "password"@, "bmcPassword"@) ==> r.1 == cfg.default_password
            && other.1 == other_cfg.default_password,
        forall|text: String| #[trigger]
            holds_text(settings, "username"@, "userName"@, text) ==> r.0 == text && other.0
                == text,
        holds_no_text(settings, "username"@, "userName"@) ==> r.0 == cfg.default_username
            && other.0 == other_cfg.default_username,
        r.1 != other.1 ==> cfg.default_password != other_cfg.default_password,
        r.0 != other.0 ==> cfg.default_username != other_cfg.default_username,
{
    lemma_settings(raw);
    lemma_text(settings, "password"@, "bmcPassword"@);
    lemma_text(settings, "username"@, "userName"@);
}

pub(crate) proof fn lemma_credentials(
    raw: Json,
    settings: Json,
    cfg: ClusterEndpointSourceConfig,
)
    requires
        has_settings(raw, settings),
    ensures
        forall|text: String| #[trigger]
            holds_text(settings, "password"@, "bmcPassword"@, text)
                ==> crate::health::cluster::bmc_password(Some(raw), cfg) == Some(text),
        forall|text: String| #[trigger]
            holds_text(settings, "username"@, "userName"@, text)
                ==> crate::health::cluster::bmc_username(Some(raw), cfg) == text,
{
    lemma_settings(raw);
    lemma_text(settings, "password"@, "bmcPassword"@);
    lemma_text(settings, "username"@, "userName"@);
}

/// Without settings, or without an answer, both credentials are those of the configuration.
pub proof fn law_without_settings_the_configuration_is_used(
    raw: Json,
    cfg: ClusterEndpointSourceConfig,
    with_answer: (String, Option<String>),
    without: (String, Option<String>),
)
    requires
        call_ensures(crate::health::cluster::manager_credentials, (Some(&raw), &cfg), with_answer),
        call_ensures(crate::health::cluster::manager_credentials, (None, &cfg), without),
    ensures
        has_no_settings(raw) ==> with_answer == (cfg.default_username, cfg.default_password),
        without == (cfg.default_username, cfg.default_password),
{
    lemma_settings(raw);
}

/// The device list of an answer: the answer itself, or the first of the four fields that is an
/// array.
pub open spec fn has_list(raw: Json, items: Vec<Json>) -> bool {
    ||| raw == Json::Array(items)
    ||| {
        &&& !(raw is Array)
        &&& {
            ||| holds(raw, "result"@, Json::Array(items))
            ||| has_no_array(raw, "result"@) && {
                ||| holds(raw, "data"@, Json::Array(items))
                ||| has_no_array(raw, "data"@) && {
                    ||| holds(raw, "items"@, Json::Array(items))
                    ||| has_no_array(raw, "items"@) && holds(
                        raw,
                        "devices"@,
                        Json::Array(items),
                    )
                }
            }
        }
    }
}

/// No array stands under this key.
pub open spec fn has_no_array(raw: Json, key: Seq<char>) -> bool {
    lacks(raw, key) || exists|value: Json| #[trigger] holds(raw, key, value) && !(value is Array)
}

/// No list of devices is in the answer.
pub open spec fn has_no_list(raw: Json) -> bool {
    &&& !(raw is Array)
    &&& has_no_array(raw, "result"@)
    &&& has_no_array(raw, "data"@)
    &&& has_no_array(raw, "items"@)
    &&& has_no_array(raw, "devices"@)
}

proof fn lemma_array(raw: Json, key: Seq<char>)
    ensures
        crate::health::cluster::array_of(raw.field(key)) is None <==> has_no_array(raw, key),
        forall|items: Vec<Json>| #[trigger]
            holds(raw, key, Json::Array(items)) ==> crate::health::cluster::array_of(
                raw.field(key),
            ) == Some(items@) && !has_no_array(raw, key),
{
    lemma_field(raw, key);
    if let Some(value) = raw.field(key) {
        assert(holds(raw, key, value));
    }
}

pub(crate) proof fn lemma_list(raw: Json)
    ensures
        has_no_list(raw) <==> crate::health::cluster::device_items(raw) is None,
        forall|items: Vec<Json>| #[trigger]
            has_list(raw, items) ==> crate::health::cluster::device_items(raw) == Some(items@),
{
    lemma_array(raw, "result"@);
    lemma_array(raw, "data"@);
    lemma_array(raw, "items"@);
    lemma_array(raw, "devices"@);
    assert forall|items: Vec<Json>| #[trigger]
        has_list(raw, items) implies crate::health::cluster::device_items(raw) == Some(
        items@,
    ) by {
        assert(holds(raw, "result"@, Json::Array(items)) ==> crate::health::cluster::array_of(
            raw.field("result"@),
        ) == Some(items@));
    }
}

/// The address of a device stands first under one of four interfaces, then at one of three places
/// at the top. The first place that is there counts.
pub open spec fn has_address_value(item: Json, value: Json) -> bool {
    ||| holds3(item, "interfaces"@, "ipmi0"@, "ip"@, value)
    ||| lacks3(item, "interfaces"@, "ipmi0"@, "ip"@) && {
        ||| holds3(item, "interfaces"@, "bmc"@, "ip"@, value)
        ||| lacks3(item, "interfaces"@, "bmc"@, "ip"@) && {
            ||| holds3(item, "interfaces"@, "ilo0"@, "ip"@, value)
            ||| lacks3(item, "interfaces"@, "ilo0"@, "ip"@) && {
                ||| holds3(item, "interfaces"@, "rf0"@, "ip"@, value)
                ||| lacks3(item, "interfaces"@, "rf0"@, "ip"@) && {
                    ||| holds(item, "bmcAddress"@, value)
                    ||| lacks(item, "bmcAddress"@) && {
                        ||| holds(item, "bmcIp"@, value)
                        ||| lacks(item, "bmcIp"@) && holds(item, "ipmiAddress"@, value)
                    }
                }
            }
        }
    }
}

/// A string stands there.
pub open spec fn has_address_text(item: Json, text: String) -> bool {
    has_address_value(item, Json::Str(text))
}

/// Nothing stands at any of the seven places.
pub open spec fn lacks_address(item: Json) -> bool {
    &&& lacks3(item, "interfaces"@, "ipmi0"@, "ip"@)
    &&& lacks3(item, "interfaces"@, "bmc"@, "ip"@)
    &&& lacks3(item, "interfaces"@, "ilo0"@, "ip"@)
    &&& lacks3(item, "interfaces"@, "rf0"@, "ip"@)
    &&& lacks(item, "bmcAddress"@)
    &&& lacks(item, "bmcIp"@)
    &&& lacks(item, "ipmiAddress"@)
}

/// `device` is what the entry of an answer says of a device: each of its three parts is read from
/// its own places, whatever the others are.
pub open spec fn is_read_from(device: DeviceEntry, item: Json) -> bool {
    &&& forall|text: String| #[trigger]
        holds_text(item, "hostname"@, "name"@, text) ==> device.hostname == Some(text)
    &&& holds_no_text(item, "hostname"@, "name"@) ==> device.hostname is None
    &&& forall|text: String| #[trigger]
        has_address_text(item, text) ==> device.bmc_ip == Some(text)
    &&& forall|value: Json| #[trigger]
        has_address_value(item, value) && !(value is Str) ==> device.bmc_ip is None
    &&& lacks_address(item) ==> device.bmc_ip is None
    &&& forall|text: String| #[trigger]
        holds_text(item, "category"@, "partition"@, text) ==> device.rack == if text@.len() > 0 {
            Some(text)
        } else {
            None
        }
    &&& holds_no_text(item, "category"@, "partition"@) ==> device.rack is None
}

pub(crate) proof fn lemma_device(item: Json)
    ensures
        is_read_from(crate::health::cluster::device_entry(item), item),
{
    lemma_text(item, "hostname"@, "name"@);
    lemma_text(item, "category"@, "partition"@);
    lemma_field3(item, "interfaces"@, "ipmi0"@, "ip"@);
    lemma_field3(item, "interfaces"@, "bmc"@, "ip"@);
    lemma_field3(item, "interfaces"@, "ilo0"@, "ip"@);
    lemma_field3(item, "interfaces"@, "rf0"@, "ip"@);
    lemma_field(item, "bmcAddress"@);
    lemma_field(item, "bmcIp"@);
    lemma_field(item, "ipmiAddress"@);
    let device = crate::health::cluster::device_entry(item);
    assert forall|value: Json| #[trigger]
        has_address_value(item, value) implies crate::health::cluster::bmc_ip_value(item) == Some(
        value,
    ) by {}
    assert forall|text: String| #[trigger] has_address_text(item, text) implies device.bmc_ip
        == Some(text) by {
        assert(has_address_value(item, Json::Str(text)));
    }
    assert forall|text: String| #[trigger]
        holds_text(item, "category"@, "partition"@, text) implies device.rack == if text@.len()
        > 0 {
        Some(text)
    } else {
        None
    } by {}
}

/// The error is a generic one with this message.
pub open spec fn is_message(error: HealthError, text: Seq<char>) -> bool {
    error matches HealthError::GenericError(message) && message@ == text
}

/// Every device of the list is read, in its order: its host name, the text of its address and its
/// rack, each from its own places, whatever the others are. An answer without a list is an error.
pub proof fn law_every_device_of_the_list_is_read(
    raw: Json,
    r: Result<Vec<DeviceEntry>, HealthError>,
)
    requires
        call_ensures(crate::health::cluster::read_manager_devices, (&raw,), r),
    ensures
        forall|items: Vec<Json>| #[trigger]
            has_list(raw, items) ==> {
                &&& r matches Ok(devices)
                &&& devices@.len() == items@.len()
                &&& forall|i: int|
                    0 <= i < items@.len() ==> is_read_from(#[trigger] devices@[i], items@[i])
            },
        has_no_list(raw) ==> r is Err && is_message(
            r->Err_0,
            "Cluster manager getDevices response has no recognized shape; probe /api on head node and update extract_manager_devices in cluster.rs"@,
        ),
{
    lemma_list(raw);
    assert forall|items: Vec<Json>| #[trigger] has_list(raw, items) implies {
        &&& r matches Ok(devices)
        &&& devices@.len() == items@.len()
        &&& forall|i: int| 0 <= i < items@.len() ==> is_read_from(#[trigger] devices@[i], items@[i])
    } by {
        assert(crate::health::cluster::device_items(raw) == Some(items@));
        let devices = r->Ok_0;
        assert forall|i: int| 0 <= i < items@.len() implies is_read_from(
            #[trigger] devices@[i],
            items@[i],
        ) by {
            lemma_device(items@[i]);
        }
    }
}

/// A category that is a non-empty string is the rack of the device, and without a category so is
/// its partition, whatever its other fields are: two devices that agree on these agree on the rack.
pub proof fn law_the_category_is_the_rack(
    raw: Json,
    items: Vec<Json>,
    devices: Vec<DeviceEntry>,
    i: int,
    j: int,
    text: String,
)
    requires
        call_ensures(
            crate::health::cluster::read_manager_devices,
            (&raw,),
            Ok::<Vec<DeviceEntry>, HealthError>(devices),
        ),
        has_list(raw, items),
        0 <= i < items@.len(),
        0 <= j < items@.len(),
        text@.len() > 0,
    ensures
        holds(items@[i], "category"@, Json::Str(text)) ==> devices@[i].rack == Some(text),
        lacks(items@[i], "category"@) && holds(items@[i], "partition"@, Json::Str(text))
            ==> devices@[i].rack == Some(text),
        holds(items@[i], "category"@, Json::Str(text)) && holds(
            items@[j],
            "category"@,
            Json::Str(text),
        ) ==> devices@[i].rack == devices@[j].rack,
{
    law_every_device_of_the_list_is_read(raw, Ok(devices));
    assert(is_read_from(devices@[i], items@[i]));
    assert(is_read_from(devices@[j], items@[j]));
    assert(holds(items@[i], "category"@, Json::Str(text)) ==> holds_text(
        items@[i],
        "category"@,
        "partition"@,
        text,
    ));
    assert(lacks(items@[i], "category"@) && holds(items@[i], "partition"@, Json::Str(text))
        ==> holds_text(items@[i], "category"@, "partition"@, text));
    assert(holds(items@[j], "category"@, Json::Str(text)) ==> holds_text(
        items@[j],
        "category"@,
        "partition"@,
        text,
    ));
}

/// The device at this place has the text of an address, and the text stands for this address.
pub open spec fn is_at(
    devices: Seq<DeviceEntry>,
    addresses: Seq<Option<IpAddr>>,
    i: int,
    ip: IpAddr,
) -> bool {
    &&& 0 <= i < devices.len()
    &&& devices[i].bmc_ip is Some
    &&& i < addresses.len()
    &&& addresses[i] == Some(ip)
}

/// The places are those of the devices with an address, each once and in order.
pub open spec fn are_the_places(
    places: Seq<int>,
    devices: Seq<DeviceEntry>,
    addresses: Seq<Option<IpAddr>>,
) -> bool {
    &&& forall|k: int, l: int|
        0 <= k < l < places.len() ==> #[trigger] places[k] < #[trigger] places[l]
    &&& forall|k: int|
        0 <= k < places.len() ==> {
            let i = #[trigger] places[k];
            is_at(devices, addresses, i, addresses[i]->0)
        }
    &&& forall|i: int, ip: IpAddr| #[trigger]
        is_at(devices, addresses, i, ip) ==> places.contains(i)
}

/// The node is the device with this address, reached with these credentials; nothing else is known
/// of it.
pub open spec fn is_node_of(
    node: ClusterNode,
    device: DeviceEntry,
    ip: IpAddr,
    username: String,
    password: Option<String>,
) -> bool {
    &&& node.hostname == device.hostname
    &&& node.bmc_ip == ip
    &&& node.rack == device.rack
    &&& node.username == username
    &&& node.password == password
    &&& node.bmc_mac is None
    &&& node.uuid is None
    &&& node.inventory_labels@.dom() =~= Set::<String>::empty()
}

/// `nodes` are the devices with an address, each once, in order and with these credentials.
pub open spec fn are_the_nodes(
    nodes: Seq<ClusterNode>,
    places: Seq<int>,
    devices: Seq<DeviceEntry>,
    addresses: Seq<Option<IpAddr>>,
    username: String,
    password: Option<String>,
) -> bool {
    &&& are_the_places(places, devices, addresses)
    &&& nodes.len() == places.len()
    &&& forall|k: int|
        0 <= k < nodes.len() ==> addresses[places[k]] is Some && is_node_of(
            #[trigger] nodes[k],
            devices[places[k]],
            addresses[places[k]]->0,
            username,
            password,
        )
}

pub(crate) proof fn lemma_places(devices: Seq<DeviceEntry>, addresses: Seq<Option<IpAddr>>, n: int)
    requires
        0 <= n <= devices.len(),
    ensures
        ({
            let places = crate::health::cluster::located(devices, addresses, n);
            &&& forall|k: int| 0 <= k < places.len() ==> 0 <= #[trigger] places[k] < n
            &&& forall|k: int, l: int|
                0 <= k < l < places.len() ==> #[trigger] places[k] < #[trigger] places[l]
            &&& forall|k: int|
                0 <= k < places.len() ==> {
                    let i = #[trigger] places[k];
                    devices[i].bmc_ip is Some && i < addresses.len() && addresses[i] is Some
                }
            &&& forall|i: int, ip: IpAddr| #[trigger]
                is_at(devices, addresses, i, ip) && i < n ==> places.contains(i)
        }),
    decreases n,
{
    if n > 0 {
        lemma_places(devices, addresses, n - 1);
        let before = crate::health::cluster::located(devices, addresses, n - 1);
        let places = crate::health::cluster::located(devices, addresses, n);
        assert(places == before || places == before.push(n - 1));
        assert forall|i: int, ip: IpAddr| #[trigger]
            is_at(devices, addresses, i, ip) && i < n implies places.contains(i) by {
            if i == n - 1 {
                assert(places.last() == i);
            } else {
                let k = choose|k: int| 0 <= k < before.len() && before[k] == i;
                assert(places[k] == i);
            }
        }
    }
}

pub(crate) proof fn lemma_extraction(
    devices: Seq<DeviceEntry>,
    addresses: Seq<Option<IpAddr>>,
    username: String,
    password: Option<String>,
    r: Result<Vec<ClusterNode>, HealthError>,
)
    requires
        crate::health::cluster::is_extraction(devices, addresses, username, password, r),
    ensures
        r is Ok ==> are_the_nodes(
            r->Ok_0@,
            crate::health::cluster::located(devices, addresses, devices.len() as int),
            devices,
            addresses,
            username,
            password,
        ),
        r is Err <==> devices.len() > 0 && forall|i: int, ip: IpAddr|
            !#[trigger] is_at(devices, addresses, i, ip),
        r is Err ==> is_message(
            r->Err_0,
            "Cluster manager getDevices returned entries but none had a recognized BMC IP; probe /api on head node and update extract_manager_devices in cluster.rs"@,
        ),
{
    let places = crate::health::cluster::located(devices, addresses, devices.len() as int);
    lemma_places(devices, addresses, devices.len() as int);
    if places.len() > 0 {
        assert(is_at(devices, addresses, places[0], addresses[places[0]]->0));
    }
    if r is Ok {
        assert forall|k: int| 0 <= k < r->Ok_0@.len() implies addresses[places[k]] is Some
            && is_node_of(
            #[trigger] r->Ok_0@[k],
            devices[places[k]],
            addresses[places[k]]->0,
            username,
            password,
        ) by {
            assert(crate::health::cluster::is_manager_node(
                r->Ok_0@[k],
                devices[places[k]],
                crate::health::cluster::address_of(devices, addresses, places[k])->0,
                username,
                password,
            ));
        }
    }
}

/// The devices that have an address become nodes, each once and in their order, with their own
/// host names and racks and the credentials that were given. It is an error exactly when there are
/// devices and none has an address.
pub proof fn law_every_device_with_an_address_is_a_node(
    devices: Vec<DeviceEntry>,
    addresses: Vec<Option<IpAddr>>,
    username: String,
    password: Option<String>,
    r: Result<Vec<ClusterNode>, HealthError>,
)
    requires
        call_ensures(
            crate::health::cluster::extract_manager_devices,
            (devices, addresses, username, password),
            r,
        ),
    ensures
        r is Ok ==> exists|places: Seq<int>| #[trigger]
            are_the_nodes(r->Ok_0@, places, devices@, addresses@, username, password),
        r is Err <==> devices@.len() > 0 && forall|i: int, ip: IpAddr|
            !#[trigger] is_at(devices@, addresses@, i, ip),
        r is Err ==> is_message(
            r->Err_0,
            "Cluster manager getDevices returned entries but none had a recognized BMC IP; probe /api on head node and update extract_manager_devices in cluster.rs"@,
        ),
{
    lemma_extraction(devices@, addresses@, username, password, r);
}

} // verus!
