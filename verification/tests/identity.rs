use fleet_core::health::address::{IpAddr, MacAddr};
use fleet_core::health::endpoint::{
    BmcAddr, BmcCredentials, BmcEndpoint, EndpointMetadata, MachineData, RackId,
};
use fleet_core::health::error::HealthError;
use fleet_core::health::identity::{
    needs_system_uuid, select_primary_system, with_primary_system_uuid, SystemIdentity,
};
use fleet_core::ids::Uuid;
use fleet_core::text::blank;
use std::collections::BTreeMap;

fn first_uuid() -> Uuid {
    Uuid::from_u128(0x11111111_1111_1111_1111_111111111111)
}

fn bios_uuid() -> Uuid {
    Uuid::from_u128(0x22222222_2222_2222_2222_222222222222)
}

#[test]
fn primary_system_prefers_first_system_with_bios() {
    let systems = [
        SystemIdentity {
            id: "auxiliary".to_string(),
            uuid: Some(first_uuid()),
            bios_version: None,
        },
        SystemIdentity {
            id: "host".to_string(),
            uuid: Some(bios_uuid()),
            bios_version: Some("1.2.3".to_string()),
        },
    ];

    let primary = select_primary_system(&systems).expect("primary system");

    assert_eq!(primary.id, "host");
    assert_eq!(primary.uuid, Some(bios_uuid()));
}

#[test]
fn primary_system_falls_back_to_first_member() {
    let systems = [
        SystemIdentity {
            id: "first".to_string(),
            uuid: Some(first_uuid()),
            bios_version: None,
        },
        SystemIdentity {
            id: "second".to_string(),
            uuid: Some(bios_uuid()),
            bios_version: Some("  ".to_string()),
        },
    ];

    let primary = select_primary_system(&systems).expect("primary system");

    assert_eq!(primary.id, "first");
    assert_eq!(primary.uuid, Some(first_uuid()));
}

#[test]
fn primary_system_is_absent_for_empty_collection() {
    assert!(select_primary_system(&[]).is_none());
}

fn system(id: &str, uuid: Option<Uuid>, bios_version: Option<&str>) -> SystemIdentity {
    SystemIdentity {
        id: id.to_string(),
        uuid,
        bios_version: bios_version.map(str::to_string),
    }
}

#[test]
fn the_first_of_several_systems_with_bios_is_primary() {
    let systems = [
        system("a", None, Some("\t\u{a0}\u{3000}")),
        system("b", None, Some(" 2.0 ")),
        system("c", None, Some("3.0")),
    ];
    assert_eq!(select_primary_system(&systems).unwrap().id, "b");
}

#[test]
fn blank_is_what_has_only_white_space() {
    assert!(blank(""));
    let white = [
        '\u{9}', '\u{a}', '\u{b}', '\u{c}', '\u{d}', ' ', '\u{85}', '\u{a0}', '\u{1680}',
        '\u{2000}', '\u{2001}', '\u{2002}', '\u{2003}', '\u{2004}', '\u{2005}', '\u{2006}',
        '\u{2007}', '\u{2008}', '\u{2009}', '\u{200a}', '\u{2028}', '\u{2029}', '\u{202f}',
        '\u{205f}', '\u{3000}',
    ];
    for c in white {
        assert!(blank(&c.to_string()), "{:?}", c);
    }
    for c in ['x', '\u{8}', '\u{e}', '\u{180e}', '\u{200b}', '\u{feff}'] {
        assert!(!blank(&c.to_string()), "{:?}", c);
    }
    for value in 0..0x11_0000u32 {
        if let Some(c) = char::from_u32(value) {
            assert_eq!(blank(&c.to_string()), white.contains(&c), "{:?}", c);
        }
    }
    assert!(!blank(" 1 "));
}

fn endpoint(metadata: Option<EndpointMetadata>) -> BmcEndpoint {
    BmcEndpoint {
        addr: BmcAddr {
            ip: IpAddr::V4([10, 0, 0, 1]),
            port: Some(443),
            mac: MacAddr {
                octets: [2, 0, 10, 0, 0, 1],
            },
        },
        credentials: BmcCredentials::UsernamePassword {
            username: "admin".to_string(),
            password: Some("secret".to_string()),
        },
        uuid: Some(Uuid::from_u128(5)),
        inventory_labels: BTreeMap::from([("zone".to_string(), "az51".to_string())]),
        metadata,
        rack_id: Some(RackId {
            id: "rack-01".to_string(),
        }),
    }
}

fn machine() -> Option<EndpointMetadata> {
    Some(EndpointMetadata::Machine(MachineData { system_uuid: None }))
}

#[test]
fn only_machines_are_enriched() {
    for metadata in [None, Some(EndpointMetadata::Other)] {
        let other = endpoint(metadata);
        assert!(!needs_system_uuid(&other));
        let same = with_primary_system_uuid(&other, "bmc-1", None).unwrap();
        assert!(!matches!(same.metadata, Some(EndpointMetadata::Machine(_))));
        assert_eq!(same.metadata.is_some(), other.metadata.is_some());
        assert_eq!(same.addr, other.addr);
        assert_eq!(same.inventory_labels, other.inventory_labels);
    }
    assert!(needs_system_uuid(&endpoint(machine())));
}

#[test]
fn a_machine_gets_the_uuid_of_its_primary_system_and_keeps_the_rest() {
    let systems = [
        system("aux", Some(first_uuid()), None),
        system("host", Some(bios_uuid()), Some("1.2.3")),
    ];
    let enriched = with_primary_system_uuid(&endpoint(machine()), "bmc-1", Some(&systems)).unwrap();
    match enriched.metadata {
        Some(EndpointMetadata::Machine(machine)) => {
            assert_eq!(machine.system_uuid, Some(bios_uuid()))
        }
        _ => panic!("a machine stays a machine"),
    }
    let before = endpoint(machine());
    assert_eq!(enriched.addr, before.addr);
    assert_eq!(enriched.uuid, before.uuid);
    assert_eq!(enriched.inventory_labels, before.inventory_labels);
    assert_eq!(enriched.rack_id.unwrap().id, "rack-01");
    match enriched.credentials {
        BmcCredentials::UsernamePassword { username, password } => {
            assert_eq!(username, "admin");
            assert_eq!(password.as_deref(), Some("secret"));
        }
    }
}

fn message(result: Result<BmcEndpoint, HealthError>) -> String {
    match result {
        Err(HealthError::GenericError(message)) => message,
        _ => panic!("expected a generic error"),
    }
}

#[test]
fn a_machine_without_a_primary_uuid_is_an_error() {
    assert_eq!(
        message(with_primary_system_uuid(&endpoint(machine()), "bmc-1", None)),
        "BMC bmc-1 does not expose a ComputerSystem collection"
    );
    assert_eq!(
        message(with_primary_system_uuid(&endpoint(machine()), "bmc-1", Some(&[]))),
        "BMC bmc-1 exposes an empty ComputerSystem collection"
    );
    let systems = [
        system("aux", Some(first_uuid()), None),
        system("host", None, Some("1.2.3")),
    ];
    assert_eq!(
        message(with_primary_system_uuid(
            &endpoint(machine()),
            "bmc-1",
            Some(&systems)
        )),
        "primary ComputerSystem host on BMC bmc-1 does not expose a UUID"
    );
}

#[test]
fn resolving_twice_is_resolving_once() {
    let systems = [system("host", Some(bios_uuid()), Some("1.2.3"))];
    let once = with_primary_system_uuid(&endpoint(machine()), "b", Some(&systems)).unwrap();
    let twice = with_primary_system_uuid(&once, "b", Some(&systems)).unwrap();
    match twice.metadata {
        Some(EndpointMetadata::Machine(machine)) => {
            assert_eq!(machine.system_uuid, Some(bios_uuid()))
        }
        _ => panic!("a machine stays a machine"),
    }
}
