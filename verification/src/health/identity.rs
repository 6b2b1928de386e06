//! Which system of a host is the primary one.

use crate::health::endpoint::{BmcEndpoint, EndpointMetadata, MachineData};
use crate::health::error::HealthError;
use crate::ids::Uuid;
use crate::text::blank;
use vstd::prelude::*;

verus! {

/// What a BMC says of one of its systems.
#[derive(Debug)]
pub struct SystemIdentity {
    pub id: String,
    pub uuid: Option<Uuid>,
    pub bios_version: Option<String>,
}

/// The system has a BIOS version that is not blank.
pub open spec fn has_bios(system: SystemIdentity) -> bool {
    system.bios_version matches Some(version) && !crate::text::is_blank(version@)
}

/// `at` is the place of the primary system: the first with a BIOS version, or else the first.
pub open spec fn is_primary(systems: Seq<SystemIdentity>, at: int) -> bool {
    &&& 0 <= at < systems.len()
    &&& forall|i: int| 0 <= i < at ==> !has_bios(#[trigger] systems[i])
    &&& has_bios(systems[at]) || (at == 0 && forall|i: int|
        0 <= i < systems.len() ==> !has_bios(#[trigger] systems[i]))
}

/// The primary system, if there are systems at all.
///
/// A system with a BIOS version is preferred, because BMCs may show auxiliary systems alongside
/// the host.
pub fn select_primary_system(systems: &[SystemIdentity]) -> (r: Option<&SystemIdentity>)
    ensures
        r is None <==> systems@.len() == 0,
        r matches Some(system) ==> exists|at: int|
            is_primary(systems@, at) && #[trigger] systems@[at] == *system,
{
    let mut i: usize = 0;
    while i < systems.len()
        invariant
            i <= systems@.len(),
            forall|j: int| 0 <= j < i ==> !has_bios(#[trigger] systems@[j]),
        decreases systems@.len() - i,
    {
        let found: bool = match &systems[i].bios_version {
            Some(version) => !blank(version.as_str()),
            None => false,
        };
        if found {
            assert(is_primary(systems@, i as int));
            return Some(&systems[i]);
        }
        i += 1;
    }
    if systems.len() > 0 {
        assert(is_primary(systems@, 0));
        Some(&systems[0])
    } else {
        None
    }
}

/// Only host machines have a primary system.
pub open spec fn is_machine(endpoint: BmcEndpoint) -> bool {
    endpoint.metadata matches Some(EndpointMetadata::Machine(_))
}

/// Is the endpoint a host machine, whose systems have to be asked for?
pub fn needs_system_uuid(endpoint: &BmcEndpoint) -> (r: bool)
    ensures
        r == is_machine(*endpoint),
{
    match endpoint.metadata {
        Some(EndpointMetadata::Machine(_)) => true,
        _ => false,
    }
}

/// The endpoint, with only the system's identifier changed.
pub open spec fn is_enriched(endpoint: BmcEndpoint, uuid: Uuid, r: BmcEndpoint) -> bool {
    &&& r.is_same_bmc(endpoint)
    &&& r.metadata == Some(EndpointMetadata::Machine(MachineData { system_uuid: Some(uuid) }))
}

/// The endpoint with the identifier of its primary system, resolved before collectors start.
///
/// `bmc` is how the BMC is called in messages; `systems` are the systems that it shows, or `None`
/// if it shows no collection of them. An endpoint that is no machine stays as it is.
pub fn with_primary_system_uuid(
    endpoint: &BmcEndpoint,
    bmc: &str,
    systems: Option<&[SystemIdentity]>,
) -> (r: Result<BmcEndpoint, HealthError>)
    ensures
        !is_machine(*endpoint) ==> r is Ok && r->Ok_0.is_same_bmc(*endpoint) && r->Ok_0.metadata
            == endpoint.metadata,
        is_machine(*endpoint) ==> match systems {
            None => r is Err && r->Err_0.says(
                "BMC "@ + bmc@ + " does not expose a ComputerSystem collection"@,
            ),
            Some(systems) => {
                &&& systems@.len() == 0 ==> r is Err && r->Err_0.says(
                    "BMC "@ + bmc@ + " exposes an empty ComputerSystem collection"@,
                )
                &&& systems@.len() > 0 ==> exists|at: int|
                    is_primary(systems@, at) && match (#[trigger] systems@[at]).uuid {
                        Some(uuid) => r is Ok && is_enriched(*endpoint, uuid, r->Ok_0),
                        None => r is Err && r->Err_0.says(
                            "primary ComputerSystem "@ + systems@[at].id@ + " on BMC "@ + bmc@
                                + " does not expose a UUID"@,
                        ),
                    }
            },
        },
{
    if !needs_system_uuid(endpoint) {
        return Ok(endpoint.duplicate());
    }
    let systems = match systems {
        Some(systems) => systems,
        None => {
            let mut message: String = "BMC ".to_owned();
            message.append(bmc);
            message.append(" does not expose a ComputerSystem collection");
            return Err(HealthError::GenericError(message));
        },
    };
    let primary = match select_primary_system(systems) {
        Some(primary) => primary,
        None => {
            let mut message: String = "BMC ".to_owned();
            message.append(bmc);
            message.append(" exposes an empty ComputerSystem collection");
            return Err(HealthError::GenericError(message));
        },
    };
    match primary.uuid {
        Some(uuid) => {
            let mut enriched = endpoint.duplicate();
            enriched.metadata = Some(
                EndpointMetadata::Machine(MachineData { system_uuid: Some(uuid) }),
            );
            Ok(enriched)
        },
        None => {
            let mut message: String = "primary ComputerSystem ".to_owned();
            message.append(primary.id.as_str());
            message.append(" on BMC ");
            message.append(bmc);
            message.append(" does not expose a UUID");
            Err(HealthError::GenericError(message))
        },
    }
}

} // verus!
