//! Which system is the primary one, and what becomes of an endpoint, told by the systems and the
//! endpoint themselves.

use crate::health::endpoint::{BmcEndpoint, EndpointMetadata};
use crate::health::error::HealthError;
use crate::health::identity::SystemIdentity;
use vstd::prelude::*;

verus! {

/// The system tells a BIOS version with a character that is no white space.
pub open spec fn shows_bios(system: SystemIdentity) -> bool {
    &&& system.bios_version matches Some(version)
    &&& exists|i: int|
        0 <= i < version@.len() && !crate::text::is_white_space(#[trigger] version@[i])
}

/// The system at this place is the first that shows a BIOS version, or the first of all where none
/// shows one.
pub open spec fn is_main(systems: Seq<SystemIdentity>, at: int) -> bool {
    &&& 0 <= at < systems.len()
    &&& shows_bios(systems[at]) ==> forall|i: int|
        0 <= i < at ==> !shows_bios(#[trigger] systems[i])
    &&& !shows_bios(systems[at]) ==> at == 0 && forall|i: int|
        0 <= i < systems.len() ==> !shows_bios(#[trigger] systems[i])
}

proof fn lemma_primary(systems: Seq<SystemIdentity>)
    ensures
        forall|system: SystemIdentity| #[trigger]
            shows_bios(system) <==> crate::health::identity::has_bios(system),
        forall|at: int| #[trigger]
            is_main(systems, at) <==> crate::health::identity::is_primary(systems, at),
{
    assert forall|at: int| #[trigger]
        is_main(systems, at) <==> crate::health::identity::is_primary(systems, at) by {
        if is_main(systems, at) {
            assert forall|i: int| 0 <= i < at implies !crate::health::identity::has_bios(
                #[trigger] systems[i],
            ) by {
                assert(!shows_bios(systems[i]));
            }
            if !shows_bios(systems[at]) {
                assert forall|i: int|
                    0 <= i < systems.len() implies !crate::health::identity::has_bios(
                    #[trigger] systems[i],
                ) by {
                    assert(!shows_bios(systems[i]));
                }
            }
        }
    }
}

/// The system that is selected is the main one; there is none exactly when there are no systems.
pub proof fn law_the_main_system_is_selected(
    systems: &[SystemIdentity],
    r: Option<&SystemIdentity>,
)
    requires
        call_ensures(crate::health::identity::select_primary_system, (systems,), r),
    ensures
        r is None <==> systems@.len() == 0,
        forall|at: int| #[trigger] is_main(systems@, at) ==> r == Some(&systems@[at]),
        r is Some ==> exists|at: int| #[trigger]
            is_main(systems@, at) && systems@[at] == *r->0,
{
    lemma_primary(systems@);
    crate::health::laws::law_the_primary_system_is_unique(systems@);
    if r is Some {
        let at = choose|at: int|
            crate::health::identity::is_primary(systems@, at) && #[trigger] systems@[at] == *r->0;
        assert(is_main(systems@, at));
    }
}

/// Only machines need the identifier of a system.
pub proof fn law_machines_need_a_system_uuid(endpoint: BmcEndpoint, r: bool)
    requires
        call_ensures(crate::health::identity::needs_system_uuid, (&endpoint,), r),
    ensures
        r <==> endpoint.metadata is Some && endpoint.metadata->0 is Machine,
{
}

/// All parts of the endpoint but its kind are the same.
pub open spec fn keeps_parts(r: BmcEndpoint, endpoint: BmcEndpoint) -> bool {
    &&& r.addr == endpoint.addr
    &&& r.credentials == endpoint.credentials
    &&& r.uuid == endpoint.uuid
    &&& r.inventory_labels@ == endpoint.inventory_labels@
    &&& r.rack_id == endpoint.rack_id
}

/// A machine, whatever its other parts are, gets the identifier of the main system, and keeps the
/// rest. Without that identifier, without systems and without a collection of them, that is told.
pub proof fn law_a_machine_gets_the_uuid_of_its_main_system(
    endpoint: BmcEndpoint,
    bmc: &str,
    systems: &[SystemIdentity],
    at: int,
    r: Result<BmcEndpoint, HealthError>,
    without: Result<BmcEndpoint, HealthError>,
)
    requires
        call_ensures(
            crate::health::identity::with_primary_system_uuid,
            (&endpoint, bmc, Some(systems)),
            r,
        ),
        call_ensures(
            crate::health::identity::with_primary_system_uuid,
            (&endpoint, bmc, None),
            without,
        ),
        endpoint.metadata is Some,
        endpoint.metadata->0 is Machine,
    ensures
        is_main(systems@, at) && systems@[at].uuid is Some ==> {
            &&& r matches Ok(enriched)
            &&& keeps_parts(enriched, endpoint)
            &&& enriched.metadata matches Some(EndpointMetadata::Machine(machine))
            &&& machine.system_uuid == systems@[at].uuid
        },
        is_main(systems@, at) && systems@[at].uuid is None ==> r is Err
            && crate::health::cluster_laws::is_message(
            r->Err_0,
            "primary ComputerSystem "@ + systems@[at].id@ + " on BMC "@ + bmc@
                + " does not expose a UUID"@,
        ),
        systems@.len() == 0 ==> r is Err && crate::health::cluster_laws::is_message(
            r->Err_0,
            "BMC "@ + bmc@ + " exposes an empty ComputerSystem collection"@,
        ),
        without is Err && crate::health::cluster_laws::is_message(
            without->Err_0,
            "BMC "@ + bmc@ + " does not expose a ComputerSystem collection"@,
        ),
        r is Ok ==> {
            &&& r->Ok_0.metadata matches Some(EndpointMetadata::Machine(machine))
            &&& machine.system_uuid is Some
        },
{
    lemma_primary(systems@);
    crate::health::laws::law_the_primary_system_is_unique(systems@);
}

/// What a machine gets depends on its systems alone: two machines with the same systems get the
/// same identifier, or neither does.
pub proof fn law_the_uuid_depends_on_the_systems_only(
    first: BmcEndpoint,
    second: BmcEndpoint,
    bmc1: &str,
    bmc2: &str,
    systems: &[SystemIdentity],
    r1: Result<BmcEndpoint, HealthError>,
    r2: Result<BmcEndpoint, HealthError>,
)
    requires
        call_ensures(
            crate::health::identity::with_primary_system_uuid,
            (&first, bmc1, Some(systems)),
            r1,
        ),
        call_ensures(
            crate::health::identity::with_primary_system_uuid,
            (&second, bmc2, Some(systems)),
            r2,
        ),
        first.metadata is Some,
        first.metadata->0 is Machine,
        second.metadata is Some,
        second.metadata->0 is Machine,
    ensures
        r1 is Ok <==> r2 is Ok,
        r1 is Ok ==> r1->Ok_0.metadata == r2->Ok_0.metadata,
{
    crate::health::laws::law_the_primary_system_is_unique(systems@);
}

/// An endpoint that is no machine stays as it is, whatever its BMC shows.
pub proof fn law_other_endpoints_stay_as_they_are(
    endpoint: BmcEndpoint,
    bmc: &str,
    systems: Option<&[SystemIdentity]>,
    r: Result<BmcEndpoint, HealthError>,
)
    requires
        call_ensures(
            crate::health::identity::with_primary_system_uuid,
            (&endpoint, bmc, systems),
            r,
        ),
        endpoint.metadata is None || endpoint.metadata->0 is Other,
    ensures
        r is Ok,
        keeps_parts(r->Ok_0, endpoint),
        r->Ok_0.metadata == endpoint.metadata,
{
}

} // verus!
