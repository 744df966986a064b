//! What holds of the coordinator's operations, whatever the tables contain.

use vstd::prelude::*;
use crate::error::{AppError, Resource};
use crate::models::assignment::{AssignmentStatus, CreateAssignmentDto, VehicleAssignment};
use crate::models::driver::DriverStatus;
use crate::models::vehicle::VehicleStatus;
use crate::repositories::assignment_repo::assignment_at;
use crate::repositories::driver_repo::live_driver;
use crate::repositories::table::{
    holds,
    lemma_slot,
    lemma_slot_after_push,
    lemma_slot_after_update,
    slot,
};
use crate::repositories::vehicle_repo::live_vehicle;
use crate::services::assignment_service::{closed, created, FleetState};

verus! {

/// Whether vehicle `vehicle_id` is live and has status `status`.
pub open spec fn vehicle_is(s: FleetState, vehicle_id: u128, status: VehicleStatus) -> bool {
    live_vehicle(s.vehicles, vehicle_id) matches Some(v) && v.status == status
}

/// Whether driver `driver_id` is live and has status `status`.
pub open spec fn driver_is(s: FleetState, driver_id: u128, status: DriverStatus) -> bool {
    live_driver(s.drivers, driver_id) matches Some(d) && d.status == status
}

/// For an available vehicle and an available driver, creating an assignment
/// in one of the two initial statuses, under an identifier the ledger has
/// not used, succeeds: the ledger holds the new assignment, the vehicle is
/// `Assigned` and the driver is `OnDuty`.
pub proof fn law_create_claims_vehicle_and_driver(
    s: FleetState,
    dto: CreateAssignmentDto,
    id: u128,
    now: i64,
)
    requires
        vehicle_is(s, dto.vehicle_id, VehicleStatus::Available),
        driver_is(s, dto.driver_id, DriverStatus::Available),
        !dto.status.terminal(),
        !holds(s.assignments, id),
    ensures
        created(s, dto, id, now).0 == Ok::<VehicleAssignment, AppError>(dto.row(id, now)),
        assignment_at(created(s, dto, id, now).1.assignments, id) == Some(dto.row(id, now)),
        vehicle_is(created(s, dto, id, now).1, dto.vehicle_id, VehicleStatus::Assigned),
        driver_is(created(s, dto, id, now).1, dto.driver_id, DriverStatus::OnDuty),
{
    let after = created(s, dto, id, now).1;
    lemma_slot(s.vehicles, dto.vehicle_id);
    lemma_slot(s.drivers, dto.driver_id);
    let k = slot(s.vehicles, dto.vehicle_id).unwrap();
    let m = slot(s.drivers, dto.driver_id).unwrap();
    lemma_slot_after_push(s.assignments, dto.row(id, now), id);
    lemma_slot_after_update(
        s.vehicles,
        k,
        s.vehicles[k].with_status(VehicleStatus::Assigned, now),
        dto.vehicle_id,
    );
    lemma_slot_after_update(
        s.drivers,
        m,
        s.drivers[m].with_status(DriverStatus::OnDuty, now),
        dto.driver_id,
    );
}

/// Once an assignment has been created, no second one can be created for
/// the same vehicle or for the same driver: the attempt is refused and
/// changes nothing. When it names the same vehicle, the refusal is that the
/// vehicle is unavailable.
pub proof fn law_create_succeeds_once(
    s: FleetState,
    dto: CreateAssignmentDto,
    id: u128,
    now: i64,
    again: CreateAssignmentDto,
    again_id: u128,
    again_now: i64,
)
    requires
        created(s, dto, id, now).0 is Ok,
        again.vehicle_id == dto.vehicle_id || again.driver_id == dto.driver_id,
    ensures
        created(created(s, dto, id, now).1, again, again_id, again_now).0 is Err,
        created(created(s, dto, id, now).1, again, again_id, again_now).1 == created(
            s,
            dto,
            id,
            now,
        ).1,
        again.vehicle_id == dto.vehicle_id ==> created(
            created(s, dto, id, now).1,
            again,
            again_id,
            again_now,
        ).0 == Err::<VehicleAssignment, AppError>(AppError::ResourceUnavailable(Resource::Vehicle)),
{
    law_create_claims_vehicle_and_driver(s, dto, id, now);
}

/// Creating an assignment for a vehicle that is live but not `Available` is
/// refused as unavailable, and changes nothing in any of the three tables.
pub proof fn law_unavailable_vehicle_refused(
    s: FleetState,
    dto: CreateAssignmentDto,
    id: u128,
    now: i64,
)
    requires
        live_vehicle(s.vehicles, dto.vehicle_id) matches Some(v) && v.status
            != VehicleStatus::Available,
    ensures
        created(s, dto, id, now) == (
            Err::<VehicleAssignment, AppError>(AppError::ResourceUnavailable(Resource::Vehicle)),
            s,
        ),
{
}

/// Creating an assignment for a vehicle that is unknown or soft-deleted is
/// refused as not found, whatever the driver, and changes nothing.
pub proof fn law_unknown_vehicle_refused(s: FleetState, dto: CreateAssignmentDto, id: u128, now: i64)
    requires
        live_vehicle(s.vehicles, dto.vehicle_id) is None,
    ensures
        created(s, dto, id, now) == (Err::<VehicleAssignment, AppError>(AppError::ResourceNotFound(Resource::Vehicle)), s),
{
}

/// A refused operation changes nothing: not the ledger, not a vehicle, not
/// a driver.
pub proof fn law_refusal_changes_nothing(
    s: FleetState,
    dto: CreateAssignmentDto,
    id: u128,
    target: AssignmentStatus,
    now: i64,
)
    ensures
        created(s, dto, id, now).0 is Err ==> created(s, dto, id, now).1 == s,
        closed(s, id, target, now).0 is Err ==> closed(s, id, target, now).1 == s,
{
}

/// Closing an open assignment whose vehicle and driver are live succeeds:
/// the assignment takes the terminal status asked for, and its vehicle and
/// its driver are `Available` again.
pub proof fn law_close_releases_vehicle_and_driver(
    s: FleetState,
    id: u128,
    target: AssignmentStatus,
    now: i64,
)
    requires
        assignment_at(s.assignments, id) matches Some(a) && a.open() && live_vehicle(
            s.vehicles,
            a.vehicle_id,
        ) is Some && live_driver(s.drivers, a.driver_id) is Some,
    ensures
        closed(s, id, target, now).0 == Ok::<VehicleAssignment, AppError>(
            assignment_at(s.assignments, id).unwrap().with_status(target, now),
        ),
        assignment_at(closed(s, id, target, now).1.assignments, id) == Some(
            assignment_at(s.assignments, id).unwrap().with_status(target, now),
        ),
        vehicle_is(
            closed(s, id, target, now).1,
            assignment_at(s.assignments, id).unwrap().vehicle_id,
            VehicleStatus::Available,
        ),
        driver_is(
            closed(s, id, target, now).1,
            assignment_at(s.assignments, id).unwrap().driver_id,
            DriverStatus::Available,
        ),
{
    let a = assignment_at(s.assignments, id).unwrap();
    lemma_slot(s.assignments, id);
    lemma_slot(s.vehicles, a.vehicle_id);
    lemma_slot(s.drivers, a.driver_id);
    let j = slot(s.assignments, id).unwrap();
    let k = slot(s.vehicles, a.vehicle_id).unwrap();
    let m = slot(s.drivers, a.driver_id).unwrap();
    lemma_slot_after_update(s.assignments, j, a.with_status(target, now), id);
    lemma_slot_after_update(
        s.vehicles,
        k,
        s.vehicles[k].with_status(VehicleStatus::Available, now),
        a.vehicle_id,
    );
    lemma_slot_after_update(
        s.drivers,
        m,
        s.drivers[m].with_status(DriverStatus::Available, now),
        a.driver_id,
    );
}

/// An assignment is closed at most once: after it has been completed or
/// cancelled, every further attempt to complete or cancel it is refused as
/// an invalid transition out of the status it ended in, and changes nothing.
pub proof fn law_close_succeeds_once(
    s: FleetState,
    id: u128,
    target: AssignmentStatus,
    now: i64,
    again_target: AssignmentStatus,
    again_now: i64,
)
    requires
        target.terminal(),
        closed(s, id, target, now).0 is Ok,
    ensures
        closed(closed(s, id, target, now).1, id, again_target, again_now) == (
            Err::<VehicleAssignment, AppError>(AppError::InvalidStateTransition(target)),
            closed(s, id, target, now).1,
        ),
{
    law_close_releases_vehicle_and_driver(s, id, target, now);
}

/// The ledger keeps its history. No operation removes an assignment or
/// moves it to another identifier, creating touches no assignment already
/// there, and an assignment that has reached a terminal status is never
/// changed again.
pub proof fn law_ledger_keeps_history(
    s: FleetState,
    dto: CreateAssignmentDto,
    id: u128,
    assignment_id: u128,
    target: AssignmentStatus,
    now: i64,
    j: int,
)
    requires
        0 <= j < s.assignments.len(),
    ensures
        created(s, dto, id, now).1.assignments.len() >= s.assignments.len(),
        created(s, dto, id, now).1.assignments[j] == s.assignments[j],
        closed(s, assignment_id, target, now).1.assignments.len() == s.assignments.len(),
        closed(s, assignment_id, target, now).1.assignments[j].id == s.assignments[j].id,
        s.assignments[j].status.terminal() ==> closed(s, assignment_id, target, now).1.assignments[j]
            == s.assignments[j],
{
    lemma_slot(s.assignments, assignment_id);
}

/// Every change of status the coordinator makes is one the lifecycle
/// permits: an assignment is created in an initial status, and the only
/// change after that is from an initial status to a terminal one.
pub proof fn law_status_changes_follow_the_lifecycle(
    s: FleetState,
    dto: CreateAssignmentDto,
    id: u128,
    assignment_id: u128,
    target: AssignmentStatus,
    now: i64,
    j: int,
)
    requires
        target.terminal(),
        0 <= j < s.assignments.len(),
    ensures
        created(s, dto, id, now).0 matches Ok(row) ==> !row.status.terminal(),
        closed(s, assignment_id, target, now).1.assignments[j].status == s.assignments[j].status
            || s.assignments[j].status.may_become(
            closed(s, assignment_id, target, now).1.assignments[j].status,
        ),
{
    lemma_slot(s.assignments, assignment_id);
}

/// One attempt to create an assignment: the request, and the identifier and
/// instant drawn for it.
pub struct Attempt {
    pub dto: CreateAssignmentDto,
    pub id: u128,
    pub now: i64,
}

/// Making `attempts` one after the other, in order: how many of them
/// succeeded, and the tables afterwards.
pub open spec fn attempted(s: FleetState, attempts: Seq<Attempt>) -> (nat, FleetState)
    decreases attempts.len(),
{
    if attempts.len() == 0 {
        (0, s)
    } else {
        let (won, mid) = attempted(s, attempts.drop_last());
        let last = attempts.last();
        let (outcome, after) = created(mid, last.dto, last.id, last.now);
        (
            won + if outcome is Ok {
                1nat
            } else {
                0nat
            },
            after,
        )
    }
}

/// However many attempts are made to assign one vehicle, and in whatever
/// order they are taken, at most one of them succeeds; and once one has, the
/// vehicle is `Assigned`.
pub proof fn law_one_winner_per_vehicle(s: FleetState, attempts: Seq<Attempt>, vehicle_id: u128)
    requires
        forall|i: int| 0 <= i < attempts.len() ==> (#[trigger] attempts[i]).dto.vehicle_id == vehicle_id,
    ensures
        attempted(s, attempts).0 <= 1,
        attempted(s, attempts).0 == 1 ==> vehicle_is(
            attempted(s, attempts).1,
            vehicle_id,
            VehicleStatus::Assigned,
        ),
    decreases attempts.len(),
{
    if attempts.len() > 0 {
        let earlier = attempts.drop_last();
        assert(forall|i: int| 0 <= i < earlier.len() ==> earlier[i] == attempts[i]);
        law_one_winner_per_vehicle(s, earlier, vehicle_id);
        let mid = attempted(s, earlier).1;
        let last = attempts.last();
        if created(mid, last.dto, last.id, last.now).0 is Ok {
            law_create_claims_vehicle_and_driver(mid, last.dto, last.id, last.now);
        }
    }
}

/// When the vehicle is available, and the first attempt names an available
/// driver, an initial status and an unused identifier, exactly one of the
/// attempts to assign the vehicle succeeds.
pub proof fn law_exactly_one_winner(s: FleetState, attempts: Seq<Attempt>, vehicle_id: u128)
    requires
        attempts.len() > 0,
        forall|i: int| 0 <= i < attempts.len() ==> (#[trigger] attempts[i]).dto.vehicle_id == vehicle_id,
        created(s, attempts[0].dto, attempts[0].id, attempts[0].now).0 is Ok,
    ensures
        attempted(s, attempts).0 == 1,
    decreases attempts.len(),
{
    let earlier = attempts.drop_last();
    assert(forall|i: int| 0 <= i < earlier.len() ==> earlier[i] == attempts[i]);
    if attempts.len() > 1 {
        law_exactly_one_winner(s, earlier, vehicle_id);
        law_one_winner_per_vehicle(s, earlier, vehicle_id);
    }
}

} // verus!
