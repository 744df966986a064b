//! A store that answers the flow's requests the way the in-memory tables
//! behave, and the proof that a flow conducted against such a store does
//! exactly what the coordinator does.

use vstd::prelude::*;
use crate::error::{AppError, Resource, StoreFault};
use crate::models::assignment::{AssignmentStatus, CreateAssignmentDto, VehicleAssignment};
use crate::repositories::assignment_repo::{assignment_at, assignment_created, assignment_status_set};
use crate::repositories::driver_repo::{driver_status_set, live_driver};
use crate::repositories::table::{lemma_slot, lemma_slot_after_update, slot};
use crate::repositories::vehicle_repo::{live_vehicle, vehicle_status_set};
use crate::services::assignment_flow::{
    AssignmentFlow,
    Operation,
    Stage,
    Step,
    StoreReply,
    StoreRequest,
};
use crate::services::assignment_service::{closed, created, FleetState};

verus! {

/// A store as one transaction sees it: the tables as last committed, and
/// the tables with the transaction's own writes.
pub struct Session {
    pub committed: FleetState,
    pub working: FleetState,
}

impl Session {
    /// A store holding `s`, with no transaction under way.
    pub open spec fn at_rest(s: FleetState) -> Session {
        Session { committed: s, working: s }
    }
}

/// What the store answers to `request`, and how it stands afterwards. A new
/// row is entered under `id`, and every write is stamped `now`.
pub open spec fn answered(session: Session, request: StoreRequest, id: u128, now: i64) -> (
    StoreReply,
    Session,
) {
    let working = session.working;
    match request {
        StoreRequest::Begin => (StoreReply::Done, Session { working: session.committed, ..session }),
        StoreRequest::Commit => (StoreReply::Done, Session { committed: working, ..session }),
        StoreRequest::Rollback => (
            StoreReply::Done,
            Session { working: session.committed, ..session },
        ),
        StoreRequest::LockVehicle(vehicle_id) => (
            StoreReply::Vehicle(live_vehicle(working.vehicles, vehicle_id)),
            session,
        ),
        StoreRequest::LockDriver(driver_id) => (
            StoreReply::Driver(live_driver(working.drivers, driver_id)),
            session,
        ),
        StoreRequest::LockAssignment(assignment_id) => (
            StoreReply::Assignment(assignment_at(working.assignments, assignment_id)),
            session,
        ),
        StoreRequest::InsertAssignment(dto) => match assignment_created(
            working.assignments,
            id,
            dto,
            now,
        ) {
            (Ok(row), rows) => (
                StoreReply::Assignment(Some(row)),
                Session { working: FleetState { assignments: rows, ..working }, ..session },
            ),
            (Err(_), _) => (StoreReply::Failed(StoreFault::ConstraintViolation), session),
        },
        StoreRequest::SetVehicleStatus(vehicle_id, status) => match vehicle_status_set(
            working.vehicles,
            vehicle_id,
            status,
            now,
        ) {
            (Ok(row), rows) => (
                StoreReply::Vehicle(Some(row)),
                Session { working: FleetState { vehicles: rows, ..working }, ..session },
            ),
            (Err(_), _) => (StoreReply::Vehicle(None), session),
        },
        StoreRequest::SetDriverStatus(driver_id, status) => match driver_status_set(
            working.drivers,
            driver_id,
            status,
            now,
        ) {
            (Ok(row), rows) => (
                StoreReply::Driver(Some(row)),
                Session { working: FleetState { drivers: rows, ..working }, ..session },
            ),
            (Err(_), _) => (StoreReply::Driver(None), session),
        },
        StoreRequest::SetAssignmentStatus(assignment_id, status) => match assignment_status_set(
            working.assignments,
            assignment_id,
            status,
            now,
        ) {
            (Ok(row), rows) => (
                StoreReply::Assignment(Some(row)),
                Session { working: FleetState { assignments: rows, ..working }, ..session },
            ),
            (Err(_), _) => (StoreReply::Assignment(None), session),
        },
    }
}

/// Conducting `flow` against the store: each request the flow makes is
/// answered by the store and the answer handed back, for at most `rounds`
/// requests. Gives the flow's outcome and what the store has committed when
/// the flow finishes.
pub open spec fn conducted(
    flow: AssignmentFlow,
    reply: StoreReply,
    session: Session,
    id: u128,
    now: i64,
    rounds: nat,
) -> (Result<VehicleAssignment, AppError>, FleetState)
    decreases rounds,
{
    match flow.next(reply) {
        (_, Step::Finish(outcome)) => (outcome, session.committed),
        (waiting, Step::Ask(request)) => if rounds == 0 {
            (Err(AppError::StoreFailure(StoreFault::UnexpectedReply)), session.committed)
        } else {
            conducted(
                waiting,
                answered(session, request, id, now).0,
                answered(session, request, id, now).1,
                id,
                now,
                (rounds - 1) as nat,
            )
        },
    }
}

/// The most requests a flow makes before it finishes.
pub open spec fn most_rounds() -> nat {
    7
}

/// A create flow conducted against the store gives the outcome, and leaves
/// the store with the tables, that the coordinator's own creation gives.
pub proof fn law_create_flow_matches_coordinator(
    s: FleetState,
    dto: CreateAssignmentDto,
    id: u128,
    now: i64,
)
    ensures
        conducted(
            AssignmentFlow::fresh(Operation::Create(dto)),
            StoreReply::Done,
            Session::at_rest(s),
            id,
            now,
            most_rounds(),
        ) == created(s, dto, id, now),
{
    reveal_with_fuel(conducted, 9);
    lemma_slot(s.vehicles, dto.vehicle_id);
    lemma_slot(s.drivers, dto.driver_id);
}

/// A flow that closes an assignment, conducted against the store, gives the
/// outcome, and leaves the store with the tables, that the coordinator's own
/// completion or cancellation gives.
pub proof fn law_close_flow_matches_coordinator(
    s: FleetState,
    assignment_id: u128,
    target: AssignmentStatus,
    id: u128,
    now: i64,
)
    ensures
        conducted(
            AssignmentFlow::fresh(Operation::Close(assignment_id, target)),
            StoreReply::Done,
            Session::at_rest(s),
            id,
            now,
            most_rounds(),
        ) == closed(s, assignment_id, target, now),
{
    reveal_with_fuel(conducted, 9);
    lemma_slot(s.assignments, assignment_id);
    match assignment_at(s.assignments, assignment_id) {
        Some(a) => {
            lemma_slot(s.vehicles, a.vehicle_id);
            lemma_slot(s.drivers, a.driver_id);
            let j = slot(s.assignments, assignment_id).unwrap();
            lemma_slot_after_update(s.assignments, j, a.with_status(target, now), assignment_id);
        },
        None => {},
    }
}

/// Conducting `flow` against a store that fails once: the request made
/// after `sound` sound answers is not carried out and is answered with
/// `fault`; every other request is answered as usual.
pub open spec fn conducted_with_fault(
    flow: AssignmentFlow,
    reply: StoreReply,
    session: Session,
    id: u128,
    now: i64,
    rounds: nat,
    sound: nat,
    fault: StoreFault,
) -> (Result<VehicleAssignment, AppError>, FleetState)
    decreases rounds,
{
    match flow.next(reply) {
        (_, Step::Finish(outcome)) => (outcome, session.committed),
        (waiting, Step::Ask(request)) => if rounds == 0 {
            (Err(AppError::StoreFailure(StoreFault::UnexpectedReply)), session.committed)
        } else if sound == 0 {
            conducted(waiting, StoreReply::Failed(fault), session, id, now, (rounds - 1) as nat)
        } else {
            conducted_with_fault(
                waiting,
                answered(session, request, id, now).0,
                answered(session, request, id, now).1,
                id,
                now,
                (rounds - 1) as nat,
                (sound - 1) as nat,
                fault,
            )
        },
    }
}

/// For an unknown vehicle the store is asked three things and no more: to
/// open the transaction, for the vehicle, and to roll back. No driver is
/// looked up and nothing is written before the flow ends with the vehicle
/// not found.
pub proof fn law_unknown_vehicle_ends_the_flow(
    dto: CreateAssignmentDto,
    first: StoreReply,
    last: StoreReply,
)
    ensures
        ({
            let idle = AssignmentFlow::fresh(Operation::Create(dto));
            let (beginning, one) = idle.next(first);
            let (checking, two) = beginning.next(StoreReply::Done);
            let (leaving, three) = checking.next(StoreReply::Vehicle(None));
            let (_, four) = leaving.next(last);
            &&& one == Step::Ask(StoreRequest::Begin)
            &&& two == Step::Ask(StoreRequest::LockVehicle(dto.vehicle_id))
            &&& three == Step::Ask(StoreRequest::Rollback)
            &&& four == Step::Finish(Err(AppError::ResourceNotFound(Resource::Vehicle)))
        }),
{
}

/// An upper bound on the requests a flow still makes once it has received
/// the answer it is waiting for at `stage`.
pub open spec fn requests_left(stage: Stage) -> nat {
    match stage {
        Stage::Idle => 7,
        Stage::Beginning => 6,
        Stage::CheckingVehicle => 5,
        Stage::CheckingDriver => 4,
        Stage::CheckingAssignment => 4,
        Stage::Inserting => 3,
        Stage::MarkingAssignment => 3,
        Stage::MarkingVehicle => 2,
        Stage::MarkingDriver => 1,
        Stage::Committing => 0,
        Stage::RollingBack => 0,
        Stage::Finished => 0,
    }
}

/// A flow whose pending request fails ends at once or after a rollback, and
/// the store keeps what it had committed. The outcome is the store's
/// failure, unless the failed request was itself the rollback of a flow that
/// had been refused: then it is that refusal.
proof fn lemma_failure_ends_flow(
    waiting: AssignmentFlow,
    session: Session,
    id: u128,
    now: i64,
    rounds: nat,
    fault: StoreFault,
)
    requires
        waiting.stage != Stage::Idle,
        waiting.stage != Stage::Finished,
        rounds >= requests_left(waiting.stage),
    ensures
        conducted(waiting, StoreReply::Failed(fault), session, id, now, rounds) == (
            if waiting.stage == Stage::RollingBack {
                (AssignmentFlow { stage: Stage::Finished, ..waiting }).outcome()
            } else {
                Err(AppError::StoreFailure(fault))
            },
            session.committed,
        ),
{
    reveal_with_fuel(conducted, 3);
}

/// Conducted from any point on, a flow against a store that fails once ends
/// either exactly as against a sound store, or with the store's failure and
/// the store's committed tables untouched.
proof fn lemma_one_failure(
    flow: AssignmentFlow,
    reply: StoreReply,
    session: Session,
    id: u128,
    now: i64,
    rounds: nat,
    sound: nat,
    fault: StoreFault,
)
    requires
        rounds >= requests_left(flow.stage),
    ensures
        ({
            let smooth = conducted(flow, reply, session, id, now, rounds);
            let rough = conducted_with_fault(flow, reply, session, id, now, rounds, sound, fault);
            rough == smooth || rough == (
                Err::<VehicleAssignment, AppError>(AppError::StoreFailure(fault)),
                session.committed,
            )
        }),
    decreases rounds,
{
    match flow.next(reply) {
        (_, Step::Finish(_)) => {},
        (waiting, Step::Ask(request)) => {
            if rounds > 0 {
                let answer = answered(session, request, id, now).0;
                let then = answered(session, request, id, now).1;
                if sound == 0 {
                    lemma_failure_ends_flow(waiting, session, id, now, (rounds - 1) as nat, fault);
                    if waiting.stage == Stage::RollingBack {
                        reveal_with_fuel(conducted, 2);
                    }
                } else if request == StoreRequest::Commit {
                    reveal_with_fuel(conducted, 2);
                    reveal_with_fuel(conducted_with_fault, 2);
                } else {
                    lemma_one_failure(
                        waiting,
                        answer,
                        then,
                        id,
                        now,
                        (rounds - 1) as nat,
                        (sound - 1) as nat,
                        fault,
                    );
                }
            }
        },
    }
}

/// Nothing is ever half done. If the store fails one request of a flow,
/// whichever it is, the flow ends either exactly as it would have without
/// the failure, or with the store's failure and nothing committed.
pub proof fn law_store_failure_leaves_no_trace(
    s: FleetState,
    operation: Operation,
    id: u128,
    now: i64,
    sound: nat,
    fault: StoreFault,
)
    ensures
        ({
            let smooth = conducted(
                AssignmentFlow::fresh(operation),
                StoreReply::Done,
                Session::at_rest(s),
                id,
                now,
                most_rounds(),
            );
            let rough = conducted_with_fault(
                AssignmentFlow::fresh(operation),
                StoreReply::Done,
                Session::at_rest(s),
                id,
                now,
                most_rounds(),
                sound,
                fault,
            );
            rough == smooth || rough == (
                Err::<VehicleAssignment, AppError>(AppError::StoreFailure(fault)),
                s,
            )
        }),
{
    lemma_one_failure(
        AssignmentFlow::fresh(operation),
        StoreReply::Done,
        Session::at_rest(s),
        id,
        now,
        most_rounds(),
        sound,
        fault,
    );
}

} // verus!
