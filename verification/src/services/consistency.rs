//! When the three tables agree with each other, and the proof that the
//! coordinator keeps them so.
//!
//! The ledger is the authority on who holds what. The `Assigned` status of a
//! vehicle and the `OnDuty` status of a driver only repeat what the ledger
//! says, and this module states what "repeat" means.

use vstd::prelude::*;
use crate::models::assignment::{AssignmentStatus, CreateAssignmentDto};
use crate::repositories::assignment_repo::{
    holds_driver,
    holds_vehicle,
    lemma_tally_push,
    lemma_tally_witness,
    lemma_tally_update,
    open_on_driver,
    open_on_vehicle,
};
use crate::models::driver::DriverStatus;
use crate::models::vehicle::VehicleStatus;
use crate::repositories::table::{
    distinct,
    lemma_slot,
    lemma_slot_after_push,
    lemma_slot_after_update,
    slot,
};
use crate::services::assignment_service::{closed, created, AssignmentService, FleetState};

verus! {

impl FleetState {
    /// The tables agree: no identifier is used twice within a table, no
    /// vehicle and no driver is held by more than one open assignment, a
    /// vehicle is `Assigned` exactly when one open assignment holds it, and
    /// a driver is `OnDuty` exactly when one open assignment holds them.
    pub open spec fn consistent(self) -> bool {
        &&& distinct(self.assignments)
        &&& distinct(self.vehicles)
        &&& distinct(self.drivers)
        &&& forall|vehicle_id: u128| #[trigger] open_on_vehicle(self.assignments, vehicle_id) <= 1
        &&& forall|driver_id: u128| #[trigger] open_on_driver(self.assignments, driver_id) <= 1
        &&& forall|i: int|
            0 <= i < self.vehicles.len() ==> ((#[trigger] self.vehicles[i]).status
                == VehicleStatus::Assigned <==> open_on_vehicle(self.assignments, self.vehicles[i].id)
                == 1)
        &&& forall|i: int|
            0 <= i < self.drivers.len() ==> ((#[trigger] self.drivers[i]).status
                == DriverStatus::OnDuty <==> open_on_driver(self.assignments, self.drivers[i].id) == 1)
    }
}

impl AssignmentService {
    /// Whether the three tables agree, found out by going through them: the
    /// statuses are held against what the ledger says.
    pub fn is_consistent(&self) -> (r: bool)
        ensures
            r == self@.consistent(),
    {
        let ledger = self.assignments();
        let vehicles = self.vehicles();
        let drivers = self.drivers();
        if !ledger.has_distinct_ids() || !vehicles.has_distinct_ids() || !drivers.has_distinct_ids() {
            return false;
        }
        let mut i: usize = 0;
        while i < ledger.len()
            invariant
                ledger@ == self@.assignments,
                i <= ledger@.len(),
                forall|a: int|
                    0 <= a < i && (#[trigger] ledger@[a]).open() ==> open_on_vehicle(
                        ledger@,
                        ledger@[a].vehicle_id,
                    ) <= 1 && open_on_driver(ledger@, ledger@[a].driver_id) <= 1,
            decreases ledger@.len() - i,
        {
            let row = ledger.row(i);
            if row.is_open() {
                if ledger.count_open_on_vehicle(row.vehicle_id) > 1 {
                    return false;
                }
                if ledger.count_open_on_driver(row.driver_id) > 1 {
                    return false;
                }
            }
            i += 1;
        }
        proof {
            assert forall|vehicle_id: u128| #[trigger] open_on_vehicle(ledger@, vehicle_id) <= 1 by {
                if open_on_vehicle(ledger@, vehicle_id) > 0 {
                    lemma_tally_witness(ledger@, holds_vehicle(vehicle_id));
                    let a = choose|a: int|
                        0 <= a < ledger@.len() && holds_vehicle(vehicle_id)(#[trigger] ledger@[a]);
                }
            }
            assert forall|driver_id: u128| #[trigger] open_on_driver(ledger@, driver_id) <= 1 by {
                if open_on_driver(ledger@, driver_id) > 0 {
                    lemma_tally_witness(ledger@, holds_driver(driver_id));
                    let a = choose|a: int|
                        0 <= a < ledger@.len() && holds_driver(driver_id)(#[trigger] ledger@[a]);
                }
            }
        }
        let mut k: usize = 0;
        while k < vehicles.len()
            invariant
                ledger@ == self@.assignments,
                vehicles@ == self@.vehicles,
                k <= vehicles@.len(),
                forall|a: int|
                    0 <= a < k ==> ((#[trigger] vehicles@[a]).status == VehicleStatus::Assigned
                        <==> open_on_vehicle(ledger@, vehicles@[a].id) == 1),
            decreases vehicles@.len() - k,
        {
            let row = vehicles.row(k);
            let held = ledger.count_open_on_vehicle(row.id) == 1;
            let marked = match row.status {
                VehicleStatus::Assigned => true,
                _ => false,
            };
            if held != marked {
                return false;
            }
            k += 1;
        }
        let mut m: usize = 0;
        while m < drivers.len()
            invariant
                ledger@ == self@.assignments,
                drivers@ == self@.drivers,
                vehicles@ == self@.vehicles,
                m <= drivers@.len(),
                forall|a: int|
                    0 <= a < m ==> ((#[trigger] drivers@[a]).status == DriverStatus::OnDuty
                        <==> open_on_driver(ledger@, drivers@[a].id) == 1),
            decreases drivers@.len() - m,
        {
            let row = drivers.row(m);
            let held = ledger.count_open_on_driver(row.id) == 1;
            let marked = match row.status {
                DriverStatus::OnDuty => true,
                _ => false,
            };
            if held != marked {
                return false;
            }
            m += 1;
        }
        true
    }
}

/// The tables of a fleet in which nothing has happened yet agree.
pub proof fn law_empty_fleet_is_consistent()
    ensures
        (FleetState {
            assignments: Seq::empty(),
            vehicles: Seq::empty(),
            drivers: Seq::empty(),
        }).consistent(),
{
}

/// In tables that agree, no vehicle and no driver is ever held by more than
/// one open assignment.
pub proof fn law_at_most_one_open_assignment(s: FleetState, vehicle_id: u128, driver_id: u128)
    requires
        s.consistent(),
    ensures
        open_on_vehicle(s.assignments, vehicle_id) <= 1,
        open_on_driver(s.assignments, driver_id) <= 1,
{
}

/// Creating an assignment, whether it succeeds or is refused, leaves tables
/// that agreed in agreement.
pub proof fn law_create_keeps_consistency(s: FleetState, dto: CreateAssignmentDto, id: u128, now: i64)
    requires
        s.consistent(),
    ensures
        created(s, dto, id, now).1.consistent(),
{
    let (outcome, after) = created(s, dto, id, now);
    if outcome is Ok {
        let row = dto.row(id, now);
        lemma_slot(s.vehicles, dto.vehicle_id);
        lemma_slot(s.drivers, dto.driver_id);
        let k = slot(s.vehicles, dto.vehicle_id).unwrap();
        let m = slot(s.drivers, dto.driver_id).unwrap();
        let vehicle = s.vehicles[k].with_status(VehicleStatus::Assigned, now);
        let driver = s.drivers[m].with_status(DriverStatus::OnDuty, now);
        lemma_slot_after_push(s.assignments, row, id);
        lemma_slot_after_update(s.vehicles, k, vehicle, dto.vehicle_id);
        lemma_slot_after_update(s.drivers, m, driver, dto.driver_id);
        assert forall|vehicle_id: u128| #[trigger]
            open_on_vehicle(after.assignments, vehicle_id) == open_on_vehicle(
                s.assignments,
                vehicle_id,
            ) + if vehicle_id == dto.vehicle_id {
                1nat
            } else {
                0nat
            } by {
            lemma_tally_push(s.assignments, row, holds_vehicle(vehicle_id));
        }
        assert forall|driver_id: u128| #[trigger]
            open_on_driver(after.assignments, driver_id) == open_on_driver(s.assignments, driver_id)
                + if driver_id == dto.driver_id {
                1nat
            } else {
                0nat
            } by {
            lemma_tally_push(s.assignments, row, holds_driver(driver_id));
        }
    }
}

/// Completing or cancelling an assignment, whether it succeeds or is
/// refused, leaves tables that agreed in agreement.
pub proof fn law_close_keeps_consistency(s: FleetState, id: u128, target: AssignmentStatus, now: i64)
    requires
        s.consistent(),
        target.terminal(),
    ensures
        closed(s, id, target, now).1.consistent(),
{
    let (outcome, after) = closed(s, id, target, now);
    if outcome is Ok {
        lemma_slot(s.assignments, id);
        let j = slot(s.assignments, id).unwrap();
        let before = s.assignments[j];
        let row = before.with_status(target, now);
        lemma_slot(s.vehicles, before.vehicle_id);
        lemma_slot(s.drivers, before.driver_id);
        let k = slot(s.vehicles, before.vehicle_id).unwrap();
        let m = slot(s.drivers, before.driver_id).unwrap();
        let vehicle = s.vehicles[k].with_status(VehicleStatus::Available, now);
        let driver = s.drivers[m].with_status(DriverStatus::Available, now);
        lemma_slot_after_update(s.assignments, j, row, id);
        lemma_slot_after_update(s.vehicles, k, vehicle, before.vehicle_id);
        lemma_slot_after_update(s.drivers, m, driver, before.driver_id);
        assert forall|vehicle_id: u128| #[trigger]
            open_on_vehicle(after.assignments, vehicle_id) + (if vehicle_id == before.vehicle_id {
                1nat
            } else {
                0nat
            }) == open_on_vehicle(s.assignments, vehicle_id) by {
            lemma_tally_update(s.assignments, j, row, holds_vehicle(vehicle_id));
        }
        assert forall|driver_id: u128| #[trigger]
            open_on_driver(after.assignments, driver_id) + (if driver_id == before.driver_id {
                1nat
            } else {
                0nat
            }) == open_on_driver(s.assignments, driver_id) by {
            lemma_tally_update(s.assignments, j, row, holds_driver(driver_id));
        }
        assert(open_on_vehicle(s.assignments, before.vehicle_id) == 1) by {
            assert(open_on_vehicle(after.assignments, before.vehicle_id) >= 0);
        }
        assert(open_on_driver(s.assignments, before.driver_id) == 1) by {
            assert(open_on_driver(after.assignments, before.driver_id) >= 0);
        }
    }
}

/// One operation of the coordinator, with the identifier and instant drawn
/// for it.
pub enum Operated {
    Create { dto: CreateAssignmentDto, id: u128, now: i64 },
    Complete { id: u128, now: i64 },
    Cancel { id: u128, now: i64 },
}

/// The tables after the operations `done`, carried out one after the other.
pub open spec fn after_all(s: FleetState, done: Seq<Operated>) -> FleetState
    decreases done.len(),
{
    if done.len() == 0 {
        s
    } else {
        let before = after_all(s, done.drop_last());
        match done.last() {
            Operated::Create { dto, id, now } => created(before, dto, id, now).1,
            Operated::Complete { id, now } => closed(before, id, AssignmentStatus::Completed, now).1,
            Operated::Cancel { id, now } => closed(before, id, AssignmentStatus::Cancelled, now).1,
        }
    }
}

/// Whatever the coordinator is asked to do, and in whatever order, tables
/// that agreed go on agreeing: at no point is a vehicle or a driver held by
/// more than one open assignment.
pub proof fn law_consistency_is_kept_for_good(
    s: FleetState,
    done: Seq<Operated>,
    vehicle_id: u128,
    driver_id: u128,
)
    requires
        s.consistent(),
    ensures
        after_all(s, done).consistent(),
        open_on_vehicle(after_all(s, done).assignments, vehicle_id) <= 1,
        open_on_driver(after_all(s, done).assignments, driver_id) <= 1,
    decreases done.len(),
{
    if done.len() > 0 {
        law_consistency_is_kept_for_good(s, done.drop_last(), vehicle_id, driver_id);
        let before = after_all(s, done.drop_last());
        match done.last() {
            Operated::Create { dto, id, now } => law_create_keeps_consistency(before, dto, id, now),
            Operated::Complete { id, now } => law_close_keeps_consistency(
                before,
                id,
                AssignmentStatus::Completed,
                now,
            ),
            Operated::Cancel { id, now } => law_close_keeps_consistency(
                before,
                id,
                AssignmentStatus::Cancelled,
                now,
            ),
        }
    }
}

} // verus!
