//! The assignment coordinator: it creates and closes assignments and keeps
//! the vehicle and driver statuses in step with the ledger.
//!
//! Every operation has the three tables to itself for as long as it runs,
//! and either makes all of its writes or none of them: each one checks
//! everything that could refuse it before it writes anything.

use vstd::prelude::*;
use crate::error::{AppError, Resource, StoreFault};
use crate::models::assignment::{AssignmentStatus, CreateAssignmentDto, VehicleAssignment};
use crate::models::driver::{Driver, DriverStatus};
use crate::models::vehicle::{Vehicle, VehicleStatus};
use crate::outside::{new_v4_value, now_micros, version_four};
use crate::repositories::assignment_repo::{
    assignment_at,
    assignment_status_set,
    assignments_of_driver,
    AssignmentRepository,
};
use crate::repositories::driver_repo::{driver_status_set, live_driver, DriverRepository};
use crate::repositories::table::holds;
use crate::repositories::vehicle_repo::{live_vehicle, vehicle_status_set, VehicleRepository};
use crate::services::consistency::{law_close_keeps_consistency, law_create_keeps_consistency};

verus! {

/// The contents of the three tables, taken together.
pub struct FleetState {
    pub assignments: Seq<VehicleAssignment>,
    pub vehicles: Seq<Vehicle>,
    pub drivers: Seq<Driver>,
}

/// Creating an assignment under identifier `id` at instant `now`.
///
/// The request is refused, and nothing changes, when the vehicle is not
/// live, the vehicle is not `Available`, the driver is not live, the driver
/// is not `Available`, the requested initial status is a terminal one, or
/// the ledger already holds `id`: the first of these that applies decides
/// the failure. Otherwise the assignment is entered and the vehicle becomes
/// `Assigned`, the driver `OnDuty`.
pub open spec fn created(s: FleetState, dto: CreateAssignmentDto, id: u128, now: i64) -> (
    Result<VehicleAssignment, AppError>,
    FleetState,
) {
    match live_vehicle(s.vehicles, dto.vehicle_id) {
        None => (Err(AppError::ResourceNotFound(Resource::Vehicle)), s),
        Some(v) => if v.status != VehicleStatus::Available {
            (Err(AppError::ResourceUnavailable(Resource::Vehicle)), s)
        } else {
            match live_driver(s.drivers, dto.driver_id) {
                None => (Err(AppError::ResourceNotFound(Resource::Driver)), s),
                Some(d) => if d.status != DriverStatus::Available {
                    (Err(AppError::ResourceUnavailable(Resource::Driver)), s)
                } else if dto.status.terminal() {
                    (Err(AppError::InvalidStateTransition(dto.status)), s)
                } else if holds(s.assignments, id) {
                    (Err(AppError::StoreFailure(StoreFault::ConstraintViolation)), s)
                } else {
                    (
                        Ok(dto.row(id, now)),
                        FleetState {
                            assignments: s.assignments.push(dto.row(id, now)),
                            vehicles: vehicle_status_set(
                                s.vehicles,
                                dto.vehicle_id,
                                VehicleStatus::Assigned,
                                now,
                            ).1,
                            drivers: driver_status_set(
                                s.drivers,
                                dto.driver_id,
                                DriverStatus::OnDuty,
                                now,
                            ).1,
                        },
                    )
                },
            }
        },
    }
}

/// Closing the assignment under `id` at instant `now` by moving it to the
/// terminal status `target`.
///
/// The request is refused, and nothing changes, when the ledger holds no
/// such assignment, the assignment is already terminal, its vehicle is not
/// live, or its driver is not live: the first of these that applies decides
/// the failure. Otherwise the assignment takes the status `target` and its
/// vehicle and driver become `Available`.
pub open spec fn closed(s: FleetState, id: u128, target: AssignmentStatus, now: i64) -> (
    Result<VehicleAssignment, AppError>,
    FleetState,
) {
    match assignment_at(s.assignments, id) {
        None => (Err(AppError::ResourceNotFound(Resource::Assignment)), s),
        Some(a) => if a.status.terminal() {
            (Err(AppError::InvalidStateTransition(a.status)), s)
        } else if live_vehicle(s.vehicles, a.vehicle_id) is None {
            (Err(AppError::ResourceNotFound(Resource::Vehicle)), s)
        } else if live_driver(s.drivers, a.driver_id) is None {
            (Err(AppError::ResourceNotFound(Resource::Driver)), s)
        } else {
            (
                Ok(a.with_status(target, now)),
                FleetState {
                    assignments: assignment_status_set(s.assignments, id, target, now).1,
                    vehicles: vehicle_status_set(
                        s.vehicles,
                        a.vehicle_id,
                        VehicleStatus::Available,
                        now,
                    ).1,
                    drivers: driver_status_set(
                        s.drivers,
                        a.driver_id,
                        DriverStatus::Available,
                        now,
                    ).1,
                },
            )
        },
    }
}

/// Looking an assignment up: the row under `id`, or a not-found failure.
pub open spec fn fetched(s: FleetState, id: u128) -> Result<VehicleAssignment, AppError> {
    match assignment_at(s.assignments, id) {
        Some(a) => Ok(a),
        None => Err(AppError::ResourceNotFound(Resource::Assignment)),
    }
}

/// The coordinator, holding the ledger and the two gateways it writes
/// through.
pub struct AssignmentService {
    assignment_repo: AssignmentRepository,
    vehicle_repo: VehicleRepository,
    driver_repo: DriverRepository,
}

impl View for AssignmentService {
    type V = FleetState;

    closed spec fn view(&self) -> FleetState {
        FleetState {
            assignments: self.assignment_repo@,
            vehicles: self.vehicle_repo@,
            drivers: self.driver_repo@,
        }
    }
}

impl AssignmentService {
    /// A coordinator over the given ledger and gateways.
    pub fn new(
        assignment_repo: AssignmentRepository,
        vehicle_repo: VehicleRepository,
        driver_repo: DriverRepository,
    ) -> (service: Self)
        ensures
            service@ == (FleetState {
                assignments: assignment_repo@,
                vehicles: vehicle_repo@,
                drivers: driver_repo@,
            }),
    {
        AssignmentService { assignment_repo, vehicle_repo, driver_repo }
    }

    /// The ledger, to read.
    pub fn assignments(&self) -> (repo: &AssignmentRepository)
        ensures
            repo@ == self@.assignments,
    {
        &self.assignment_repo
    }

    /// The vehicle gateway, to read.
    pub fn vehicles(&self) -> (repo: &VehicleRepository)
        ensures
            repo@ == self@.vehicles,
    {
        &self.vehicle_repo
    }

    /// The driver gateway, to read.
    pub fn drivers(&self) -> (repo: &DriverRepository)
        ensures
            repo@ == self@.drivers,
    {
        &self.driver_repo
    }

    /// Gives the ledger and the gateways back, in the order `new` takes
    /// them.
    pub fn into_parts(self) -> (parts: (AssignmentRepository, VehicleRepository, DriverRepository))
        ensures
            parts.0@ == self@.assignments,
            parts.1@ == self@.vehicles,
            parts.2@ == self@.drivers,
    {
        (self.assignment_repo, self.vehicle_repo, self.driver_repo)
    }

    /// Creates an assignment under a fresh random identifier, stamped with
    /// the current time. What the outcome is for the identifier and instant
    /// that were drawn is `create_assignment_with`'s contract.
    pub fn create_assignment(&mut self, dto: CreateAssignmentDto) -> (r: Result<
        VehicleAssignment,
        AppError,
    >)
        ensures
            exists|id: u128, now: i64|
                version_four(id) && (r, final(self)@) == created(old(self)@, dto, id, now),
            old(self)@.consistent() ==> final(self)@.consistent(),
    {
        let id = new_v4_value();
        let now = now_micros();
        self.create_assignment_with(dto, id, now)
    }

    /// Creates an assignment under `id`, stamped `now`.
    pub fn create_assignment_with(&mut self, dto: CreateAssignmentDto, id: u128, now: i64) -> (r:
        Result<VehicleAssignment, AppError>)
        ensures
            (r, final(self)@) == created(old(self)@, dto, id, now),
            old(self)@.consistent() ==> final(self)@.consistent(),
    {
        proof {
            if self@.consistent() {
                law_create_keeps_consistency(self@, dto, id, now);
            }
        }
        let vehicle = match self.vehicle_repo.find_by_id(dto.vehicle_id) {
            Ok(Some(v)) => v,
            Ok(None) => {
                return Err(AppError::ResourceNotFound(Resource::Vehicle));
            },
            Err(e) => {
                return Err(e);
            },
        };
        match vehicle.status {
            VehicleStatus::Available => {},
            _ => {
                return Err(AppError::ResourceUnavailable(Resource::Vehicle));
            },
        }
        let driver = match self.driver_repo.find_by_id(dto.driver_id) {
            Ok(Some(d)) => d,
            Ok(None) => {
                return Err(AppError::ResourceNotFound(Resource::Driver));
            },
            Err(e) => {
                return Err(e);
            },
        };
        match driver.status {
            DriverStatus::Available => {},
            _ => {
                return Err(AppError::ResourceUnavailable(Resource::Driver));
            },
        }
        if dto.status.is_terminal() {
            return Err(AppError::InvalidStateTransition(dto.status));
        }
        let assignment = match self.assignment_repo.create_with(id, dto, now) {
            Ok(a) => a,
            Err(e) => {
                return Err(e);
            },
        };
        match self.vehicle_repo.update_status_at(dto.vehicle_id, VehicleStatus::Assigned, now) {
            Ok(_) => {},
            Err(e) => {
                return Err(e);
            },
        }
        match self.driver_repo.update_status_at(dto.driver_id, DriverStatus::OnDuty, now) {
            Ok(_) => {},
            Err(e) => {
                return Err(e);
            },
        }
        Ok(assignment)
    }

    /// Completes the assignment under `id`, stamped with the current time.
    /// What the outcome is for the instant that was read is
    /// `complete_assignment_at`'s contract.
    pub fn complete_assignment(&mut self, id: u128) -> (r: Result<VehicleAssignment, AppError>)
        ensures
            exists|now: i64|
                (r, final(self)@) == closed(old(self)@, id, AssignmentStatus::Completed, now),
            old(self)@.consistent() ==> final(self)@.consistent(),
    {
        let now = now_micros();
        self.complete_assignment_at(id, now)
    }

    /// Completes the assignment under `id`, stamped `now`: the assignment
    /// becomes `Completed` and its vehicle and driver `Available`.
    pub fn complete_assignment_at(&mut self, id: u128, now: i64) -> (r: Result<
        VehicleAssignment,
        AppError,
    >)
        ensures
            (r, final(self)@) == closed(old(self)@, id, AssignmentStatus::Completed, now),
            old(self)@.consistent() ==> final(self)@.consistent(),
    {
        proof {
            if self@.consistent() {
                law_close_keeps_consistency(self@, id, AssignmentStatus::Completed, now);
            }
        }
        self.close(id, AssignmentStatus::Completed, now)
    }

    /// Cancels the assignment under `id`, stamped with the current time.
    /// What the outcome is for the instant that was read is
    /// `cancel_assignment_at`'s contract.
    pub fn cancel_assignment(&mut self, id: u128) -> (r: Result<VehicleAssignment, AppError>)
        ensures
            exists|now: i64|
                (r, final(self)@) == closed(old(self)@, id, AssignmentStatus::Cancelled, now),
            old(self)@.consistent() ==> final(self)@.consistent(),
    {
        let now = now_micros();
        self.cancel_assignment_at(id, now)
    }

    /// Cancels the assignment under `id`, stamped `now`: the assignment
    /// becomes `Cancelled` and, as on completion, its vehicle and driver
    /// `Available`.
    pub fn cancel_assignment_at(&mut self, id: u128, now: i64) -> (r: Result<
        VehicleAssignment,
        AppError,
    >)
        ensures
            (r, final(self)@) == closed(old(self)@, id, AssignmentStatus::Cancelled, now),
            old(self)@.consistent() ==> final(self)@.consistent(),
    {
        proof {
            if self@.consistent() {
                law_close_keeps_consistency(self@, id, AssignmentStatus::Cancelled, now);
            }
        }
        self.close(id, AssignmentStatus::Cancelled, now)
    }

    fn close(&mut self, id: u128, target: AssignmentStatus, now: i64) -> (r: Result<
        VehicleAssignment,
        AppError,
    >)
        ensures
            (r, final(self)@) == closed(old(self)@, id, target, now),
    {
        let assignment = match self.assignment_repo.find_by_id(id) {
            Ok(Some(a)) => a,
            Ok(None) => {
                return Err(AppError::ResourceNotFound(Resource::Assignment));
            },
            Err(e) => {
                return Err(e);
            },
        };
        if assignment.status.is_terminal() {
            return Err(AppError::InvalidStateTransition(assignment.status));
        }
        match self.vehicle_repo.find_by_id(assignment.vehicle_id) {
            Ok(Some(_)) => {},
            Ok(None) => {
                return Err(AppError::ResourceNotFound(Resource::Vehicle));
            },
            Err(e) => {
                return Err(e);
            },
        }
        match self.driver_repo.find_by_id(assignment.driver_id) {
            Ok(Some(_)) => {},
            Ok(None) => {
                return Err(AppError::ResourceNotFound(Resource::Driver));
            },
            Err(e) => {
                return Err(e);
            },
        }
        let updated = match self.assignment_repo.update_status_at(id, target, now) {
            Ok(a) => a,
            Err(e) => {
                return Err(e);
            },
        };
        match self.vehicle_repo.update_status_at(assignment.vehicle_id, VehicleStatus::Available, now) {
            Ok(_) => {},
            Err(e) => {
                return Err(e);
            },
        }
        match self.driver_repo.update_status_at(assignment.driver_id, DriverStatus::Available, now) {
            Ok(_) => {},
            Err(e) => {
                return Err(e);
            },
        }
        Ok(updated)
    }

    /// The assignment under `id`.
    pub fn get_assignment(&self, id: u128) -> (r: Result<VehicleAssignment, AppError>)
        ensures
            r == fetched(self@, id),
    {
        match self.assignment_repo.find_by_id(id) {
            Ok(row) => Resource::Assignment.required(row),
            Err(e) => Err(e),
        }
    }

    /// Every assignment, in the order the assignments were created. With an
    /// empty ledger this is the empty list, not a failure.
    pub fn list_assignments(&self) -> (r: Result<Vec<VehicleAssignment>, AppError>)
        ensures
            r is Ok,
            r->Ok_0@ == self@.assignments,
    {
        self.assignment_repo.find_all()
    }

    /// Every assignment of driver `driver_id`, in the order the assignments
    /// were created. For a driver without assignments, known or not, this is
    /// the empty list, not a failure.
    pub fn get_assignments_by_driver(&self, driver_id: u128) -> (r: Result<
        Vec<VehicleAssignment>,
        AppError,
    >)
        ensures
            r is Ok,
            r->Ok_0@ == assignments_of_driver(self@.assignments, driver_id),
    {
        self.assignment_repo.find_by_driver_id(driver_id)
    }
}

} // verus!
