//! The coordinator's two operations as a conversation with a store that is
//! somewhere else: the flow says what to ask the store next, the caller asks
//! it and hands back the answer.
//!
//! Every operation runs inside one serializable transaction of the store.
//! The flow opens it first, reads the rows it decides on under a lock, and
//! ends it with a commit on success and a rollback on any refusal or
//! failure. So the store never keeps a part of an operation, and operations
//! that overlap in time leave what they would have left one after the other
//! in some order; one that the store cannot fit into such an order fails
//! like any other request the store cannot carry out.

use vstd::prelude::*;
use crate::error::{AppError, Resource, StoreFault};
use crate::models::assignment::{AssignmentStatus, CreateAssignmentDto, VehicleAssignment};
use crate::models::driver::{Driver, DriverStatus};
use crate::models::vehicle::{Vehicle, VehicleStatus};

verus! {

/// One thing the flow asks of the store.
#[derive(Clone, Copy, Debug, PartialEq, Eq, Structural)]
pub enum StoreRequest {
    /// Open a transaction, serializable against all others.
    Begin,
    /// Read the live vehicle under the identifier and lock its row until the
    /// transaction ends.
    LockVehicle(u128),
    /// Read the live driver under the identifier and lock its row until the
    /// transaction ends.
    LockDriver(u128),
    /// Read the assignment under the identifier and lock its row until the
    /// transaction ends.
    LockAssignment(u128),
    /// Enter a new assignment under an identifier of the store's choosing.
    InsertAssignment(CreateAssignmentDto),
    /// Set the status of the live vehicle under the identifier.
    SetVehicleStatus(u128, VehicleStatus),
    /// Set the status of the live driver under the identifier.
    SetDriverStatus(u128, DriverStatus),
    /// Set the status of the assignment under the identifier.
    SetAssignmentStatus(u128, AssignmentStatus),
    /// Make the transaction's writes permanent and end it.
    Commit,
    /// Undo the transaction's writes and end it.
    Rollback,
}

/// What the store answered.
#[derive(Clone, Debug, PartialEq, Eq)]
pub enum StoreReply {
    /// The transaction was opened, committed or rolled back as asked.
    Done,
    /// The vehicle row read, or the row as written; `None` when no live row
    /// is under the identifier.
    Vehicle(Option<Vehicle>),
    /// The driver row read, or the row as written; `None` when no live row
    /// is under the identifier.
    Driver(Option<Driver>),
    /// The assignment row read, or the row as written; `None` when no row is
    /// under the identifier.
    Assignment(Option<VehicleAssignment>),
    /// The store could not carry the request out.
    Failed(StoreFault),
}

/// What the caller is to do next.
#[derive(Clone, Copy, Debug, PartialEq, Eq)]
pub enum Step {
    /// Ask the store this, and come back with its answer.
    Ask(StoreRequest),
    /// The operation is over, with this outcome.
    Finish(Result<VehicleAssignment, AppError>),
}

/// The operation a flow carries out.
#[derive(Clone, Copy, Debug, PartialEq, Eq, Structural)]
pub enum Operation {
    /// Create the assignment described.
    Create(CreateAssignmentDto),
    /// Move the assignment under the identifier to the terminal status.
    Close(u128, AssignmentStatus),
}

/// What the flow asked last, and so which answer it is waiting for.
#[derive(Clone, Copy, Debug, PartialEq, Eq, Structural)]
pub enum Stage {
    Idle,
    Beginning,
    CheckingVehicle,
    CheckingDriver,
    CheckingAssignment,
    Inserting,
    MarkingAssignment,
    MarkingVehicle,
    MarkingDriver,
    Committing,
    RollingBack,
    Finished,
}

/// One operation under way.
#[derive(Clone, Copy, Debug, PartialEq, Eq, Structural)]
pub struct AssignmentFlow {
    pub operation: Operation,
    pub stage: Stage,
    /// The assignment as the store last returned it.
    pub assignment: Option<VehicleAssignment>,
    /// Why the operation is being abandoned.
    pub failure: Option<AppError>,
}

/// The failure a reply stands for when it is not the answer that was asked
/// for: the store's own fault if it reported one, and otherwise that it
/// answered beside the question.
pub open spec fn fault_of(reply: StoreReply) -> AppError {
    match reply {
        StoreReply::Failed(fault) => AppError::StoreFailure(fault),
        _ => AppError::StoreFailure(StoreFault::UnexpectedReply),
    }
}

impl AssignmentFlow {
    /// A flow that has asked nothing yet.
    pub open spec fn fresh(operation: Operation) -> AssignmentFlow {
        AssignmentFlow { operation, stage: Stage::Idle, assignment: None, failure: None }
    }

    /// Go on by asking `request`.
    pub open spec fn asking(self, stage: Stage, request: StoreRequest) -> (AssignmentFlow, Step) {
        (AssignmentFlow { stage, ..self }, Step::Ask(request))
    }

    /// Abandon the operation inside its transaction: roll back first.
    pub open spec fn failing(self, error: AppError) -> (AssignmentFlow, Step) {
        (
            AssignmentFlow { stage: Stage::RollingBack, failure: Some(error), ..self },
            Step::Ask(StoreRequest::Rollback),
        )
    }

    /// The outcome of a flow that is over.
    pub open spec fn outcome(self) -> Result<VehicleAssignment, AppError> {
        match self.failure {
            Some(error) => Err(error),
            None => match self.assignment {
                Some(assignment) => Ok(assignment),
                None => Err(AppError::StoreFailure(StoreFault::UnexpectedReply)),
            },
        }
    }

    /// End the operation outside any transaction.
    pub open spec fn ending(self, failure: Option<AppError>) -> (AssignmentFlow, Step) {
        (
            AssignmentFlow { stage: Stage::Finished, failure, ..self },
            Step::Finish((AssignmentFlow { stage: Stage::Finished, failure, ..self }).outcome()),
        )
    }

    /// The status the operation gives its driver.
    pub open spec fn driver_target(self) -> DriverStatus {
        match self.operation {
            Operation::Create(_) => DriverStatus::OnDuty,
            Operation::Close(_, _) => DriverStatus::Available,
        }
    }

    /// The driver the operation writes to: the one the request names, or
    /// the one the assignment read from the ledger refers to.
    pub open spec fn driver_id(self) -> Option<u128> {
        match self.operation {
            Operation::Create(dto) => Some(dto.driver_id),
            Operation::Close(_, _) => match self.assignment {
                Some(assignment) => Some(assignment.driver_id),
                None => None,
            },
        }
    }

    /// The flow after `reply`, and what to do next.
    ///
    /// Creating: open the transaction; read the vehicle, which must be live
    /// and `Available`; read the driver, likewise; the initial status must
    /// not be terminal; insert the assignment; mark the vehicle `Assigned`;
    /// mark the driver `OnDuty`; commit.
    ///
    /// Closing: open the transaction; read the assignment, which must exist
    /// and be open; give it its terminal status; mark its vehicle
    /// `Available`; mark its driver `Available`; commit.
    ///
    /// The first check that fails, and any answer that is not the one asked
    /// for, ends the operation with a rollback and that failure.
    pub open spec fn next(self, reply: StoreReply) -> (AssignmentFlow, Step) {
        match self.stage {
            Stage::Idle => self.asking(Stage::Beginning, StoreRequest::Begin),
            Stage::Beginning => match reply {
                StoreReply::Done => match self.operation {
                    Operation::Create(dto) => self.asking(
                        Stage::CheckingVehicle,
                        StoreRequest::LockVehicle(dto.vehicle_id),
                    ),
                    Operation::Close(id, _) => self.asking(
                        Stage::CheckingAssignment,
                        StoreRequest::LockAssignment(id),
                    ),
                },
                _ => self.ending(Some(fault_of(reply))),
            },
            Stage::CheckingVehicle => match (self.operation, reply) {
                (Operation::Create(dto), StoreReply::Vehicle(Some(vehicle))) => if vehicle.status
                    == VehicleStatus::Available {
                    self.asking(Stage::CheckingDriver, StoreRequest::LockDriver(dto.driver_id))
                } else {
                    self.failing(AppError::ResourceUnavailable(Resource::Vehicle))
                },
                (Operation::Create(_), StoreReply::Vehicle(None)) => self.failing(
                    AppError::ResourceNotFound(Resource::Vehicle),
                ),
                _ => self.failing(fault_of(reply)),
            },
            Stage::CheckingDriver => match (self.operation, reply) {
                (Operation::Create(dto), StoreReply::Driver(Some(driver))) => if driver.status
                    != DriverStatus::Available {
                    self.failing(AppError::ResourceUnavailable(Resource::Driver))
                } else if dto.status.terminal() {
                    self.failing(AppError::InvalidStateTransition(dto.status))
                } else {
                    self.asking(Stage::Inserting, StoreRequest::InsertAssignment(dto))
                },
                (Operation::Create(_), StoreReply::Driver(None)) => self.failing(
                    AppError::ResourceNotFound(Resource::Driver),
                ),
                _ => self.failing(fault_of(reply)),
            },
            Stage::Inserting => match (self.operation, reply) {
                (Operation::Create(dto), StoreReply::Assignment(Some(assignment))) => (
                    AssignmentFlow { assignment: Some(assignment), ..self }
                ).asking(
                    Stage::MarkingVehicle,
                    StoreRequest::SetVehicleStatus(dto.vehicle_id, VehicleStatus::Assigned),
                ),
                _ => self.failing(fault_of(reply)),
            },
            Stage::CheckingAssignment => match (self.operation, reply) {
                (Operation::Close(id, target), StoreReply::Assignment(Some(assignment))) => if assignment.status.terminal() {
                    self.failing(AppError::InvalidStateTransition(assignment.status))
                } else {
                    (AssignmentFlow { assignment: Some(assignment), ..self }).asking(
                        Stage::MarkingAssignment,
                        StoreRequest::SetAssignmentStatus(id, target),
                    )
                },
                (Operation::Close(_, _), StoreReply::Assignment(None)) => self.failing(
                    AppError::ResourceNotFound(Resource::Assignment),
                ),
                _ => self.failing(fault_of(reply)),
            },
            Stage::MarkingAssignment => match (self.operation, reply) {
                (Operation::Close(_, _), StoreReply::Assignment(Some(assignment))) => (
                    AssignmentFlow { assignment: Some(assignment), ..self }
                ).asking(
                    Stage::MarkingVehicle,
                    StoreRequest::SetVehicleStatus(assignment.vehicle_id, VehicleStatus::Available),
                ),
                (Operation::Close(_, _), StoreReply::Assignment(None)) => self.failing(
                    AppError::ResourceNotFound(Resource::Assignment),
                ),
                _ => self.failing(fault_of(reply)),
            },
            Stage::MarkingVehicle => match (self.driver_id(), reply) {
                (Some(driver_id), StoreReply::Vehicle(Some(_))) => self.asking(
                    Stage::MarkingDriver,
                    StoreRequest::SetDriverStatus(driver_id, self.driver_target()),
                ),
                (Some(_), StoreReply::Vehicle(None)) => self.failing(
                    AppError::ResourceNotFound(Resource::Vehicle),
                ),
                _ => self.failing(fault_of(reply)),
            },
            Stage::MarkingDriver => match reply {
                StoreReply::Driver(Some(_)) => self.asking(Stage::Committing, StoreRequest::Commit),
                StoreReply::Driver(None) => self.failing(AppError::ResourceNotFound(Resource::Driver)),
                _ => self.failing(fault_of(reply)),
            },
            Stage::Committing => match reply {
                StoreReply::Done => self.ending(None),
                _ => self.ending(Some(fault_of(reply))),
            },
            Stage::RollingBack => self.ending(self.failure),
            Stage::Finished => self.ending(self.failure),
        }
    }

    /// A flow that will create the assignment `dto` describes.
    pub fn create(dto: CreateAssignmentDto) -> (flow: AssignmentFlow)
        ensures
            flow == AssignmentFlow::fresh(Operation::Create(dto)),
    {
        AssignmentFlow {
            operation: Operation::Create(dto),
            stage: Stage::Idle,
            assignment: None,
            failure: None,
        }
    }

    /// A flow that will complete the assignment under `id`.
    pub fn complete(id: u128) -> (flow: AssignmentFlow)
        ensures
            flow == AssignmentFlow::fresh(Operation::Close(id, AssignmentStatus::Completed)),
    {
        AssignmentFlow {
            operation: Operation::Close(id, AssignmentStatus::Completed),
            stage: Stage::Idle,
            assignment: None,
            failure: None,
        }
    }

    /// A flow that will cancel the assignment under `id`.
    pub fn cancel(id: u128) -> (flow: AssignmentFlow)
        ensures
            flow == AssignmentFlow::fresh(Operation::Close(id, AssignmentStatus::Cancelled)),
    {
        AssignmentFlow {
            operation: Operation::Close(id, AssignmentStatus::Cancelled),
            stage: Stage::Idle,
            assignment: None,
            failure: None,
        }
    }

    fn ask(self, stage: Stage, request: StoreRequest) -> (r: (AssignmentFlow, Step))
        ensures
            r == self.asking(stage, request),
    {
        (
            AssignmentFlow {
                operation: self.operation,
                stage,
                assignment: self.assignment,
                failure: self.failure,
            },
            Step::Ask(request),
        )
    }

    fn fail(self, error: AppError) -> (r: (AssignmentFlow, Step))
        ensures
            r == self.failing(error),
    {
        (
            AssignmentFlow {
                operation: self.operation,
                stage: Stage::RollingBack,
                assignment: self.assignment,
                failure: Some(error),
            },
            Step::Ask(StoreRequest::Rollback),
        )
    }

    fn end(self, failure: Option<AppError>) -> (r: (AssignmentFlow, Step))
        ensures
            r == self.ending(failure),
    {
        let outcome = match failure {
            Some(error) => Err(error),
            None => match self.assignment {
                Some(assignment) => Ok(assignment),
                None => Err(AppError::StoreFailure(StoreFault::UnexpectedReply)),
            },
        };
        (
            AssignmentFlow {
                operation: self.operation,
                stage: Stage::Finished,
                assignment: self.assignment,
                failure,
            },
            Step::Finish(outcome),
        )
    }

    fn keep(self, assignment: VehicleAssignment) -> (flow: AssignmentFlow)
        ensures
            flow == (AssignmentFlow { assignment: Some(assignment), ..self }),
    {
        AssignmentFlow {
            operation: self.operation,
            stage: self.stage,
            assignment: Some(assignment),
            failure: self.failure,
        }
    }

    fn target_driver(&self) -> (r: (Option<u128>, DriverStatus))
        ensures
            r == (self.driver_id(), self.driver_target()),
    {
        match self.operation {
            Operation::Create(dto) => (Some(dto.driver_id), DriverStatus::OnDuty),
            Operation::Close(_, _) => match self.assignment {
                Some(assignment) => (Some(assignment.driver_id), DriverStatus::Available),
                None => (None, DriverStatus::Available),
            },
        }
    }

    /// Takes the store's answer to what was asked last and says what to do
    /// next. The first call, on a flow that has asked nothing yet, takes any
    /// reply and ignores it.
    pub fn step(self, reply: StoreReply) -> (r: (AssignmentFlow, Step))
        ensures
            r == self.next(reply),
    {
        match self.stage {
            Stage::Idle => self.ask(Stage::Beginning, StoreRequest::Begin),
            Stage::Beginning => match reply {
                StoreReply::Done => match self.operation {
                    Operation::Create(dto) => self.ask(
                        Stage::CheckingVehicle,
                        StoreRequest::LockVehicle(dto.vehicle_id),
                    ),
                    Operation::Close(id, _) => self.ask(
                        Stage::CheckingAssignment,
                        StoreRequest::LockAssignment(id),
                    ),
                },
                other => self.end(Some(fault(&other))),
            },
            Stage::CheckingVehicle => match (self.operation, reply) {
                (Operation::Create(dto), StoreReply::Vehicle(Some(vehicle))) => match vehicle.status {
                    VehicleStatus::Available => self.ask(
                        Stage::CheckingDriver,
                        StoreRequest::LockDriver(dto.driver_id),
                    ),
                    _ => self.fail(AppError::ResourceUnavailable(Resource::Vehicle)),
                },
                (Operation::Create(_), StoreReply::Vehicle(None)) => self.fail(
                    AppError::ResourceNotFound(Resource::Vehicle),
                ),
                (_, other) => self.fail(fault(&other)),
            },
            Stage::CheckingDriver => match (self.operation, reply) {
                (Operation::Create(dto), StoreReply::Driver(Some(driver))) => match driver.status {
                    DriverStatus::Available => if dto.status.is_terminal() {
                        self.fail(AppError::InvalidStateTransition(dto.status))
                    } else {
                        self.ask(Stage::Inserting, StoreRequest::InsertAssignment(dto))
                    },
                    _ => self.fail(AppError::ResourceUnavailable(Resource::Driver)),
                },
                (Operation::Create(_), StoreReply::Driver(None)) => self.fail(
                    AppError::ResourceNotFound(Resource::Driver),
                ),
                (_, other) => self.fail(fault(&other)),
            },
            Stage::Inserting => match (self.operation, reply) {
                (Operation::Create(dto), StoreReply::Assignment(Some(assignment))) => self.keep(
                    assignment,
                ).ask(
                    Stage::MarkingVehicle,
                    StoreRequest::SetVehicleStatus(dto.vehicle_id, VehicleStatus::Assigned),
                ),
                (_, other) => self.fail(fault(&other)),
            },
            Stage::CheckingAssignment => match (self.operation, reply) {
                (Operation::Close(id, target), StoreReply::Assignment(Some(assignment))) => if assignment.status.is_terminal() {
                    self.fail(AppError::InvalidStateTransition(assignment.status))
                } else {
                    self.keep(assignment).ask(
                        Stage::MarkingAssignment,
                        StoreRequest::SetAssignmentStatus(id, target),
                    )
                },
                (Operation::Close(_, _), StoreReply::Assignment(None)) => self.fail(
                    AppError::ResourceNotFound(Resource::Assignment),
                ),
                (_, other) => self.fail(fault(&other)),
            },
            Stage::MarkingAssignment => match (self.operation, reply) {
                (Operation::Close(_, _), StoreReply::Assignment(Some(assignment))) => self.keep(
                    assignment,
                ).ask(
                    Stage::MarkingVehicle,
                    StoreRequest::SetVehicleStatus(assignment.vehicle_id, VehicleStatus::Available),
                ),
                (Operation::Close(_, _), StoreReply::Assignment(None)) => self.fail(
                    AppError::ResourceNotFound(Resource::Assignment),
                ),
                (_, other) => self.fail(fault(&other)),
            },
            Stage::MarkingVehicle => match (self.target_driver(), reply) {
                ((Some(driver_id), status), StoreReply::Vehicle(Some(_))) => self.ask(
                    Stage::MarkingDriver,
                    StoreRequest::SetDriverStatus(driver_id, status),
                ),
                ((Some(_), _), StoreReply::Vehicle(None)) => self.fail(
                    AppError::ResourceNotFound(Resource::Vehicle),
                ),
                (_, other) => self.fail(fault(&other)),
            },
            Stage::MarkingDriver => match reply {
                StoreReply::Driver(Some(_)) => self.ask(Stage::Committing, StoreRequest::Commit),
                StoreReply::Driver(None) => self.fail(AppError::ResourceNotFound(Resource::Driver)),
                other => self.fail(fault(&other)),
            },
            Stage::Committing => match reply {
                StoreReply::Done => self.end(None),
                other => self.end(Some(fault(&other))),
            },
            Stage::RollingBack => self.end(self.failure),
            Stage::Finished => self.end(self.failure),
        }
    }
}

/// The failure a reply stands for when it is not the answer that was asked
/// for.
pub fn fault(reply: &StoreReply) -> (error: AppError)
    ensures
        error == fault_of(*reply),
{
    match reply {
        StoreReply::Failed(fault) => AppError::StoreFailure(*fault),
        _ => AppError::StoreFailure(StoreFault::UnexpectedReply),
    }
}

} // verus!
