//! Assignments: one vehicle paired with one driver for an interval.

use vstd::prelude::*;

verus! {

/// Where an assignment stands in its life.
///
/// `Scheduled` and `Active` are the two states an assignment can be created
/// in; both hold the vehicle and the driver. `Completed` and `Cancelled` are
/// terminal: nothing leaves them, and they hold nothing.
#[derive(Clone, Copy, Debug, PartialEq, Eq, Structural)]
pub enum AssignmentStatus {
    Scheduled,
    Active,
    Completed,
    Cancelled,
}

impl AssignmentStatus {
    /// Whether no further transition is permitted from this status.
    pub open spec fn terminal(self) -> bool {
        self == AssignmentStatus::Completed || self == AssignmentStatus::Cancelled
    }

    /// Whether this status may be the target of a transition from `self`:
    /// only the two terminal statuses can be entered, and only from a
    /// non-terminal one.
    pub open spec fn may_become(self, next: AssignmentStatus) -> bool {
        !self.terminal() && next.terminal()
    }

    pub fn is_terminal(self) -> (r: bool)
        ensures
            r == self.terminal(),
    {
        match self {
            AssignmentStatus::Completed | AssignmentStatus::Cancelled => true,
            AssignmentStatus::Scheduled | AssignmentStatus::Active => false,
        }
    }

    pub fn can_become(self, next: AssignmentStatus) -> (r: bool)
        ensures
            r == self.may_become(next),
    {
        !self.is_terminal() && next.is_terminal()
    }
}

/// One row of the assignment ledger.
#[derive(Clone, Copy, Debug, PartialEq, Eq, Structural)]
pub struct VehicleAssignment {
    pub id: u128,
    pub vehicle_id: u128,
    pub driver_id: u128,
    pub start_time: i64,
    pub end_time: Option<i64>,
    pub status: AssignmentStatus,
    pub created_at: i64,
    pub updated_at: i64,
}

impl VehicleAssignment {
    /// Whether the assignment still holds its vehicle and driver.
    pub open spec fn open(self) -> bool {
        !self.status.terminal()
    }

    pub fn is_open(&self) -> (r: bool)
        ensures
            r == self.open(),
    {
        !self.status.is_terminal()
    }
}

/// What a caller supplies to have an assignment created.
#[derive(Clone, Copy, Debug, PartialEq, Eq, Structural)]
pub struct CreateAssignmentDto {
    pub vehicle_id: u128,
    pub driver_id: u128,
    pub start_time: i64,
    pub end_time: Option<i64>,
    pub status: AssignmentStatus,
}

impl CreateAssignmentDto {
    /// The ledger row this request becomes under identifier `id` at instant
    /// `now`.
    pub open spec fn row(self, id: u128, now: i64) -> VehicleAssignment {
        VehicleAssignment {
            id,
            vehicle_id: self.vehicle_id,
            driver_id: self.driver_id,
            start_time: self.start_time,
            end_time: self.end_time,
            status: self.status,
            created_at: now,
            updated_at: now,
        }
    }
}

} // verus!
