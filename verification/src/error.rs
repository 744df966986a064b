//! The failures the coordinator reports, and how each is shown to a caller.

use vstd::prelude::*;
use crate::models::assignment::AssignmentStatus;

verus! {

/// The kind of record an operation was looking at when it failed.
#[derive(Clone, Copy, Debug, PartialEq, Eq, Structural)]
pub enum Resource {
    Vehicle,
    Driver,
    Assignment,
}

impl Resource {
    /// What a lookup amounts to: the record it gave, or the failure that no
    /// live record of this kind is under the identifier.
    pub fn required<T>(self, row: Option<T>) -> (r: Result<T, AppError>)
        ensures
            r == match row {
                Some(record) => Ok::<T, AppError>(record),
                None => Err::<T, AppError>(AppError::ResourceNotFound(self)),
            },
    {
        match row {
            Some(record) => Ok(record),
            None => Err(AppError::ResourceNotFound(self)),
        }
    }

    /// What a write aimed at one record of this kind amounts to, given the
    /// number of rows it changed: none changed means the record is not
    /// there.
    pub fn touched(self, rows_affected: u64) -> (r: Result<(), AppError>)
        ensures
            r == if rows_affected == 0 {
                Err::<(), AppError>(AppError::ResourceNotFound(self))
            } else {
                Ok::<(), AppError>(())
            },
    {
        if rows_affected == 0 {
            Err(AppError::ResourceNotFound(self))
        } else {
            Ok(())
        }
    }
}

/// Why the store could not carry out a request.
#[derive(Clone, Copy, Debug, PartialEq, Eq, Structural)]
pub enum StoreFault {
    /// The store could not be reached or gave up on the request.
    Connectivity,
    /// The store refused a write that would break one of its constraints,
    /// such as a second row under an identifier already in use.
    ConstraintViolation,
    /// The store answered with something the request cannot produce.
    UnexpectedReply,
}

/// A failed coordinator or gateway operation.
#[derive(Clone, Copy, Debug, PartialEq, Eq, Structural)]
pub enum AppError {
    /// The identifier does not resolve to a live record of this kind.
    ResourceNotFound(Resource),
    /// The record exists but is not in the `Available` state that starting
    /// an assignment requires.
    ResourceUnavailable(Resource),
    /// The assignment is already in the terminal status given.
    InvalidStateTransition(AssignmentStatus),
    /// The store itself failed.
    StoreFailure(StoreFault),
}

/// How a failure is surfaced over HTTP: the status code and the text of the
/// response body.
#[derive(Clone, Debug, PartialEq, Eq)]
pub struct ErrorResponse {
    pub status: u16,
    pub body: String,
}

impl AppError {
    /// The HTTP status a failure is surfaced with: not-found failures as
    /// 404, the two failures a client can correct as 400, store failures as
    /// 500.
    pub open spec fn status(self) -> u16 {
        match self {
            AppError::ResourceNotFound(_) => 404,
            AppError::ResourceUnavailable(_) => 400,
            AppError::InvalidStateTransition(_) => 400,
            AppError::StoreFailure(_) => 500,
        }
    }

    /// The text a caller is shown. A store failure shows none of its detail.
    pub open spec fn text(self) -> Seq<char> {
        match self {
            AppError::ResourceNotFound(Resource::Vehicle) => "Vehicle not found"@,
            AppError::ResourceNotFound(Resource::Driver) => "Driver not found"@,
            AppError::ResourceNotFound(Resource::Assignment) => "Assignment not found"@,
            AppError::ResourceUnavailable(Resource::Vehicle) => "Vehicle is not available"@,
            AppError::ResourceUnavailable(Resource::Driver) => "Driver is not available"@,
            AppError::ResourceUnavailable(Resource::Assignment) => "Assignment is not available"@,
            AppError::InvalidStateTransition(AssignmentStatus::Completed) => "Assignment is already completed"@,
            AppError::InvalidStateTransition(AssignmentStatus::Cancelled) => "Assignment is already cancelled"@,
            AppError::InvalidStateTransition(_) => "Assignment cannot change status"@,
            AppError::StoreFailure(_) => "Internal Server Error"@,
        }
    }

    /// Whether the failure's cause is kept from the caller and belongs in
    /// the server's log instead.
    pub open spec fn internal(self) -> bool {
        self is StoreFailure
    }

    pub fn status_code(&self) -> (r: u16)
        ensures
            r == self.status(),
    {
        match self {
            AppError::ResourceNotFound(_) => 404,
            AppError::ResourceUnavailable(_) => 400,
            AppError::InvalidStateTransition(_) => 400,
            AppError::StoreFailure(_) => 500,
        }
    }

    pub fn message(&self) -> (r: String)
        ensures
            r@ == self.text(),
    {
        let text: &str = match self {
            AppError::ResourceNotFound(Resource::Vehicle) => "Vehicle not found",
            AppError::ResourceNotFound(Resource::Driver) => "Driver not found",
            AppError::ResourceNotFound(Resource::Assignment) => "Assignment not found",
            AppError::ResourceUnavailable(Resource::Vehicle) => "Vehicle is not available",
            AppError::ResourceUnavailable(Resource::Driver) => "Driver is not available",
            AppError::ResourceUnavailable(Resource::Assignment) => "Assignment is not available",
            AppError::InvalidStateTransition(AssignmentStatus::Completed) => "Assignment is already completed",
            AppError::InvalidStateTransition(AssignmentStatus::Cancelled) => "Assignment is already cancelled",
            AppError::InvalidStateTransition(_) => "Assignment cannot change status",
            AppError::StoreFailure(_) => "Internal Server Error",
        };
        text.to_owned()
    }

    pub fn is_internal(&self) -> (r: bool)
        ensures
            r == self.internal(),
    {
        match self {
            AppError::StoreFailure(_) => true,
            _ => false,
        }
    }

    /// The response a failure is surfaced with.
    pub fn error_response(&self) -> (r: ErrorResponse)
        ensures
            r.status == self.status(),
            r.body@ == self.text(),
    {
        ErrorResponse { status: self.status_code(), body: self.message() }
    }
}

} // verus!
