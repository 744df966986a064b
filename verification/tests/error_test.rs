use fleet_management_backend::error::{AppError, ErrorResponse, Resource, StoreFault};
use fleet_management_backend::models::assignment::AssignmentStatus;

#[test]
fn not_found_failures_are_surfaced_as_404_with_their_text() {
    for (resource, text) in [
        (Resource::Vehicle, "Vehicle not found"),
        (Resource::Driver, "Driver not found"),
        (Resource::Assignment, "Assignment not found"),
    ] {
        let e = AppError::ResourceNotFound(resource);
        assert_eq!(e.status_code(), 404);
        assert_eq!(e.message(), text);
        assert!(!e.is_internal());
        assert_eq!(e.error_response(), ErrorResponse { status: 404, body: text.to_string() });
    }
}

#[test]
fn failures_a_client_can_correct_are_surfaced_as_400() {
    for (e, text) in [
        (AppError::ResourceUnavailable(Resource::Vehicle), "Vehicle is not available"),
        (AppError::ResourceUnavailable(Resource::Driver), "Driver is not available"),
        (AppError::ResourceUnavailable(Resource::Assignment), "Assignment is not available"),
        (AppError::InvalidStateTransition(AssignmentStatus::Completed), "Assignment is already completed"),
        (AppError::InvalidStateTransition(AssignmentStatus::Cancelled), "Assignment is already cancelled"),
        (AppError::InvalidStateTransition(AssignmentStatus::Active), "Assignment cannot change status"),
        (AppError::InvalidStateTransition(AssignmentStatus::Scheduled), "Assignment cannot change status"),
    ] {
        assert_eq!(e.status_code(), 400);
        assert_eq!(e.message(), text);
        assert!(!e.is_internal());
        assert_eq!(e.error_response(), ErrorResponse { status: 400, body: text.to_string() });
    }
}

#[test]
fn store_failures_are_surfaced_as_500_without_detail() {
    for fault in [StoreFault::Connectivity, StoreFault::ConstraintViolation, StoreFault::UnexpectedReply] {
        let e = AppError::StoreFailure(fault);
        assert_eq!(e.status_code(), 500);
        assert_eq!(e.message(), "Internal Server Error");
        assert!(e.is_internal());
        assert_eq!(e.error_response(), ErrorResponse { status: 500, body: "Internal Server Error".to_string() });
    }
}

#[test]
fn only_completed_and_cancelled_are_terminal() {
    assert!(!AssignmentStatus::Scheduled.is_terminal());
    assert!(!AssignmentStatus::Active.is_terminal());
    assert!(AssignmentStatus::Completed.is_terminal());
    assert!(AssignmentStatus::Cancelled.is_terminal());
    let all = [
        AssignmentStatus::Scheduled,
        AssignmentStatus::Active,
        AssignmentStatus::Completed,
        AssignmentStatus::Cancelled,
    ];
    for from in all {
        for to in all {
            assert_eq!(from.can_become(to), !from.is_terminal() && to.is_terminal());
        }
    }
}
