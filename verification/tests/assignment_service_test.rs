use fleet_management_backend::error::{AppError, Resource, StoreFault};
use fleet_management_backend::models::assignment::{
    AssignmentStatus, CreateAssignmentDto, VehicleAssignment,
};
use fleet_management_backend::models::driver::{CreateDriverDto, Driver, DriverStatus};
use fleet_management_backend::models::vehicle::{
    CreateVehicleDto, FuelType, Vehicle, VehicleStatus, VehicleType,
};
use fleet_management_backend::repositories::assignment_repo::AssignmentRepository;
use fleet_management_backend::repositories::driver_repo::DriverRepository;
use fleet_management_backend::repositories::vehicle_repo::VehicleRepository;
use fleet_management_backend::services::assignment_service::AssignmentService;

const V1: u128 = 0x0000_0000_0000_4000_8000_0000_0000_0001;
const V2: u128 = 0x0000_0000_0000_4000_8000_0000_0000_0002;
const D1: u128 = 0x0000_0000_0000_4000_8000_0000_0000_0011;
const D2: u128 = 0x0000_0000_0000_4000_8000_0000_0000_0012;
const A1: u128 = 0x0000_0000_0000_4000_8000_0000_0000_00a1;
const A2: u128 = 0x0000_0000_0000_4000_8000_0000_0000_00a2;
const T0: i64 = 1_700_000_000_000_000;

fn corolla() -> CreateVehicleDto {
    CreateVehicleDto {
        make: "Toyota".into(),
        model: "Corolla".into(),
        year: 2020,
        vin: "VIN123".into(),
        license_plate: "ABC-123".into(),
        vehicle_type: VehicleType::Sedan,
        current_mileage: 10000,
        fuel_type: FuelType::Gasoline,
    }
}

fn licensed(user_id: u128) -> CreateDriverDto {
    CreateDriverDto { user_id, license_number: "LIC123".into(), status: DriverStatus::Available }
}

fn request(vehicle_id: u128, driver_id: u128, status: AssignmentStatus) -> CreateAssignmentDto {
    CreateAssignmentDto { vehicle_id, driver_id, start_time: T0, end_time: None, status }
}

/// Two vehicles and two drivers, all available, and an empty ledger.
fn fleet() -> AssignmentService {
    let mut vehicles = VehicleRepository::new();
    vehicles.create_with(V1, corolla(), T0 - 10).unwrap();
    vehicles.create_with(V2, corolla(), T0 - 9).unwrap();
    let mut drivers = DriverRepository::new();
    drivers.create_with(D1, licensed(1), T0 - 8).unwrap();
    drivers.create_with(D2, licensed(2), T0 - 7).unwrap();
    AssignmentService::new(AssignmentRepository::new(), vehicles, drivers)
}

fn vehicle(service: &AssignmentService, id: u128) -> Vehicle {
    service.vehicles().find_by_id(id).unwrap().unwrap()
}

fn driver(service: &AssignmentService, id: u128) -> Driver {
    service.drivers().find_by_id(id).unwrap().unwrap()
}

fn snapshot(service: &AssignmentService) -> (Vec<VehicleAssignment>, Vec<Vehicle>, Vec<Driver>) {
    (
        service.assignments().find_all().unwrap(),
        service.vehicles().find_all().unwrap(),
        service.drivers().find_all().unwrap(),
    )
}

#[test]
fn assignment_service_test_create_assignment_success() {
    let mut vehicles = VehicleRepository::new();
    let vehicle = vehicles.create(corolla()).unwrap();
    let mut drivers = DriverRepository::new();
    let driver = drivers.create(licensed(77)).unwrap();
    let mut service = AssignmentService::new(AssignmentRepository::new(), vehicles, drivers);

    let dto = CreateAssignmentDto {
        vehicle_id: vehicle.id,
        driver_id: driver.id,
        start_time: T0,
        end_time: None,
        status: AssignmentStatus::Scheduled,
    };
    let result = service.create_assignment(dto);
    assert!(result.is_ok());
    let assignment = result.unwrap();
    assert_eq!(assignment.vehicle_id, vehicle.id);
    assert_eq!(assignment.driver_id, driver.id);
    assert_eq!(assignment.status, AssignmentStatus::Scheduled);
    assert_eq!(assignment.start_time, T0);
    assert_eq!(assignment.end_time, None);
    assert_eq!(assignment.created_at, assignment.updated_at);
    assert_eq!(service.vehicles().find_by_id(vehicle.id).unwrap().unwrap().status, VehicleStatus::Assigned);
    assert_eq!(service.drivers().find_by_id(driver.id).unwrap().unwrap().status, DriverStatus::OnDuty);
}

#[test]
fn create_then_complete_runs_the_whole_lifecycle() {
    let mut service = fleet();

    let created = service
        .create_assignment_with(request(V1, D1, AssignmentStatus::Scheduled), A1, T0)
        .unwrap();
    assert_eq!(
        created,
        VehicleAssignment {
            id: A1,
            vehicle_id: V1,
            driver_id: D1,
            start_time: T0,
            end_time: None,
            status: AssignmentStatus::Scheduled,
            created_at: T0,
            updated_at: T0,
        }
    );
    assert_eq!(vehicle(&service, V1).status, VehicleStatus::Assigned);
    assert_eq!(vehicle(&service, V1).updated_at, T0);
    assert_eq!(driver(&service, D1).status, DriverStatus::OnDuty);
    assert_eq!(driver(&service, D1).updated_at, T0);

    let completed = service.complete_assignment_at(A1, T0 + 500).unwrap();
    assert_eq!(completed.status, AssignmentStatus::Completed);
    assert_eq!(completed.updated_at, T0 + 500);
    assert_eq!(completed.created_at, T0);
    assert_eq!(service.get_assignment(A1), Ok(completed));
    assert_eq!(vehicle(&service, V1).status, VehicleStatus::Available);
    assert_eq!(vehicle(&service, V1).updated_at, T0 + 500);
    assert_eq!(driver(&service, D1).status, DriverStatus::Available);
    assert_eq!(vehicle(&service, V2).updated_at, T0 - 9);
}

#[test]
fn vehicle_in_maintenance_is_refused_and_nothing_changes() {
    let (assignments, mut vehicles, drivers) = fleet().into_parts();
    vehicles.update_status_at(V2, VehicleStatus::Maintenance, T0 - 1).unwrap();
    let mut service = AssignmentService::new(assignments, vehicles, drivers);
    let before = snapshot(&service);

    let result = service.create_assignment_with(request(V2, D2, AssignmentStatus::Scheduled), A1, T0);
    assert_eq!(result, Err(AppError::ResourceUnavailable(Resource::Vehicle)));
    assert_eq!(snapshot(&service), before);
    assert_eq!(vehicle(&service, V2).status, VehicleStatus::Maintenance);
    assert_eq!(driver(&service, D2).status, DriverStatus::Available);
}

#[test]
fn every_status_but_available_refuses_the_vehicle() {
    for status in [VehicleStatus::Assigned, VehicleStatus::Maintenance, VehicleStatus::OutOfService] {
        let (assignments, mut vehicles, drivers) = fleet().into_parts();
        vehicles.update_status_at(V1, status, T0 - 1).unwrap();
        let mut service = AssignmentService::new(assignments, vehicles, drivers);
        let before = snapshot(&service);
        assert_eq!(
            service.create_assignment_with(request(V1, D1, AssignmentStatus::Active), A1, T0),
            Err(AppError::ResourceUnavailable(Resource::Vehicle))
        );
        assert_eq!(snapshot(&service), before);
    }
}

#[test]
fn unknown_vehicle_is_not_found_whatever_the_driver() {
    let mut service = fleet();
    let before = snapshot(&service);
    let nobody = 0xdead;
    assert_eq!(
        service.create_assignment_with(request(0xbeef, nobody, AssignmentStatus::Scheduled), A1, T0),
        Err(AppError::ResourceNotFound(Resource::Vehicle))
    );
    assert_eq!(
        service.create_assignment_with(request(0xbeef, D1, AssignmentStatus::Scheduled), A1, T0),
        Err(AppError::ResourceNotFound(Resource::Vehicle))
    );
    assert_eq!(snapshot(&service), before);
}

#[test]
fn soft_deleted_vehicle_is_not_found() {
    let (assignments, mut vehicles, drivers) = fleet().into_parts();
    vehicles.delete_at(V1, T0 - 1).unwrap();
    let mut service = AssignmentService::new(assignments, vehicles, drivers);
    assert_eq!(
        service.create_assignment_with(request(V1, D1, AssignmentStatus::Scheduled), A1, T0),
        Err(AppError::ResourceNotFound(Resource::Vehicle))
    );
    assert!(service.list_assignments().unwrap().is_empty());
}

#[test]
fn unknown_driver_is_not_found_and_the_vehicle_stays_available() {
    let mut service = fleet();
    let before = snapshot(&service);
    assert_eq!(
        service.create_assignment_with(request(V1, 0xdead, AssignmentStatus::Scheduled), A1, T0),
        Err(AppError::ResourceNotFound(Resource::Driver))
    );
    assert_eq!(snapshot(&service), before);
    assert_eq!(vehicle(&service, V1).status, VehicleStatus::Available);
}

#[test]
fn driver_off_duty_is_refused_and_nothing_changes() {
    for status in [DriverStatus::OnDuty, DriverStatus::OffDuty, DriverStatus::SickLeave] {
        let (assignments, vehicles, mut drivers) = fleet().into_parts();
        drivers.update_status_at(D1, status, T0 - 1).unwrap();
        let mut service = AssignmentService::new(assignments, vehicles, drivers);
        let before = snapshot(&service);
        assert_eq!(
            service.create_assignment_with(request(V1, D1, AssignmentStatus::Scheduled), A1, T0),
            Err(AppError::ResourceUnavailable(Resource::Driver))
        );
        assert_eq!(snapshot(&service), before);
    }
}

#[test]
fn an_assignment_cannot_start_out_terminal() {
    for status in [AssignmentStatus::Completed, AssignmentStatus::Cancelled] {
        let mut service = fleet();
        let before = snapshot(&service);
        assert_eq!(
            service.create_assignment_with(request(V1, D1, status), A1, T0),
            Err(AppError::InvalidStateTransition(status))
        );
        assert_eq!(snapshot(&service), before);
    }
}

#[test]
fn an_assignment_may_start_out_active() {
    let mut service = fleet();
    let created = service.create_assignment_with(request(V1, D1, AssignmentStatus::Active), A1, T0).unwrap();
    assert_eq!(created.status, AssignmentStatus::Active);
    assert_eq!(vehicle(&service, V1).status, VehicleStatus::Assigned);
    assert_eq!(driver(&service, D1).status, DriverStatus::OnDuty);
    let completed = service.complete_assignment_at(A1, T0 + 1).unwrap();
    assert_eq!(completed.status, AssignmentStatus::Completed);
    assert_eq!(vehicle(&service, V1).status, VehicleStatus::Available);
    assert_eq!(driver(&service, D1).status, DriverStatus::Available);
}

#[test]
fn an_identifier_already_in_the_ledger_is_refused_by_the_store() {
    let mut service = fleet();
    service.create_assignment_with(request(V1, D1, AssignmentStatus::Scheduled), A1, T0).unwrap();
    let before = snapshot(&service);
    assert_eq!(
        service.create_assignment_with(request(V2, D2, AssignmentStatus::Scheduled), A1, T0 + 1),
        Err(AppError::StoreFailure(StoreFault::ConstraintViolation))
    );
    assert_eq!(snapshot(&service), before);
    assert_eq!(vehicle(&service, V2).status, VehicleStatus::Available);
    assert_eq!(driver(&service, D2).status, DriverStatus::Available);
}

#[test]
fn creation_succeeds_exactly_once_per_vehicle_and_per_driver() {
    let mut service = fleet();
    service.create_assignment_with(request(V1, D1, AssignmentStatus::Scheduled), A1, T0).unwrap();
    let before = snapshot(&service);
    assert_eq!(
        service.create_assignment_with(request(V1, D2, AssignmentStatus::Scheduled), A2, T0 + 1),
        Err(AppError::ResourceUnavailable(Resource::Vehicle))
    );
    assert_eq!(
        service.create_assignment_with(request(V2, D1, AssignmentStatus::Scheduled), A2, T0 + 1),
        Err(AppError::ResourceUnavailable(Resource::Driver))
    );
    assert_eq!(
        service.create_assignment_with(request(V1, D1, AssignmentStatus::Scheduled), A2, T0 + 1),
        Err(AppError::ResourceUnavailable(Resource::Vehicle))
    );
    assert_eq!(snapshot(&service), before);
}

#[test]
fn of_many_attempts_on_one_vehicle_exactly_one_succeeds() {
    let mut vehicles = VehicleRepository::new();
    vehicles.create_with(V1, corolla(), T0).unwrap();
    let mut drivers = DriverRepository::new();
    let attempts: u128 = 25;
    for n in 0..attempts {
        drivers.create_with(0x1000 + n, licensed(n), T0).unwrap();
    }
    let mut service = AssignmentService::new(AssignmentRepository::new(), vehicles, drivers);

    let mut won = 0;
    for n in 0..attempts {
        let dto = request(V1, 0x1000 + n, AssignmentStatus::Scheduled);
        match service.create_assignment_with(dto, 0x2000 + n, T0 + 1) {
            Ok(_) => won += 1,
            Err(e) => assert_eq!(e, AppError::ResourceUnavailable(Resource::Vehicle)),
        }
    }
    assert_eq!(won, 1);
    let open: Vec<VehicleAssignment> = service
        .list_assignments()
        .unwrap()
        .into_iter()
        .filter(|a| a.vehicle_id == V1 && !a.status.is_terminal())
        .collect();
    assert_eq!(open.len(), 1);
    assert_eq!(open[0].driver_id, 0x1000);
    let busy = service.drivers().find_all().unwrap().iter().filter(|d| d.status == DriverStatus::OnDuty).count();
    assert_eq!(busy, 1);
}

#[test]
fn completing_twice_is_an_invalid_transition_and_changes_nothing() {
    let mut service = fleet();
    service.create_assignment_with(request(V1, D1, AssignmentStatus::Scheduled), A1, T0).unwrap();
    service.complete_assignment_at(A1, T0 + 1).unwrap();
    let before = snapshot(&service);
    assert_eq!(
        service.complete_assignment_at(A1, T0 + 2),
        Err(AppError::InvalidStateTransition(AssignmentStatus::Completed))
    );
    assert_eq!(snapshot(&service), before);
    assert_eq!(service.get_assignment(A1).unwrap().updated_at, T0 + 1);
}

#[test]
fn a_completed_vehicle_can_be_assigned_again() {
    let mut service = fleet();
    service.create_assignment_with(request(V1, D1, AssignmentStatus::Scheduled), A1, T0).unwrap();
    service.complete_assignment_at(A1, T0 + 1).unwrap();
    let again = service.create_assignment_with(request(V1, D2, AssignmentStatus::Active), A2, T0 + 2).unwrap();
    assert_eq!(again.id, A2);
    assert_eq!(vehicle(&service, V1).status, VehicleStatus::Assigned);
    assert_eq!(driver(&service, D1).status, DriverStatus::Available);
    assert_eq!(driver(&service, D2).status, DriverStatus::OnDuty);
}

#[test]
fn completing_an_unknown_assignment_is_not_found() {
    let mut service = fleet();
    let before = snapshot(&service);
    assert_eq!(
        service.complete_assignment_at(A1, T0),
        Err(AppError::ResourceNotFound(Resource::Assignment))
    );
    assert_eq!(service.complete_assignment(A1), Err(AppError::ResourceNotFound(Resource::Assignment)));
    assert_eq!(snapshot(&service), before);
}

#[test]
fn completing_fails_whole_when_the_vehicle_is_gone() {
    let mut service = fleet();
    service.create_assignment_with(request(V1, D1, AssignmentStatus::Scheduled), A1, T0).unwrap();
    let (assignments, mut vehicles, drivers) = service.into_parts();
    vehicles.delete_at(V1, T0 + 1).unwrap();
    let mut service = AssignmentService::new(assignments, vehicles, drivers);
    let before = snapshot(&service);

    assert_eq!(
        service.complete_assignment_at(A1, T0 + 2),
        Err(AppError::ResourceNotFound(Resource::Vehicle))
    );
    assert_eq!(snapshot(&service), before);
    assert_eq!(service.get_assignment(A1).unwrap().status, AssignmentStatus::Scheduled);
    assert_eq!(driver(&service, D1).status, DriverStatus::OnDuty);
}

#[test]
fn completing_fails_whole_when_the_driver_is_gone() {
    let mut service = fleet();
    service.create_assignment_with(request(V1, D1, AssignmentStatus::Scheduled), A1, T0).unwrap();
    let (assignments, vehicles, mut drivers) = service.into_parts();
    drivers.delete_at(D1, T0 + 1).unwrap();
    let mut service = AssignmentService::new(assignments, vehicles, drivers);
    let before = snapshot(&service);

    assert_eq!(
        service.complete_assignment_at(A1, T0 + 2),
        Err(AppError::ResourceNotFound(Resource::Driver))
    );
    assert_eq!(snapshot(&service), before);
    assert_eq!(vehicle(&service, V1).status, VehicleStatus::Assigned);
}

#[test]
fn cancelling_releases_the_vehicle_and_the_driver() {
    let mut service = fleet();
    service.create_assignment_with(request(V1, D1, AssignmentStatus::Scheduled), A1, T0).unwrap();
    let cancelled = service.cancel_assignment_at(A1, T0 + 3).unwrap();
    assert_eq!(cancelled.status, AssignmentStatus::Cancelled);
    assert_eq!(cancelled.updated_at, T0 + 3);
    assert_eq!(vehicle(&service, V1).status, VehicleStatus::Available);
    assert_eq!(driver(&service, D1).status, DriverStatus::Available);

    let before = snapshot(&service);
    assert_eq!(
        service.complete_assignment_at(A1, T0 + 4),
        Err(AppError::InvalidStateTransition(AssignmentStatus::Cancelled))
    );
    assert_eq!(
        service.cancel_assignment_at(A1, T0 + 4),
        Err(AppError::InvalidStateTransition(AssignmentStatus::Cancelled))
    );
    assert_eq!(service.cancel_assignment(A1), Err(AppError::InvalidStateTransition(AssignmentStatus::Cancelled)));
    assert_eq!(snapshot(&service), before);
}

#[test]
fn a_completed_assignment_cannot_be_cancelled() {
    let mut service = fleet();
    service.create_assignment_with(request(V1, D1, AssignmentStatus::Active), A1, T0).unwrap();
    service.complete_assignment(A1).unwrap();
    assert_eq!(
        service.cancel_assignment_at(A1, T0 + 4),
        Err(AppError::InvalidStateTransition(AssignmentStatus::Completed))
    );
}

#[test]
fn get_assignment_finds_what_was_created_and_nothing_else() {
    let mut service = fleet();
    let created = service.create_assignment_with(request(V1, D1, AssignmentStatus::Scheduled), A1, T0).unwrap();
    assert_eq!(service.get_assignment(A1), Ok(created));
    assert_eq!(service.get_assignment(A2), Err(AppError::ResourceNotFound(Resource::Assignment)));
}

#[test]
fn lists_are_empty_rather_than_failing() {
    let service = fleet();
    assert_eq!(service.list_assignments(), Ok(vec![]));
    assert_eq!(service.get_assignments_by_driver(D1), Ok(vec![]));
    assert_eq!(service.get_assignments_by_driver(0xdead), Ok(vec![]));
}

#[test]
fn lists_keep_the_order_of_creation() {
    let mut service = fleet();
    let first = service.create_assignment_with(request(V1, D1, AssignmentStatus::Scheduled), A2, T0).unwrap();
    let first = {
        service.complete_assignment_at(first.id, T0 + 1).unwrap()
    };
    let second = service.create_assignment_with(request(V2, D2, AssignmentStatus::Active), A1, T0 + 2).unwrap();
    let third = service.create_assignment_with(request(V1, D1, AssignmentStatus::Active), 0xa3, T0 + 3).unwrap();
    assert_eq!(service.list_assignments(), Ok(vec![first, second, third]));
    assert_eq!(service.get_assignments_by_driver(D1), Ok(vec![first, third]));
    assert_eq!(service.get_assignments_by_driver(D2), Ok(vec![second]));
}

#[test]
fn drawn_identifiers_are_version_four_and_fresh() {
    let mut service = fleet();
    let one = service.create_assignment(request(V1, D1, AssignmentStatus::Scheduled)).unwrap();
    let two = service.create_assignment(request(V2, D2, AssignmentStatus::Scheduled)).unwrap();
    assert_ne!(one.id, two.id);
    for id in [one.id, two.id] {
        assert_eq!(id & 0x0000_0000_0000_f000_c000_0000_0000_0000, 0x0000_0000_0000_4000_8000_0000_0000_0000);
    }
    assert!(one.created_at > 1_600_000_000_000_000);
    assert!(two.created_at >= one.created_at);
    let done = service.complete_assignment(one.id).unwrap();
    assert!(done.updated_at >= one.created_at);
    assert_eq!(done.status, AssignmentStatus::Completed);
}

#[test]
fn assignment_api_test_test_create_assignment_success() {
    let mut service = fleet();
    let dto = request(V1, D1, AssignmentStatus::Active);
    let body = service.create_assignment_with(dto, A1, T0).unwrap();
    assert_eq!(body.id, A1);
    assert_eq!(body.status, AssignmentStatus::Active);
}

#[test]
fn test_list_assignments() {
    let service = fleet();
    let listed = service.list_assignments();
    assert!(listed.is_ok());
    assert_eq!(listed.unwrap(), vec![]);
}
