use fleet_management_backend::error::{AppError, Resource, StoreFault};
use fleet_management_backend::models::assignment::{
    AssignmentStatus, CreateAssignmentDto, VehicleAssignment,
};
use fleet_management_backend::models::driver::{CreateDriverDto, Driver, DriverStatus};
use fleet_management_backend::models::vehicle::{
    CreateVehicleDto, FuelType, Vehicle, VehicleStatus, VehicleType,
};
use fleet_management_backend::repositories::assignment_repo::AssignmentRepository;
use fleet_management_backend::repositories::driver_repo::DriverRepository;
use fleet_management_backend::repositories::vehicle_repo::VehicleRepository;
use fleet_management_backend::services::assignment_flow::{
    fault, AssignmentFlow, Operation, Stage, Step, StoreReply, StoreRequest,
};
use fleet_management_backend::services::assignment_service::AssignmentService;

const V1: u128 = 1;
const V2: u128 = 2;
const D1: u128 = 11;
const D2: u128 = 12;
const A1: u128 = 0xa1;
const T0: i64 = 1_000;

#[derive(Clone, Debug, PartialEq)]
struct Tables {
    assignments: Vec<VehicleAssignment>,
    vehicles: Vec<Vehicle>,
    drivers: Vec<Driver>,
}

/// A store with transactions, written the plain way, to conduct flows
/// against. It can be told to fail the request with a given number.
struct Store {
    committed: Tables,
    working: Tables,
    next_id: u128,
    now: i64,
    asked: Vec<StoreRequest>,
    fails_at: Option<usize>,
}

impl Store {
    fn answer(&mut self, request: StoreRequest) -> StoreReply {
        self.asked.push(request);
        if self.fails_at == Some(self.asked.len() - 1) {
            return StoreReply::Failed(StoreFault::Connectivity);
        }
        let now = self.now;
        match request {
            StoreRequest::Begin => {
                self.working = self.committed.clone();
                StoreReply::Done
            }
            StoreRequest::Commit => {
                self.committed = self.working.clone();
                StoreReply::Done
            }
            StoreRequest::Rollback => {
                self.working = self.committed.clone();
                StoreReply::Done
            }
            StoreRequest::LockVehicle(id) => StoreReply::Vehicle(
                self.working.vehicles.iter().find(|v| v.id == id && v.deleted_at.is_none()).cloned(),
            ),
            StoreRequest::LockDriver(id) => StoreReply::Driver(
                self.working.drivers.iter().find(|d| d.id == id && d.deleted_at.is_none()).cloned(),
            ),
            StoreRequest::LockAssignment(id) => {
                StoreReply::Assignment(self.working.assignments.iter().find(|a| a.id == id).cloned())
            }
            StoreRequest::InsertAssignment(dto) => {
                let id = self.next_id;
                if self.working.assignments.iter().any(|a| a.id == id) {
                    return StoreReply::Failed(StoreFault::ConstraintViolation);
                }
                let row = VehicleAssignment {
                    id,
                    vehicle_id: dto.vehicle_id,
                    driver_id: dto.driver_id,
                    start_time: dto.start_time,
                    end_time: dto.end_time,
                    status: dto.status,
                    created_at: now,
                    updated_at: now,
                };
                self.working.assignments.push(row);
                StoreReply::Assignment(Some(row))
            }
            StoreRequest::SetVehicleStatus(id, status) => StoreReply::Vehicle(
                self.working.vehicles.iter_mut().find(|v| v.id == id && v.deleted_at.is_none()).map(|v| {
                    v.status = status;
                    v.updated_at = now;
                    v.clone()
                }),
            ),
            StoreRequest::SetDriverStatus(id, status) => StoreReply::Driver(
                self.working.drivers.iter_mut().find(|d| d.id == id && d.deleted_at.is_none()).map(|d| {
                    d.status = status;
                    d.updated_at = now;
                    d.clone()
                }),
            ),
            StoreRequest::SetAssignmentStatus(id, status) => StoreReply::Assignment(
                self.working.assignments.iter_mut().find(|a| a.id == id).map(|a| {
                    a.status = status;
                    a.updated_at = now;
                    *a
                }),
            ),
        }
    }
}

fn conduct(store: &mut Store, mut flow: AssignmentFlow) -> Result<VehicleAssignment, AppError> {
    let mut reply = StoreReply::Done;
    for _ in 0..20 {
        let (next, step) = flow.step(reply);
        flow = next;
        match step {
            Step::Finish(outcome) => {
                assert_eq!(flow.stage, Stage::Finished);
                return outcome;
            }
            Step::Ask(request) => reply = store.answer(request),
        }
    }
    panic!("the flow did not finish");
}

fn van() -> CreateVehicleDto {
    CreateVehicleDto {
        make: "Ford".into(),
        model: "Transit".into(),
        year: 2021,
        vin: "V".into(),
        license_plate: "P".into(),
        vehicle_type: VehicleType::Van,
        current_mileage: 5,
        fuel_type: FuelType::Diesel,
    }
}

/// The same fleet twice: once in the coordinator, once in the store.
fn fleets(prepare: impl Fn(&mut AssignmentRepository, &mut VehicleRepository, &mut DriverRepository)) -> (AssignmentService, Store) {
    let mut assignments = AssignmentRepository::new();
    let mut vehicles = VehicleRepository::new();
    let mut drivers = DriverRepository::new();
    for id in [V1, V2] {
        vehicles.create_with(id, van(), 0).unwrap();
    }
    for id in [D1, D2] {
        let dto = CreateDriverDto { user_id: id, license_number: "L".into(), status: DriverStatus::Available };
        drivers.create_with(id, dto, 0).unwrap();
    }
    prepare(&mut assignments, &mut vehicles, &mut drivers);
    let tables = Tables {
        assignments: (0..assignments.len()).map(|i| *assignments.row(i)).collect(),
        vehicles: (0..vehicles.len()).map(|i| vehicles.row(i).clone()).collect(),
        drivers: (0..drivers.len()).map(|i| drivers.row(i).clone()).collect(),
    };
    let store = Store {
        committed: tables.clone(),
        working: tables,
        next_id: A1,
        now: T0,
        asked: vec![],
        fails_at: None,
    };
    (AssignmentService::new(assignments, vehicles, drivers), store)
}

fn tables_of(service: &AssignmentService) -> Tables {
    Tables {
        assignments: (0..service.assignments().len()).map(|i| *service.assignments().row(i)).collect(),
        vehicles: (0..service.vehicles().len()).map(|i| service.vehicles().row(i).clone()).collect(),
        drivers: (0..service.drivers().len()).map(|i| service.drivers().row(i).clone()).collect(),
    }
}

fn request(vehicle_id: u128, driver_id: u128, status: AssignmentStatus) -> CreateAssignmentDto {
    CreateAssignmentDto { vehicle_id, driver_id, start_time: 7, end_time: Some(9), status }
}

fn nothing(_: &mut AssignmentRepository, _: &mut VehicleRepository, _: &mut DriverRepository) {}

fn one_open(a: &mut AssignmentRepository, v: &mut VehicleRepository, d: &mut DriverRepository) {
    a.create_with(A1, request(V1, D1, AssignmentStatus::Scheduled), 1).unwrap();
    v.update_status_at(V1, VehicleStatus::Assigned, 1).unwrap();
    d.update_status_at(D1, DriverStatus::OnDuty, 1).unwrap();
}

#[test]
fn a_create_flow_does_what_the_coordinator_does() {
    let (mut service, mut store) = fleets(nothing);
    let dto = request(V1, D2, AssignmentStatus::Scheduled);
    let by_flow = conduct(&mut store, AssignmentFlow::create(dto));
    let direct = service.create_assignment_with(dto, A1, T0);
    assert!(by_flow.is_ok());
    assert_eq!(by_flow, direct);
    assert_eq!(store.committed, tables_of(&service));
    assert_eq!(
        store.asked,
        vec![
            StoreRequest::Begin,
            StoreRequest::LockVehicle(V1),
            StoreRequest::LockDriver(D2),
            StoreRequest::InsertAssignment(dto),
            StoreRequest::SetVehicleStatus(V1, VehicleStatus::Assigned),
            StoreRequest::SetDriverStatus(D2, DriverStatus::OnDuty),
            StoreRequest::Commit,
        ]
    );
}

#[test]
fn a_complete_flow_does_what_the_coordinator_does() {
    let (mut service, mut store) = fleets(one_open);
    let by_flow = conduct(&mut store, AssignmentFlow::complete(A1));
    let direct = service.complete_assignment_at(A1, T0);
    assert_eq!(by_flow.as_ref().map(|a| a.status), Ok(AssignmentStatus::Completed));
    assert_eq!(by_flow, direct);
    assert_eq!(store.committed, tables_of(&service));
    assert_eq!(
        store.asked,
        vec![
            StoreRequest::Begin,
            StoreRequest::LockAssignment(A1),
            StoreRequest::SetAssignmentStatus(A1, AssignmentStatus::Completed),
            StoreRequest::SetVehicleStatus(V1, VehicleStatus::Available),
            StoreRequest::SetDriverStatus(D1, DriverStatus::Available),
            StoreRequest::Commit,
        ]
    );
}

#[test]
fn a_cancel_flow_does_what_the_coordinator_does() {
    let (mut service, mut store) = fleets(one_open);
    let by_flow = conduct(&mut store, AssignmentFlow::cancel(A1));
    assert_eq!(by_flow.as_ref().map(|a| a.status), Ok(AssignmentStatus::Cancelled));
    assert_eq!(by_flow, service.cancel_assignment_at(A1, T0));
    assert_eq!(store.committed, tables_of(&service));
}

#[test]
fn an_unknown_vehicle_ends_the_flow_before_any_driver_lookup_or_write() {
    let (mut service, mut store) = fleets(nothing);
    let before = store.committed.clone();
    let dto = request(0xbeef, D1, AssignmentStatus::Scheduled);
    let by_flow = conduct(&mut store, AssignmentFlow::create(dto));
    assert_eq!(by_flow, Err(AppError::ResourceNotFound(Resource::Vehicle)));
    assert_eq!(by_flow, service.create_assignment_with(dto, A1, T0));
    assert_eq!(store.asked, vec![StoreRequest::Begin, StoreRequest::LockVehicle(0xbeef), StoreRequest::Rollback]);
    assert_eq!(store.committed, before);
    assert_eq!(store.working, before);
}

#[test]
fn refusals_roll_back_and_agree_with_the_coordinator() {
    let cases: Vec<(CreateAssignmentDto, AppError, usize)> = vec![
        (request(V1, D2, AssignmentStatus::Active), AppError::ResourceUnavailable(Resource::Vehicle), 3),
        (request(V2, D1, AssignmentStatus::Active), AppError::ResourceUnavailable(Resource::Driver), 4),
        (request(V2, 0xdead, AssignmentStatus::Active), AppError::ResourceNotFound(Resource::Driver), 4),
        (
            request(V2, D2, AssignmentStatus::Cancelled),
            AppError::InvalidStateTransition(AssignmentStatus::Cancelled),
            4,
        ),
        (request(V2, D2, AssignmentStatus::Active), AppError::StoreFailure(StoreFault::ConstraintViolation), 5),
    ];
    for (dto, error, asked) in cases {
        let (mut service, mut store) = fleets(one_open);
        let before = store.committed.clone();
        assert_eq!(conduct(&mut store, AssignmentFlow::create(dto)), Err(error));
        assert_eq!(service.create_assignment_with(dto, A1, T0), Err(error));
        assert_eq!(store.asked.len(), asked);
        assert_eq!(store.asked.last(), Some(&StoreRequest::Rollback));
        assert_eq!(store.committed, before);
        assert_eq!(store.working, before);
        assert_eq!(tables_of(&service), before);
    }
}

#[test]
fn closing_refusals_roll_back_and_agree_with_the_coordinator() {
    fn done(a: &mut AssignmentRepository, v: &mut VehicleRepository, d: &mut DriverRepository) {
        one_open(a, v, d);
        a.update_status_at(A1, AssignmentStatus::Completed, 2).unwrap();
        v.update_status_at(V1, VehicleStatus::Available, 2).unwrap();
        d.update_status_at(D1, DriverStatus::Available, 2).unwrap();
    }
    fn vehicle_gone(a: &mut AssignmentRepository, v: &mut VehicleRepository, d: &mut DriverRepository) {
        one_open(a, v, d);
        v.delete_at(V1, 2).unwrap();
    }
    fn driver_gone(a: &mut AssignmentRepository, v: &mut VehicleRepository, d: &mut DriverRepository) {
        one_open(a, v, d);
        d.delete_at(D1, 2).unwrap();
    }
    type Prepare = fn(&mut AssignmentRepository, &mut VehicleRepository, &mut DriverRepository);
    let cases: Vec<(Prepare, AppError, usize)> = vec![
        (nothing, AppError::ResourceNotFound(Resource::Assignment), 3),
        (done, AppError::InvalidStateTransition(AssignmentStatus::Completed), 3),
        (vehicle_gone, AppError::ResourceNotFound(Resource::Vehicle), 5),
        (driver_gone, AppError::ResourceNotFound(Resource::Driver), 6),
    ];
    for (prepare, error, asked) in cases {
        let (mut service, mut store) = fleets(prepare);
        let before = store.committed.clone();
        assert_eq!(conduct(&mut store, AssignmentFlow::complete(A1)), Err(error));
        assert_eq!(service.complete_assignment_at(A1, T0), Err(error));
        assert_eq!(store.asked.len(), asked);
        assert_eq!(store.asked.last(), Some(&StoreRequest::Rollback));
        assert_eq!(store.committed, before);
        assert_eq!(store.working, before);
        assert_eq!(tables_of(&service), before);
    }
}

#[test]
fn a_store_failure_at_any_request_leaves_nothing_behind() {
    let dto = request(V2, D2, AssignmentStatus::Scheduled);
    for (flow, requests) in [(AssignmentFlow::create(dto), 7), (AssignmentFlow::complete(A1), 6)] {
        for fails_at in 0..requests {
            let (_, mut store) = fleets(one_open);
            store.next_id = 0xa2;
            store.fails_at = Some(fails_at);
            let before = store.committed.clone();
            assert_eq!(conduct(&mut store, flow), Err(AppError::StoreFailure(StoreFault::Connectivity)));
            assert_eq!(store.committed, before);
            if fails_at == 0 || fails_at == requests - 1 {
                assert_eq!(store.asked.len(), fails_at + 1);
            } else {
                assert_eq!(store.asked.len(), fails_at + 2);
                assert_eq!(store.asked.last(), Some(&StoreRequest::Rollback));
                assert_eq!(store.working, before);
            }
        }
    }
}

#[test]
fn a_failed_rollback_does_not_change_the_refusal() {
    let (_, mut store) = fleets(nothing);
    store.fails_at = Some(2);
    let dto = request(0xbeef, D1, AssignmentStatus::Scheduled);
    assert_eq!(conduct(&mut store, AssignmentFlow::create(dto)), Err(AppError::ResourceNotFound(Resource::Vehicle)));
    assert_eq!(store.asked.len(), 3);
}

#[test]
fn an_answer_beside_the_question_abandons_the_operation() {
    let flow = AssignmentFlow::create(request(V1, D1, AssignmentStatus::Scheduled));
    let (flow, step) = flow.step(StoreReply::Failed(StoreFault::Connectivity));
    assert_eq!(step, Step::Ask(StoreRequest::Begin));
    let (flow, step) = flow.step(StoreReply::Done);
    assert_eq!(step, Step::Ask(StoreRequest::LockVehicle(V1)));
    assert_eq!(flow.stage, Stage::CheckingVehicle);
    let (flow, step) = flow.step(StoreReply::Driver(None));
    assert_eq!(step, Step::Ask(StoreRequest::Rollback));
    assert_eq!(flow.stage, Stage::RollingBack);
    assert_eq!(flow.failure, Some(AppError::StoreFailure(StoreFault::UnexpectedReply)));
    let (flow, step) = flow.step(StoreReply::Done);
    assert_eq!(step, Step::Finish(Err(AppError::StoreFailure(StoreFault::UnexpectedReply))));
    let (flow, step) = flow.step(StoreReply::Done);
    assert_eq!(step, Step::Finish(Err(AppError::StoreFailure(StoreFault::UnexpectedReply))));
    assert_eq!(flow.stage, Stage::Finished);
    assert_eq!(flow.operation, Operation::Create(request(V1, D1, AssignmentStatus::Scheduled)));
}

#[test]
fn a_transaction_that_cannot_be_opened_is_not_rolled_back() {
    let flow = AssignmentFlow::complete(A1);
    let (flow, _) = flow.step(StoreReply::Done);
    let (flow, step) = flow.step(StoreReply::Failed(StoreFault::Connectivity));
    assert_eq!(step, Step::Finish(Err(AppError::StoreFailure(StoreFault::Connectivity))));
    assert_eq!(flow.stage, Stage::Finished);
    let (_, step) = AssignmentFlow::complete(A1).step(StoreReply::Done).0.step(StoreReply::Assignment(None));
    assert_eq!(step, Step::Finish(Err(AppError::StoreFailure(StoreFault::UnexpectedReply))));
}

#[test]
fn a_reply_stands_for_the_store_fault_it_carries() {
    assert_eq!(fault(&StoreReply::Failed(StoreFault::Connectivity)), AppError::StoreFailure(StoreFault::Connectivity));
    assert_eq!(
        fault(&StoreReply::Failed(StoreFault::ConstraintViolation)),
        AppError::StoreFailure(StoreFault::ConstraintViolation)
    );
    assert_eq!(fault(&StoreReply::Done), AppError::StoreFailure(StoreFault::UnexpectedReply));
    assert_eq!(fault(&StoreReply::Vehicle(None)), AppError::StoreFailure(StoreFault::UnexpectedReply));
}
