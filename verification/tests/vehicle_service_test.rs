use fleet_management_backend::error::{AppError, Resource};
use fleet_management_backend::models::vehicle::{
    CreateVehicleDto, FuelType, UpdateVehicleDto, UpdateVehicleStatusRequest, VehicleStatus, VehicleType,
};
use fleet_management_backend::repositories::vehicle_repo::VehicleRepository;
use fleet_management_backend::services::vehicle_service::VehicleService;

fn corolla() -> CreateVehicleDto {
    CreateVehicleDto {
        make: "Toyota".to_string(),
        model: "Corolla".to_string(),
        year: 2022,
        vin: "VIN123".to_string(),
        license_plate: "ABC-123".to_string(),
        vehicle_type: VehicleType::Sedan,
        current_mileage: 0,
        fuel_type: FuelType::Gasoline,
    }
}

#[test]
fn test_create_vehicle() {
    let mut service = VehicleService::new(VehicleRepository::new());
    let result = service.create_vehicle(corolla());

    assert!(result.is_ok());
    let vehicle = result.unwrap();
    assert_eq!(vehicle.vin, "VIN123");
    assert_eq!(vehicle.status, VehicleStatus::Available);
    assert_eq!(vehicle.deleted_at, None);
}

#[test]
fn vehicle_service_test_get_vehicle_found() {
    let mut repo = VehicleRepository::new();
    let vehicle_id = repo.create(corolla()).unwrap().id;
    let service = VehicleService::new(repo);
    let result = service.get_vehicle(vehicle_id);

    assert!(result.is_ok());
    assert_eq!(result.unwrap().id, vehicle_id);
}

#[test]
fn vehicle_service_test_get_vehicle_not_found() {
    let service = VehicleService::new(VehicleRepository::new());
    let result = service.get_vehicle(0x1234);

    assert!(result.is_err());
    match result.unwrap_err() {
        AppError::ResourceNotFound(Resource::Vehicle) => {}
        _ => panic!("Expected NotFound error"),
    }
}

#[test]
fn test_update_vehicle_status() {
    let mut service = VehicleService::new(VehicleRepository::new());
    let vehicle_id = service.create_vehicle(corolla()).unwrap().id;
    let request = UpdateVehicleStatusRequest { status: VehicleStatus::Maintenance };

    let body = service.update_vehicle_status(vehicle_id, request.status).unwrap();
    assert_eq!(body.id, vehicle_id);
    assert_eq!(body.status, VehicleStatus::Maintenance);
    assert_eq!(service.get_vehicle(vehicle_id), Ok(body));
    assert_eq!(
        service.update_vehicle_status(vehicle_id + 1, VehicleStatus::Maintenance),
        Err(AppError::ResourceNotFound(Resource::Vehicle))
    );
}

#[test]
fn test_delete_vehicle() {
    let mut service = VehicleService::new(VehicleRepository::new());
    let vehicle_id = service.create_vehicle(corolla()).unwrap().id;
    assert_eq!(service.delete_vehicle(vehicle_id), Ok(()));
    assert_eq!(service.get_vehicle(vehicle_id), Err(AppError::ResourceNotFound(Resource::Vehicle)));
    assert_eq!(service.delete_vehicle(vehicle_id), Err(AppError::ResourceNotFound(Resource::Vehicle)));
    assert_eq!(service.list_vehicles(), Ok(vec![]));
    let repo = service.into_repo();
    assert_eq!(repo.len(), 1);
}

#[test]
fn an_update_that_names_no_status_asks_for_nothing() {
    let mut service = VehicleService::new(VehicleRepository::new());
    let vehicle = service.create_vehicle(corolla()).unwrap();
    assert_eq!(service.update_vehicle(vehicle.id, UpdateVehicleDto { status: None }), Ok(None));
    assert_eq!(service.update_vehicle(0x99, UpdateVehicleDto { status: None }), Ok(None));
    assert_eq!(service.get_vehicle(vehicle.id), Ok(vehicle.clone()));

    let updated = service
        .update_vehicle(vehicle.id, UpdateVehicleDto { status: Some(VehicleStatus::OutOfService) })
        .unwrap()
        .unwrap();
    assert_eq!(updated.status, VehicleStatus::OutOfService);
    assert_eq!(updated.vin, vehicle.vin);
    assert_eq!(
        service.update_vehicle(0x99, UpdateVehicleDto { status: Some(VehicleStatus::Available) }),
        Err(AppError::ResourceNotFound(Resource::Vehicle))
    );
    assert_eq!(service.list_vehicles(), Ok(vec![updated]));
}
