//! Vehicles, as the coordinator and the vehicle gateway see them.

use vstd::prelude::*;

verus! {

#[derive(Clone, Copy, Debug, PartialEq, Eq, Structural)]
pub enum VehicleType {
    Truck,
    Van,
    Sedan,
}

/// Whether a vehicle can be given out.
///
/// `Assigned` is a cache of the ledger: a vehicle is `Assigned` exactly while
/// one open assignment refers to it. The other three are set by hand.
#[derive(Clone, Copy, Debug, PartialEq, Eq, Structural)]
pub enum VehicleStatus {
    Available,
    Assigned,
    Maintenance,
    OutOfService,
}

#[derive(Clone, Copy, Debug, PartialEq, Eq, Structural)]
pub enum FuelType {
    Diesel,
    Gasoline,
    Electric,
}

/// One row of the vehicle table. A row with `deleted_at` set is soft-deleted:
/// it stays in the table and no lookup finds it.
#[derive(Clone, Debug, PartialEq, Eq)]
pub struct Vehicle {
    pub id: u128,
    pub make: String,
    pub model: String,
    pub year: i32,
    pub vin: String,
    pub license_plate: String,
    pub vehicle_type: VehicleType,
    pub status: VehicleStatus,
    pub current_mileage: i32,
    pub fuel_type: FuelType,
    pub created_at: i64,
    pub updated_at: i64,
    pub deleted_at: Option<i64>,
}

impl Vehicle {
    /// Whether the row is visible to lookups.
    pub open spec fn live(self) -> bool {
        self.deleted_at is None
    }

    /// The row with its status replaced, touched at `now`.
    pub open spec fn with_status(self, status: VehicleStatus, now: i64) -> Vehicle {
        Vehicle { status, updated_at: now, ..self }
    }

    /// The row soft-deleted at `now`.
    pub open spec fn deleted(self, now: i64) -> Vehicle {
        Vehicle { deleted_at: Some(now), ..self }
    }

    pub fn is_live(&self) -> (r: bool)
        ensures
            r == self.live(),
    {
        self.deleted_at.is_none()
    }

    /// A copy equal to the row in every field.
    pub fn duplicate(&self) -> (r: Vehicle)
        ensures
            r == *self,
    {
        Vehicle {
            id: self.id,
            make: self.make.clone(),
            model: self.model.clone(),
            year: self.year,
            vin: self.vin.clone(),
            license_plate: self.license_plate.clone(),
            vehicle_type: self.vehicle_type,
            status: self.status,
            current_mileage: self.current_mileage,
            fuel_type: self.fuel_type,
            created_at: self.created_at,
            updated_at: self.updated_at,
            deleted_at: self.deleted_at,
        }
    }
}

/// What a caller supplies to have a vehicle registered.
#[derive(Clone, Debug, PartialEq, Eq)]
pub struct CreateVehicleDto {
    pub make: String,
    pub model: String,
    pub year: i32,
    pub vin: String,
    pub license_plate: String,
    pub vehicle_type: VehicleType,
    pub current_mileage: i32,
    pub fuel_type: FuelType,
}

impl CreateVehicleDto {
    /// The table row this request becomes under identifier `id` at instant
    /// `now`. Every vehicle starts out `Available`.
    pub open spec fn row(self, id: u128, now: i64) -> Vehicle {
        Vehicle {
            id,
            make: self.make,
            model: self.model,
            year: self.year,
            vin: self.vin,
            license_plate: self.license_plate,
            vehicle_type: self.vehicle_type,
            status: VehicleStatus::Available,
            current_mileage: self.current_mileage,
            fuel_type: self.fuel_type,
            created_at: now,
            updated_at: now,
            deleted_at: None,
        }
    }

    pub fn into_row(self, id: u128, now: i64) -> (r: Vehicle)
        ensures
            r == self.row(id, now),
    {
        Vehicle {
            id,
            make: self.make,
            model: self.model,
            year: self.year,
            vin: self.vin,
            license_plate: self.license_plate,
            vehicle_type: self.vehicle_type,
            status: VehicleStatus::Available,
            current_mileage: self.current_mileage,
            fuel_type: self.fuel_type,
            created_at: now,
            updated_at: now,
            deleted_at: None,
        }
    }
}

/// The body of a request to set a vehicle's status.
#[derive(Clone, Copy, Debug, PartialEq, Eq, Structural)]
pub struct UpdateVehicleStatusRequest {
    pub status: VehicleStatus,
}

/// The body of a request to change a vehicle. Only the status can be
/// changed; a request that names none asks for nothing.
#[derive(Clone, Copy, Debug, PartialEq, Eq, Structural)]
pub struct UpdateVehicleDto {
    pub status: Option<VehicleStatus>,
}

} // verus!
