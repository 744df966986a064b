//! Keeping the vehicle table by hand: registering, looking up, retiring and
//! re-statusing vehicles. None of this consults the ledger.

use vstd::prelude::*;
use crate::error::{AppError, Resource};
use crate::outside::{new_v4_value, now_micros, version_four};
use crate::models::vehicle::{CreateVehicleDto, UpdateVehicleDto, Vehicle, VehicleStatus};
use crate::repositories::vehicle_repo::{
    live_vehicle,
    live_vehicles,
    vehicle_created,
    vehicle_deleted,
    vehicle_status_set,
    VehicleRepository,
};

verus! {

/// Looking a vehicle up: the live row under `id`, or a not-found failure.
pub open spec fn vehicle_fetched(rows: Seq<Vehicle>, id: u128) -> Result<Vehicle, AppError> {
    match live_vehicle(rows, id) {
        Some(v) => Ok(v),
        None => Err(AppError::ResourceNotFound(Resource::Vehicle)),
    }
}

/// Retiring the live vehicle under `id` at `now`. A vehicle that is unknown
/// or already retired is not found, and nothing changes.
pub open spec fn vehicle_retired(rows: Seq<Vehicle>, id: u128, now: i64) -> (
    Result<(), AppError>,
    Seq<Vehicle>,
) {
    match live_vehicle(rows, id) {
        Some(_) => vehicle_deleted(rows, id, now),
        None => (Err(AppError::ResourceNotFound(Resource::Vehicle)), rows),
    }
}

/// Applying a change request to the vehicle under `id` at `now`. A request
/// that names no status changes nothing and gives no row back.
pub open spec fn vehicle_updated(rows: Seq<Vehicle>, id: u128, dto: UpdateVehicleDto, now: i64) -> (
    Result<Option<Vehicle>, AppError>,
    Seq<Vehicle>,
) {
    match dto.status {
        Some(status) => match vehicle_status_set(rows, id, status, now) {
            (Ok(v), after) => (Ok(Some(v)), after),
            (Err(e), after) => (Err(e), after),
        },
        None => (Ok(None), rows),
    }
}

/// The vehicle table's keeper.
pub struct VehicleService {
    vehicle_repo: VehicleRepository,
}

impl View for VehicleService {
    type V = Seq<Vehicle>;

    closed spec fn view(&self) -> Seq<Vehicle> {
        self.vehicle_repo@
    }
}

impl VehicleService {
    /// A keeper of the given table.
    pub fn new(vehicle_repo: VehicleRepository) -> (service: Self)
        ensures
            service@ == vehicle_repo@,
    {
        VehicleService { vehicle_repo }
    }

    /// Gives the table back.
    pub fn into_repo(self) -> (repo: VehicleRepository)
        ensures
            repo@ == self@,
    {
        self.vehicle_repo
    }

    /// Registers a vehicle under a fresh random identifier, stamped with the
    /// current time; it starts out `Available`.
    pub fn create_vehicle(&mut self, dto: CreateVehicleDto) -> (r: Result<Vehicle, AppError>)
        ensures
            exists|id: u128, now: i64|
                version_four(id) && (r, final(self)@) == vehicle_created(old(self)@, id, dto, now),
    {
        let id = new_v4_value();
        let now = now_micros();
        let r = self.vehicle_repo.create_with(id, dto, now);
        assert((r, self@) == vehicle_created(old(self)@, id, dto, now));
        r
    }

    /// The live vehicle under `id`.
    pub fn get_vehicle(&self, id: u128) -> (r: Result<Vehicle, AppError>)
        ensures
            r == vehicle_fetched(self@, id),
    {
        match self.vehicle_repo.find_by_id(id) {
            Ok(row) => Resource::Vehicle.required(row),
            Err(e) => Err(e),
        }
    }

    /// Every live vehicle, in the order the vehicles were registered.
    pub fn list_vehicles(&self) -> (r: Result<Vec<Vehicle>, AppError>)
        ensures
            r is Ok,
            r->Ok_0@ == live_vehicles(self@),
    {
        self.vehicle_repo.find_all()
    }

    /// Sets the status of the live vehicle under `id`, stamped with the
    /// current time.
    pub fn update_vehicle_status(&mut self, id: u128, status: VehicleStatus) -> (r: Result<
        Vehicle,
        AppError,
    >)
        ensures
            exists|now: i64| (r, final(self)@) == vehicle_status_set(old(self)@, id, status, now),
    {
        let now = now_micros();
        let r = self.vehicle_repo.update_status_at(id, status, now);
        assert((r, self@) == vehicle_status_set(old(self)@, id, status, now));
        r
    }

    /// Applies a change request to the vehicle under `id`, stamped with the
    /// current time. `Ok(None)` says the request asked for nothing.
    pub fn update_vehicle(&mut self, id: u128, dto: UpdateVehicleDto) -> (r: Result<
        Option<Vehicle>,
        AppError,
    >)
        ensures
            exists|now: i64| (r, final(self)@) == vehicle_updated(old(self)@, id, dto, now),
    {
        let now = now_micros();
        let r = match dto.status {
            Some(status) => match self.vehicle_repo.update_status_at(id, status, now) {
                Ok(v) => Ok(Some(v)),
                Err(e) => Err(e),
            },
            None => Ok(None),
        };
        assert((r, self@) == vehicle_updated(old(self)@, id, dto, now));
        r
    }

    /// Retires the live vehicle under `id`, stamped with the current time.
    pub fn delete_vehicle(&mut self, id: u128) -> (r: Result<(), AppError>)
        ensures
            exists|now: i64| (r, final(self)@) == vehicle_retired(old(self)@, id, now),
    {
        let now = now_micros();
        let r = match self.vehicle_repo.find_by_id(id) {
            Ok(Some(_)) => self.vehicle_repo.delete_at(id, now),
            Ok(None) => Err(AppError::ResourceNotFound(Resource::Vehicle)),
            Err(e) => Err(e),
        };
        assert((r, self@) == vehicle_retired(old(self)@, id, now));
        r
    }
}

} // verus!
