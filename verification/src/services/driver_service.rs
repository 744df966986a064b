//! Keeping the driver table by hand: registering, looking up, retiring and
//! re-statusing drivers. None of this consults the ledger.

use vstd::prelude::*;
use crate::error::{AppError, Resource};
use crate::outside::{new_v4_value, now_micros, version_four};
use crate::models::driver::{CreateDriverDto, UpdateDriverDto, Driver, DriverStatus};
use crate::repositories::driver_repo::{
    live_driver,
    live_drivers,
    driver_created,
    driver_deleted,
    driver_status_set,
    DriverRepository,
};

verus! {

/// Looking a driver up: the live row under `id`, or a not-found failure.
pub open spec fn driver_fetched(rows: Seq<Driver>, id: u128) -> Result<Driver, AppError> {
    match live_driver(rows, id) {
        Some(v) => Ok(v),
        None => Err(AppError::ResourceNotFound(Resource::Driver)),
    }
}

/// Retiring the live driver under `id` at `now`. A driver that is unknown
/// or already retired is not found, and nothing changes.
pub open spec fn driver_retired(rows: Seq<Driver>, id: u128, now: i64) -> (
    Result<(), AppError>,
    Seq<Driver>,
) {
    match live_driver(rows, id) {
        Some(_) => driver_deleted(rows, id, now),
        None => (Err(AppError::ResourceNotFound(Resource::Driver)), rows),
    }
}

/// Applying a change request to the driver under `id` at `now`. A request
/// that names no status changes nothing and gives no row back.
pub open spec fn driver_updated(rows: Seq<Driver>, id: u128, dto: UpdateDriverDto, now: i64) -> (
    Result<Option<Driver>, AppError>,
    Seq<Driver>,
) {
    match dto.status {
        Some(status) => match driver_status_set(rows, id, status, now) {
            (Ok(v), after) => (Ok(Some(v)), after),
            (Err(e), after) => (Err(e), after),
        },
        None => (Ok(None), rows),
    }
}

/// The driver table's keeper.
pub struct DriverService {
    driver_repo: DriverRepository,
}

impl View for DriverService {
    type V = Seq<Driver>;

    closed spec fn view(&self) -> Seq<Driver> {
        self.driver_repo@
    }
}

impl DriverService {
    /// A keeper of the given table.
    pub fn new(driver_repo: DriverRepository) -> (service: Self)
        ensures
            service@ == driver_repo@,
    {
        DriverService { driver_repo }
    }

    /// Gives the table back.
    pub fn into_repo(self) -> (repo: DriverRepository)
        ensures
            repo@ == self@,
    {
        self.driver_repo
    }

    /// Registers a driver under a fresh random identifier, stamped with the
    /// current time.
    pub fn create_driver(&mut self, dto: CreateDriverDto) -> (r: Result<Driver, AppError>)
        ensures
            exists|id: u128, now: i64|
                version_four(id) && (r, final(self)@) == driver_created(old(self)@, id, dto, now),
    {
        let id = new_v4_value();
        let now = now_micros();
        let r = self.driver_repo.create_with(id, dto, now);
        assert((r, self@) == driver_created(old(self)@, id, dto, now));
        r
    }

    /// The live driver under `id`.
    pub fn get_driver(&self, id: u128) -> (r: Result<Driver, AppError>)
        ensures
            r == driver_fetched(self@, id),
    {
        match self.driver_repo.find_by_id(id) {
            Ok(row) => Resource::Driver.required(row),
            Err(e) => Err(e),
        }
    }

    /// Every live driver, in the order the drivers were registered.
    pub fn list_drivers(&self) -> (r: Result<Vec<Driver>, AppError>)
        ensures
            r is Ok,
            r->Ok_0@ == live_drivers(self@),
    {
        self.driver_repo.find_all()
    }

    /// Sets the status of the live driver under `id`, stamped with the
    /// current time.
    pub fn update_driver_status(&mut self, id: u128, status: DriverStatus) -> (r: Result<
        Driver,
        AppError,
    >)
        ensures
            exists|now: i64| (r, final(self)@) == driver_status_set(old(self)@, id, status, now),
    {
        let now = now_micros();
        let r = self.driver_repo.update_status_at(id, status, now);
        assert((r, self@) == driver_status_set(old(self)@, id, status, now));
        r
    }

    /// Applies a change request to the driver under `id`, stamped with the
    /// current time. `Ok(None)` says the request asked for nothing.
    pub fn update_driver(&mut self, id: u128, dto: &UpdateDriverDto) -> (r: Result<
        Option<Driver>,
        AppError,
    >)
        ensures
            exists|now: i64| (r, final(self)@) == driver_updated(old(self)@, id, *dto, now),
    {
        let now = now_micros();
        let r = match dto.status {
            Some(status) => match self.driver_repo.update_status_at(id, status, now) {
                Ok(v) => Ok(Some(v)),
                Err(e) => Err(e),
            },
            None => Ok(None),
        };
        assert((r, self@) == driver_updated(old(self)@, id, *dto, now));
        r
    }

    /// Retires the live driver under `id`, stamped with the current time.
    pub fn delete_driver(&mut self, id: u128) -> (r: Result<(), AppError>)
        ensures
            exists|now: i64| (r, final(self)@) == driver_retired(old(self)@, id, now),
    {
        let now = now_micros();
        let r = match self.driver_repo.find_by_id(id) {
            Ok(Some(_)) => self.driver_repo.delete_at(id, now),
            Ok(None) => Err(AppError::ResourceNotFound(Resource::Driver)),
            Err(e) => Err(e),
        };
        assert((r, self@) == driver_retired(old(self)@, id, now));
        r
    }
}

} // verus!
