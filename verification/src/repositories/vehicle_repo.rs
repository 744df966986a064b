//! The vehicle gateway: lookup by identifier and status updates on vehicle
//! rows. It checks nothing across tables; keeping a vehicle's status in step
//! with the ledger is the coordinator's business.

use vstd::prelude::*;
use crate::error::{AppError, Resource, StoreFault};
use crate::models::vehicle::{CreateVehicleDto, Vehicle, VehicleStatus};
use crate::outside::{new_v4_value, now_micros, version_four};
use crate::repositories::table::{distinct, holds, slot, Record, Table};

verus! {

impl Record for Vehicle {
    open spec fn key(&self) -> u128 {
        self.id
    }

    fn id(&self) -> (r: u128) {
        self.id
    }
}

/// The live row under `id`: the row stored under it, unless that row is
/// soft-deleted.
pub open spec fn live_vehicle(rows: Seq<Vehicle>, id: u128) -> Option<Vehicle> {
    match slot(rows, id) {
        Some(i) => if rows[i].live() {
            Some(rows[i])
        } else {
            None
        },
        None => None,
    }
}

/// The rows that are not soft-deleted, in table order.
pub open spec fn live_vehicles(rows: Seq<Vehicle>) -> Seq<Vehicle> {
    rows.filter(|v: Vehicle| v.live())
}

/// Registering a vehicle under `id` at `now`: the new row goes to the end of
/// the table, unless the identifier is taken, which the table refuses.
pub open spec fn vehicle_created(rows: Seq<Vehicle>, id: u128, dto: CreateVehicleDto, now: i64) -> (
    Result<Vehicle, AppError>,
    Seq<Vehicle>,
) {
    if holds(rows, id) {
        (Err(AppError::StoreFailure(StoreFault::ConstraintViolation)), rows)
    } else {
        (Ok(dto.row(id, now)), rows.push(dto.row(id, now)))
    }
}

/// Setting the status of the live row under `id` at `now`. Without such a
/// row nothing changes.
pub open spec fn vehicle_status_set(rows: Seq<Vehicle>, id: u128, status: VehicleStatus, now: i64) -> (
    Result<Vehicle, AppError>,
    Seq<Vehicle>,
) {
    match live_vehicle(rows, id) {
        Some(v) => (
            Ok(v.with_status(status, now)),
            rows.update(slot(rows, id).unwrap(), v.with_status(status, now)),
        ),
        None => (Err(AppError::ResourceNotFound(Resource::Vehicle)), rows),
    }
}

/// Soft-deleting the row under `id` at `now`, whether or not it was
/// soft-deleted before. Without a row under `id` nothing changes.
pub open spec fn vehicle_deleted(rows: Seq<Vehicle>, id: u128, now: i64) -> (
    Result<(), AppError>,
    Seq<Vehicle>,
) {
    match slot(rows, id) {
        Some(i) => (Ok(()), rows.update(i, rows[i].deleted(now))),
        None => (Err(AppError::ResourceNotFound(Resource::Vehicle)), rows),
    }
}

/// The vehicle table.
pub struct VehicleRepository {
    table: Table<Vehicle>,
}

impl View for VehicleRepository {
    type V = Seq<Vehicle>;

    closed spec fn view(&self) -> Seq<Vehicle> {
        self.table@
    }
}

impl VehicleRepository {
    /// A gateway over an empty table.
    pub fn new() -> (repo: Self)
        ensures
            repo@ == Seq::<Vehicle>::empty(),
    {
        VehicleRepository { table: Table::new() }
    }

    /// Registers a vehicle under a fresh random identifier, stamped with the
    /// current time. What the outcome is for the identifier and instant that
    /// were drawn is `create_with`'s contract.
    pub fn create(&mut self, dto: CreateVehicleDto) -> (r: Result<Vehicle, AppError>)
        ensures
            exists|id: u128, now: i64|
                version_four(id) && (r, final(self)@) == vehicle_created(old(self)@, id, dto, now),
            distinct(old(self)@) ==> distinct(final(self)@),
    {
        let id = new_v4_value();
        let now = now_micros();
        self.create_with(id, dto, now)
    }

    /// Registers a vehicle under `id`, stamped `now`.
    pub fn create_with(&mut self, id: u128, dto: CreateVehicleDto, now: i64) -> (r: Result<
        Vehicle,
        AppError,
    >)
        ensures
            (r, final(self)@) == vehicle_created(old(self)@, id, dto, now),
            distinct(old(self)@) ==> distinct(final(self)@),
    {
        let row = dto.into_row(id, now);
        let copy = row.duplicate();
        if self.table.append(row) {
            Ok(copy)
        } else {
            Err(AppError::StoreFailure(StoreFault::ConstraintViolation))
        }
    }

    /// The number of rows in the table, soft-deleted ones included.
    pub fn len(&self) -> (n: usize)
        ensures
            n == self@.len(),
    {
        self.table.len()
    }

    /// The row at index `i`.
    pub fn row(&self, i: usize) -> (r: &Vehicle)
        requires
            i < self@.len(),
        ensures
            *r == self@[i as int],
    {
        self.table.row(i)
    }

    /// Whether no two rows share an identifier.
    pub fn has_distinct_ids(&self) -> (r: bool)
        ensures
            r == distinct(self@),
    {
        self.table.has_distinct_keys()
    }

    /// Every live vehicle, in the order the vehicles were registered.
    pub fn find_all(&self) -> (r: Result<Vec<Vehicle>, AppError>)
        ensures
            r is Ok,
            r->Ok_0@ == live_vehicles(self@),
    {
        let mut out: Vec<Vehicle> = Vec::new();
        let n = self.table.len();
        let mut i: usize = 0;
        proof {
            reveal(Seq::filter);
        }
        while i < n
            invariant
                n == self.table@.len(),
                i <= n,
                out@ == live_vehicles(self.table@.take(i as int)),
            decreases n - i,
        {
            let row = self.table.row(i);
            proof {
                reveal(Seq::filter);
                assert(self.table@.take(i + 1).drop_last() =~= self.table@.take(i as int));
            }
            if row.is_live() {
                out.push(row.duplicate());
            }
            i += 1;
        }
        proof {
            assert(self.table@.take(n as int) =~= self.table@);
        }
        Ok(out)
    }

    /// The live vehicle under `id`, if there is one.
    pub fn find_by_id(&self, id: u128) -> (r: Result<Option<Vehicle>, AppError>)
        ensures
            r == Ok::<Option<Vehicle>, AppError>(live_vehicle(self@, id)),
    {
        match self.table.index_of(id) {
            Some(i) => {
                let row = self.table.row(i);
                if row.is_live() {
                    Ok(Some(row.duplicate()))
                } else {
                    Ok(None)
                }
            },
            None => Ok(None),
        }
    }

    /// Sets the status of the live vehicle under `id`, stamped with the
    /// current time. What the outcome is for the instant that was read is
    /// `update_status_at`'s contract.
    pub fn update_status(&mut self, id: u128, status: VehicleStatus) -> (r: Result<Vehicle, AppError>)
        ensures
            exists|now: i64| (r, final(self)@) == vehicle_status_set(old(self)@, id, status, now),
            distinct(old(self)@) ==> distinct(final(self)@),
    {
        let now = now_micros();
        self.update_status_at(id, status, now)
    }

    /// Sets the status of the live vehicle under `id`, stamped `now`, and
    /// returns the row as it then stands.
    pub fn update_status_at(&mut self, id: u128, status: VehicleStatus, now: i64) -> (r: Result<
        Vehicle,
        AppError,
    >)
        ensures
            (r, final(self)@) == vehicle_status_set(old(self)@, id, status, now),
            distinct(old(self)@) ==> distinct(final(self)@),
    {
        match self.table.index_of(id) {
            Some(i) => {
                let row = self.table.row(i);
                if row.is_live() {
                    let mut updated = row.duplicate();
                    updated.status = status;
                    updated.updated_at = now;
                    let copy = updated.duplicate();
                    self.table.replace(i, updated);
                    Ok(copy)
                } else {
                    Err(AppError::ResourceNotFound(Resource::Vehicle))
                }
            },
            None => Err(AppError::ResourceNotFound(Resource::Vehicle)),
        }
    }

    /// Soft-deletes the vehicle under `id`, stamped with the current time.
    /// What the outcome is for the instant that was read is `delete_at`'s
    /// contract.
    pub fn delete(&mut self, id: u128) -> (r: Result<(), AppError>)
        ensures
            exists|now: i64| (r, final(self)@) == vehicle_deleted(old(self)@, id, now),
            distinct(old(self)@) ==> distinct(final(self)@),
    {
        let now = now_micros();
        self.delete_at(id, now)
    }

    /// Soft-deletes the vehicle under `id`, stamped `now`.
    pub fn delete_at(&mut self, id: u128, now: i64) -> (r: Result<(), AppError>)
        ensures
            (r, final(self)@) == vehicle_deleted(old(self)@, id, now),
            distinct(old(self)@) ==> distinct(final(self)@),
    {
        match self.table.index_of(id) {
            Some(i) => {
                let mut updated = self.table.row(i).duplicate();
                updated.deleted_at = Some(now);
                self.table.replace(i, updated);
                Ok(())
            },
            None => Err(AppError::ResourceNotFound(Resource::Vehicle)),
        }
    }
}

} // verus!
