//! The driver gateway: lookup by identifier and status updates on driver
//! rows. It checks nothing across tables; keeping a driver's status in step
//! with the ledger is the coordinator's business.

use vstd::prelude::*;
use crate::error::{AppError, Resource, StoreFault};
use crate::models::driver::{CreateDriverDto, Driver, DriverStatus};
use crate::outside::{new_v4_value, now_micros, version_four};
use crate::repositories::table::{distinct, holds, slot, Record, Table};

verus! {

impl Record for Driver {
    open spec fn key(&self) -> u128 {
        self.id
    }

    fn id(&self) -> (r: u128) {
        self.id
    }
}

/// The live row under `id`: the row stored under it, unless that row is
/// soft-deleted.
pub open spec fn live_driver(rows: Seq<Driver>, id: u128) -> Option<Driver> {
    match slot(rows, id) {
        Some(i) => if rows[i].live() {
            Some(rows[i])
        } else {
            None
        },
        None => None,
    }
}

/// The rows that are not soft-deleted, in table order.
pub open spec fn live_drivers(rows: Seq<Driver>) -> Seq<Driver> {
    rows.filter(|v: Driver| v.live())
}

/// Registering a driver under `id` at `now`: the new row goes to the end of
/// the table, unless the identifier is taken, which the table refuses.
pub open spec fn driver_created(rows: Seq<Driver>, id: u128, dto: CreateDriverDto, now: i64) -> (
    Result<Driver, AppError>,
    Seq<Driver>,
) {
    if holds(rows, id) {
        (Err(AppError::StoreFailure(StoreFault::ConstraintViolation)), rows)
    } else {
        (Ok(dto.row(id, now)), rows.push(dto.row(id, now)))
    }
}

/// Setting the status of the live row under `id` at `now`. Without such a
/// row nothing changes.
pub open spec fn driver_status_set(rows: Seq<Driver>, id: u128, status: DriverStatus, now: i64) -> (
    Result<Driver, AppError>,
    Seq<Driver>,
) {
    match live_driver(rows, id) {
        Some(v) => (
            Ok(v.with_status(status, now)),
            rows.update(slot(rows, id).unwrap(), v.with_status(status, now)),
        ),
        None => (Err(AppError::ResourceNotFound(Resource::Driver)), rows),
    }
}

/// Soft-deleting the row under `id` at `now`, whether or not it was
/// soft-deleted before. Without a row under `id` nothing changes.
pub open spec fn driver_deleted(rows: Seq<Driver>, id: u128, now: i64) -> (
    Result<(), AppError>,
    Seq<Driver>,
) {
    match slot(rows, id) {
        Some(i) => (Ok(()), rows.update(i, rows[i].deleted(now))),
        None => (Err(AppError::ResourceNotFound(Resource::Driver)), rows),
    }
}

/// The driver table.
pub struct DriverRepository {
    table: Table<Driver>,
}

impl View for DriverRepository {
    type V = Seq<Driver>;

    closed spec fn view(&self) -> Seq<Driver> {
        self.table@
    }
}

impl DriverRepository {
    /// A gateway over an empty table.
    pub fn new() -> (repo: Self)
        ensures
            repo@ == Seq::<Driver>::empty(),
    {
        DriverRepository { table: Table::new() }
    }

    /// Registers a driver under a fresh random identifier, stamped with the
    /// current time. What the outcome is for the identifier and instant that
    /// were drawn is `create_with`'s contract.
    pub fn create(&mut self, dto: CreateDriverDto) -> (r: Result<Driver, AppError>)
        ensures
            exists|id: u128, now: i64|
                version_four(id) && (r, final(self)@) == driver_created(old(self)@, id, dto, now),
            distinct(old(self)@) ==> distinct(final(self)@),
    {
        let id = new_v4_value();
        let now = now_micros();
        self.create_with(id, dto, now)
    }

    /// Registers a driver under `id`, stamped `now`.
    pub fn create_with(&mut self, id: u128, dto: CreateDriverDto, now: i64) -> (r: Result<
        Driver,
        AppError,
    >)
        ensures
            (r, final(self)@) == driver_created(old(self)@, id, dto, now),
            distinct(old(self)@) ==> distinct(final(self)@),
    {
        let row = dto.into_row(id, now);
        let copy = row.duplicate();
        if self.table.append(row) {
            Ok(copy)
        } else {
            Err(AppError::StoreFailure(StoreFault::ConstraintViolation))
        }
    }

    /// The number of rows in the table, soft-deleted ones included.
    pub fn len(&self) -> (n: usize)
        ensures
            n == self@.len(),
    {
        self.table.len()
    }

    /// The row at index `i`.
    pub fn row(&self, i: usize) -> (r: &Driver)
        requires
            i < self@.len(),
        ensures
            *r == self@[i as int],
    {
        self.table.row(i)
    }

    /// Whether no two rows share an identifier.
    pub fn has_distinct_ids(&self) -> (r: bool)
        ensures
            r == distinct(self@),
    {
        self.table.has_distinct_keys()
    }

    /// Every live driver, in the order the drivers were registered.
    pub fn find_all(&self) -> (r: Result<Vec<Driver>, AppError>)
        ensures
            r is Ok,
            r->Ok_0@ == live_drivers(self@),
    {
        let mut out: Vec<Driver> = Vec::new();
        let n = self.table.len();
        let mut i: usize = 0;
        proof {
            reveal(Seq::filter);
        }
        while i < n
            invariant
                n == self.table@.len(),
                i <= n,
                out@ == live_drivers(self.table@.take(i as int)),
            decreases n - i,
        {
            let row = self.table.row(i);
            proof {
                reveal(Seq::filter);
                assert(self.table@.take(i + 1).drop_last() =~= self.table@.take(i as int));
            }
            if row.is_live() {
                out.push(row.duplicate());
            }
            i += 1;
        }
        proof {
            assert(self.table@.take(n as int) =~= self.table@);
        }
        Ok(out)
    }

    /// The live driver under `id`, if there is one.
    pub fn find_by_id(&self, id: u128) -> (r: Result<Option<Driver>, AppError>)
        ensures
            r == Ok::<Option<Driver>, AppError>(live_driver(self@, id)),
    {
        match self.table.index_of(id) {
            Some(i) => {
                let row = self.table.row(i);
                if row.is_live() {
                    Ok(Some(row.duplicate()))
                } else {
                    Ok(None)
                }
            },
            None => Ok(None),
        }
    }

    /// Sets the status of the live driver under `id`, stamped with the
    /// current time. What the outcome is for the instant that was read is
    /// `update_status_at`'s contract.
    pub fn update_status(&mut self, id: u128, status: DriverStatus) -> (r: Result<Driver, AppError>)
        ensures
            exists|now: i64| (r, final(self)@) == driver_status_set(old(self)@, id, status, now),
            distinct(old(self)@) ==> distinct(final(self)@),
    {
        let now = now_micros();
        self.update_status_at(id, status, now)
    }

    /// Sets the status of the live driver under `id`, stamped `now`, and
    /// returns the row as it then stands.
    pub fn update_status_at(&mut self, id: u128, status: DriverStatus, now: i64) -> (r: Result<
        Driver,
        AppError,
    >)
        ensures
            (r, final(self)@) == driver_status_set(old(self)@, id, status, now),
            distinct(old(self)@) ==> distinct(final(self)@),
    {
        match self.table.index_of(id) {
            Some(i) => {
                let row = self.table.row(i);
                if row.is_live() {
                    let mut updated = row.duplicate();
                    updated.status = status;
                    updated.updated_at = now;
                    let copy = updated.duplicate();
                    self.table.replace(i, updated);
                    Ok(copy)
                } else {
                    Err(AppError::ResourceNotFound(Resource::Driver))
                }
            },
            None => Err(AppError::ResourceNotFound(Resource::Driver)),
        }
    }

    /// Soft-deletes the driver under `id`, stamped with the current time.
    /// What the outcome is for the instant that was read is `delete_at`'s
    /// contract.
    pub fn delete(&mut self, id: u128) -> (r: Result<(), AppError>)
        ensures
            exists|now: i64| (r, final(self)@) == driver_deleted(old(self)@, id, now),
            distinct(old(self)@) ==> distinct(final(self)@),
    {
        let now = now_micros();
        self.delete_at(id, now)
    }

    /// Soft-deletes the driver under `id`, stamped `now`.
    pub fn delete_at(&mut self, id: u128, now: i64) -> (r: Result<(), AppError>)
        ensures
            (r, final(self)@) == driver_deleted(old(self)@, id, now),
            distinct(old(self)@) ==> distinct(final(self)@),
    {
        match self.table.index_of(id) {
            Some(i) => {
                let mut updated = self.table.row(i).duplicate();
                updated.deleted_at = Some(now);
                self.table.replace(i, updated);
                Ok(())
            },
            None => Err(AppError::ResourceNotFound(Resource::Driver)),
        }
    }
}

} // verus!
