//! The assignment ledger: every assignment ever made, none ever removed.
//! The ledger checks nothing about the rows it is given; that two open
//! assignments never share a vehicle or a driver is the coordinator's
//! business.

use vstd::prelude::*;
use crate::error::{AppError, Resource, StoreFault};
use crate::models::assignment::{AssignmentStatus, CreateAssignmentDto, VehicleAssignment};
use crate::outside::{new_v4_value, now_micros, version_four};
use crate::repositories::table::{distinct, holds, slot, Record, Table};

verus! {

impl Record for VehicleAssignment {
    open spec fn key(&self) -> u128 {
        self.id
    }

    fn id(&self) -> (r: u128) {
        self.id
    }
}

impl VehicleAssignment {
    /// The row with its status replaced, touched at `now`.
    pub open spec fn with_status(self, status: AssignmentStatus, now: i64) -> VehicleAssignment {
        VehicleAssignment { status, updated_at: now, ..self }
    }
}

/// The row under `id`, if there is one.
pub open spec fn assignment_at(rows: Seq<VehicleAssignment>, id: u128) -> Option<VehicleAssignment> {
    match slot(rows, id) {
        Some(i) => Some(rows[i]),
        None => None,
    }
}

/// The rows that refer to driver `driver_id`, in ledger order.
pub open spec fn assignments_of_driver(rows: Seq<VehicleAssignment>, driver_id: u128) -> Seq<
    VehicleAssignment,
> {
    rows.filter(|a: VehicleAssignment| a.driver_id == driver_id)
}

/// Entering an assignment under `id` at `now`: the new row goes to the end
/// of the ledger, unless the identifier is taken, which the ledger refuses.
pub open spec fn assignment_created(
    rows: Seq<VehicleAssignment>,
    id: u128,
    dto: CreateAssignmentDto,
    now: i64,
) -> (Result<VehicleAssignment, AppError>, Seq<VehicleAssignment>) {
    if holds(rows, id) {
        (Err(AppError::StoreFailure(StoreFault::ConstraintViolation)), rows)
    } else {
        (Ok(dto.row(id, now)), rows.push(dto.row(id, now)))
    }
}

/// Setting the status of the row under `id` at `now`. Without such a row
/// nothing changes.
pub open spec fn assignment_status_set(
    rows: Seq<VehicleAssignment>,
    id: u128,
    status: AssignmentStatus,
    now: i64,
) -> (Result<VehicleAssignment, AppError>, Seq<VehicleAssignment>) {
    match slot(rows, id) {
        Some(i) => (
            Ok(rows[i].with_status(status, now)),
            rows.update(i, rows[i].with_status(status, now)),
        ),
        None => (Err(AppError::ResourceNotFound(Resource::Assignment)), rows),
    }
}

/// How many of `rows` satisfy `counted`.
pub open spec fn tally(rows: Seq<VehicleAssignment>, counted: spec_fn(VehicleAssignment) -> bool) -> nat
    decreases rows.len(),
{
    if rows.len() == 0 {
        0
    } else {
        tally(rows.drop_last(), counted) + if counted(rows.last()) {
            1nat
        } else {
            0nat
        }
    }
}

/// The assignments that hold vehicle `vehicle_id`: the open ones that refer
/// to it.
pub open spec fn holds_vehicle(vehicle_id: u128) -> spec_fn(VehicleAssignment) -> bool {
    |a: VehicleAssignment| a.open() && a.vehicle_id == vehicle_id
}

/// The assignments that hold driver `driver_id`: the open ones that refer to
/// them.
pub open spec fn holds_driver(driver_id: u128) -> spec_fn(VehicleAssignment) -> bool {
    |a: VehicleAssignment| a.open() && a.driver_id == driver_id
}

/// The number of open assignments that refer to vehicle `vehicle_id`.
pub open spec fn open_on_vehicle(rows: Seq<VehicleAssignment>, vehicle_id: u128) -> nat {
    tally(rows, holds_vehicle(vehicle_id))
}

/// The number of open assignments that refer to driver `driver_id`.
pub open spec fn open_on_driver(rows: Seq<VehicleAssignment>, driver_id: u128) -> nat {
    tally(rows, holds_driver(driver_id))
}

/// A row added at the end counts once if it is one of the counted, and not
/// at all otherwise.
pub proof fn lemma_tally_push(
    rows: Seq<VehicleAssignment>,
    row: VehicleAssignment,
    counted: spec_fn(VehicleAssignment) -> bool,
)
    ensures
        tally(rows.push(row), counted) == tally(rows, counted) + if counted(row) {
            1nat
        } else {
            0nat
        },
{
    assert(rows.push(row).drop_last() =~= rows);
}

/// Replacing a row takes the old row out of the count and puts the new one
/// in.
pub proof fn lemma_tally_update(
    rows: Seq<VehicleAssignment>,
    i: int,
    row: VehicleAssignment,
    counted: spec_fn(VehicleAssignment) -> bool,
)
    requires
        0 <= i < rows.len(),
    ensures
        tally(rows.update(i, row), counted) + (if counted(rows[i]) {
            1nat
        } else {
            0nat
        }) == tally(rows, counted) + (if counted(row) {
            1nat
        } else {
            0nat
        }),
    decreases rows.len(),
{
    let after = rows.update(i, row);
    if i == rows.len() - 1 {
        assert(after.drop_last() =~= rows.drop_last());
    } else {
        assert(after.drop_last() =~= rows.drop_last().update(i, row));
        lemma_tally_update(rows.drop_last(), i, row, counted);
    }
}

/// Rows that are counted exist: a count above zero has a row behind it.
pub proof fn lemma_tally_witness(
    rows: Seq<VehicleAssignment>,
    counted: spec_fn(VehicleAssignment) -> bool,
)
    requires
        tally(rows, counted) > 0,
    ensures
        exists|i: int| 0 <= i < rows.len() && counted(#[trigger] rows[i]),
    decreases rows.len(),
{
    if counted(rows.last()) {
    } else {
        lemma_tally_witness(rows.drop_last(), counted);
        let i = choose|i: int| 0 <= i < rows.drop_last().len() && counted(#[trigger] rows.drop_last()[i]);
    }
}

/// The assignment ledger.
pub struct AssignmentRepository {
    table: Table<VehicleAssignment>,
}

impl View for AssignmentRepository {
    type V = Seq<VehicleAssignment>;

    closed spec fn view(&self) -> Seq<VehicleAssignment> {
        self.table@
    }
}

impl AssignmentRepository {
    /// An empty ledger.
    pub fn new() -> (repo: Self)
        ensures
            repo@ == Seq::<VehicleAssignment>::empty(),
    {
        AssignmentRepository { table: Table::new() }
    }

    /// Enters an assignment under a fresh random identifier, stamped with
    /// the current time. What the outcome is for the identifier and instant
    /// that were drawn is `create_with`'s contract.
    pub fn create(&mut self, dto: CreateAssignmentDto) -> (r: Result<VehicleAssignment, AppError>)
        ensures
            exists|id: u128, now: i64|
                version_four(id) && (r, final(self)@) == assignment_created(old(self)@, id, dto, now),
            distinct(old(self)@) ==> distinct(final(self)@),
    {
        let id = new_v4_value();
        let now = now_micros();
        self.create_with(id, dto, now)
    }

    /// Enters an assignment under `id`, stamped `now`.
    pub fn create_with(&mut self, id: u128, dto: CreateAssignmentDto, now: i64) -> (r: Result<
        VehicleAssignment,
        AppError,
    >)
        ensures
            (r, final(self)@) == assignment_created(old(self)@, id, dto, now),
            distinct(old(self)@) ==> distinct(final(self)@),
    {
        let row = VehicleAssignment {
            id,
            vehicle_id: dto.vehicle_id,
            driver_id: dto.driver_id,
            start_time: dto.start_time,
            end_time: dto.end_time,
            status: dto.status,
            created_at: now,
            updated_at: now,
        };
        if self.table.append(row) {
            Ok(row)
        } else {
            Err(AppError::StoreFailure(StoreFault::ConstraintViolation))
        }
    }

    /// The number of rows in the ledger.
    pub fn len(&self) -> (n: usize)
        ensures
            n == self@.len(),
    {
        self.table.len()
    }

    /// The row at index `i`.
    pub fn row(&self, i: usize) -> (r: &VehicleAssignment)
        requires
            i < self@.len(),
        ensures
            *r == self@[i as int],
    {
        self.table.row(i)
    }

    /// Whether no two rows share an identifier.
    pub fn has_distinct_ids(&self) -> (r: bool)
        ensures
            r == distinct(self@),
    {
        self.table.has_distinct_keys()
    }

    /// Every assignment, in the order the assignments were entered.
    pub fn find_all(&self) -> (r: Result<Vec<VehicleAssignment>, AppError>)
        ensures
            r is Ok,
            r->Ok_0@ == self@,
    {
        let mut out: Vec<VehicleAssignment> = Vec::new();
        let n = self.table.len();
        let mut i: usize = 0;
        while i < n
            invariant
                n == self.table@.len(),
                i <= n,
                out@ == self.table@.take(i as int),
            decreases n - i,
        {
            out.push(*self.table.row(i));
            i += 1;
        }
        Ok(out)
    }

    /// The assignment under `id`, if there is one.
    pub fn find_by_id(&self, id: u128) -> (r: Result<Option<VehicleAssignment>, AppError>)
        ensures
            r == Ok::<Option<VehicleAssignment>, AppError>(assignment_at(self@, id)),
    {
        match self.table.index_of(id) {
            Some(i) => Ok(Some(*self.table.row(i))),
            None => Ok(None),
        }
    }

    /// Every assignment that refers to driver `driver_id`, in the order the
    /// assignments were entered.
    pub fn find_by_driver_id(&self, driver_id: u128) -> (r: Result<Vec<VehicleAssignment>, AppError>)
        ensures
            r is Ok,
            r->Ok_0@ == assignments_of_driver(self@, driver_id),
    {
        let mut out: Vec<VehicleAssignment> = Vec::new();
        let n = self.table.len();
        let mut i: usize = 0;
        proof {
            reveal(Seq::filter);
        }
        while i < n
            invariant
                n == self.table@.len(),
                i <= n,
                out@ == assignments_of_driver(self.table@.take(i as int), driver_id),
            decreases n - i,
        {
            let row = self.table.row(i);
            proof {
                reveal(Seq::filter);
                assert(self.table@.take(i + 1).drop_last() =~= self.table@.take(i as int));
            }
            if row.driver_id == driver_id {
                out.push(*row);
            }
            i += 1;
        }
        proof {
            assert(self.table@.take(n as int) =~= self.table@);
        }
        Ok(out)
    }

    /// The number of open assignments that refer to vehicle `vehicle_id`.
    pub fn count_open_on_vehicle(&self, vehicle_id: u128) -> (n: usize)
        ensures
            n == open_on_vehicle(self@, vehicle_id),
    {
        let total = self.table.len();
        let mut n: usize = 0;
        let mut i: usize = 0;
        while i < total
            invariant
                total == self.table@.len(),
                i <= total,
                n <= i,
                n == open_on_vehicle(self.table@.take(i as int), vehicle_id),
            decreases total - i,
        {
            let row = self.table.row(i);
            proof {
                assert(self.table@.take(i + 1).drop_last() =~= self.table@.take(i as int));
            }
            if row.is_open() && row.vehicle_id == vehicle_id {
                n += 1;
            }
            i += 1;
        }
        proof {
            assert(self.table@.take(total as int) =~= self.table@);
        }
        n
    }

    /// The number of open assignments that refer to driver `driver_id`.
    pub fn count_open_on_driver(&self, driver_id: u128) -> (n: usize)
        ensures
            n == open_on_driver(self@, driver_id),
    {
        let total = self.table.len();
        let mut n: usize = 0;
        let mut i: usize = 0;
        while i < total
            invariant
                total == self.table@.len(),
                i <= total,
                n <= i,
                n == open_on_driver(self.table@.take(i as int), driver_id),
            decreases total - i,
        {
            let row = self.table.row(i);
            proof {
                assert(self.table@.take(i + 1).drop_last() =~= self.table@.take(i as int));
            }
            if row.is_open() && row.driver_id == driver_id {
                n += 1;
            }
            i += 1;
        }
        proof {
            assert(self.table@.take(total as int) =~= self.table@);
        }
        n
    }

    /// Sets the status of the assignment under `id`, stamped with the
    /// current time. What the outcome is for the instant that was read is
    /// `update_status_at`'s contract.
    pub fn update_status(&mut self, id: u128, status: AssignmentStatus) -> (r: Result<
        VehicleAssignment,
        AppError,
    >)
        ensures
            exists|now: i64|
                (r, final(self)@) == assignment_status_set(old(self)@, id, status, now),
            distinct(old(self)@) ==> distinct(final(self)@),
    {
        let now = now_micros();
        self.update_status_at(id, status, now)
    }

    /// Sets the status of the assignment under `id`, stamped `now`, and
    /// returns the row as it then stands. Any status may follow any other
    /// here: the ledger does not know the lifecycle.
    pub fn update_status_at(&mut self, id: u128, status: AssignmentStatus, now: i64) -> (r: Result<
        VehicleAssignment,
        AppError,
    >)
        ensures
            (r, final(self)@) == assignment_status_set(old(self)@, id, status, now),
            distinct(old(self)@) ==> distinct(final(self)@),
    {
        match self.table.index_of(id) {
            Some(i) => {
                let mut updated = *self.table.row(i);
                updated.status = status;
                updated.updated_at = now;
                self.table.replace(i, updated);
                Ok(updated)
            },
            None => Err(AppError::ResourceNotFound(Resource::Assignment)),
        }
    }
}

} // verus!
