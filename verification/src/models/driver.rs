//! Drivers, as the coordinator and the driver gateway see them.

use vstd::prelude::*;

verus! {

/// Whether a driver can be given a vehicle.
///
/// `OnDuty` is a cache of the ledger: a driver is `OnDuty` exactly while one
/// open assignment refers to them. The other three are set by hand.
#[derive(Clone, Copy, Debug, PartialEq, Eq, Structural)]
pub enum DriverStatus {
    Available,
    OnDuty,
    OffDuty,
    SickLeave,
}

/// One row of the driver table. A row with `deleted_at` set is soft-deleted:
/// it stays in the table and no lookup finds it.
#[derive(Clone, Debug, PartialEq, Eq)]
pub struct Driver {
    pub id: u128,
    pub user_id: u128,
    pub license_number: String,
    pub status: DriverStatus,
    pub created_at: i64,
    pub updated_at: i64,
    pub deleted_at: Option<i64>,
}

impl Driver {
    /// Whether the row is visible to lookups.
    pub open spec fn live(self) -> bool {
        self.deleted_at is None
    }

    /// The row with its status replaced, touched at `now`.
    pub open spec fn with_status(self, status: DriverStatus, now: i64) -> Driver {
        Driver { status, updated_at: now, ..self }
    }

    /// The row soft-deleted at `now`.
    pub open spec fn deleted(self, now: i64) -> Driver {
        Driver { deleted_at: Some(now), ..self }
    }

    pub fn is_live(&self) -> (r: bool)
        ensures
            r == self.live(),
    {
        self.deleted_at.is_none()
    }

    /// A copy equal to the row in every field.
    pub fn duplicate(&self) -> (r: Driver)
        ensures
            r == *self,
    {
        Driver {
            id: self.id,
            user_id: self.user_id,
            license_number: self.license_number.clone(),
            status: self.status,
            created_at: self.created_at,
            updated_at: self.updated_at,
            deleted_at: self.deleted_at,
        }
    }
}

/// What a caller supplies to have a driver registered.
#[derive(Clone, Debug, PartialEq, Eq)]
pub struct CreateDriverDto {
    pub user_id: u128,
    pub license_number: String,
    pub status: DriverStatus,
}

impl CreateDriverDto {
    /// The table row this request becomes under identifier `id` at instant
    /// `now`.
    pub open spec fn row(self, id: u128, now: i64) -> Driver {
        Driver {
            id,
            user_id: self.user_id,
            license_number: self.license_number,
            status: self.status,
            created_at: now,
            updated_at: now,
            deleted_at: None,
        }
    }

    pub fn into_row(self, id: u128, now: i64) -> (r: Driver)
        ensures
            r == self.row(id, now),
    {
        Driver {
            id,
            user_id: self.user_id,
            license_number: self.license_number,
            status: self.status,
            created_at: now,
            updated_at: now,
            deleted_at: None,
        }
    }
}

/// The body of a request to set a driver's status.
#[derive(Clone, Copy, Debug, PartialEq, Eq, Structural)]
pub struct UpdateDriverStatusRequest {
    pub status: DriverStatus,
}

/// The body of a request to change a driver. Only the status can be
/// changed; a request that names none asks for nothing, whether or not it
/// names a licence number.
#[derive(Clone, Debug, PartialEq, Eq)]
pub struct UpdateDriverDto {
    pub status: Option<DriverStatus>,
    pub license_number: Option<String>,
}

} // verus!
