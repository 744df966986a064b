//! Users, as far as letting a request through depends on them.

use vstd::prelude::*;

verus! {

#[derive(Clone, Copy, Debug, PartialEq, Eq, Structural)]
pub enum UserRole {
    Admin,
    Manager,
    Driver,
    Mechanic,
}

/// What a verified token says of its bearer.
#[derive(Clone, Copy, Debug, PartialEq, Eq, Structural)]
pub struct Claims {
    /// The user's identifier.
    pub sub: u128,
    pub role: UserRole,
    /// When the token expires, in seconds since the Unix epoch.
    pub exp: u64,
}

/// The body of a request to change a user's role or to switch the account
/// on or off.
#[derive(Clone, Copy, Debug, PartialEq, Eq, Structural)]
pub struct UpdateUserRequest {
    pub role: UserRole,
    pub is_active: bool,
}

impl UpdateUserRequest {
    /// Whether carrying the request out takes the user's access away, so
    /// that their entry in the cache of users let through must be dropped.
    pub open spec fn revokes(self) -> bool {
        !self.is_active
    }

    pub fn revokes_access(&self) -> (r: bool)
        ensures
            r == self.revokes(),
    {
        !self.is_active
    }
}

} // verus!
