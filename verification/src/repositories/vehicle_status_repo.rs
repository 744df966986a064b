//! Where the live status of a vehicle is cached: the handle on the cache
//! server, and the key a vehicle's entry is kept under.

use vstd::prelude::*;
use vstd::string::StringExecFns;
use crate::outside::{hyphenated, hyphenated_text};

verus! {

/// The cache of vehicle statuses on a Redis server.
pub struct VehicleStatusCacheRepository {
    client: redis::Client,
}

impl VehicleStatusCacheRepository {
    /// The server handle the repository works through.
    pub closed spec fn handle(&self) -> redis::Client {
        self.client
    }

    /// The key of vehicle `vehicle_id`'s entry: the text `vehicle_status:`
    /// followed by the identifier in its hyphenated form.
    pub open spec fn key_of(vehicle_id: u128) -> Seq<char> {
        "vehicle_status:"@ + hyphenated(vehicle_id)
    }

    /// A repository working through `client`.
    pub fn new(client: redis::Client) -> (repo: Self)
        ensures
            repo.handle() == client,
    {
        VehicleStatusCacheRepository { client }
    }

    pub fn client(&self) -> (client: &redis::Client)
        ensures
            *client == self.handle(),
    {
        &self.client
    }

    pub fn key(vehicle_id: u128) -> (key: String)
        ensures
            key@ == Self::key_of(vehicle_id),
    {
        let mut key = String::from_str("vehicle_status:");
        let id = hyphenated_text(vehicle_id);
        key.append(id.as_str());
        key
    }
}

} // verus!
