//! The resource store, held in memory: one keyed table per kind of record,
//! and the three gateways the coordinator goes through. Beside them, the
//! handle on the cache of live vehicle statuses.

pub mod assignment_repo;
pub mod driver_repo;
pub mod table;
pub mod vehicle_repo;
pub mod vehicle_status_repo;
