//! The coordinator and what is proved of it, and the keepers of the
//! vehicle and driver tables.

pub mod assignment_flow;
pub mod assignment_service;
pub mod consistency;
pub mod driver_service;
pub mod laws;
pub mod store_session;
pub mod vehicle_service;
