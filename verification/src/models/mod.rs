//! The records the coordinator works on, as plain values.
//!
//! Identifiers are the 128-bit values of UUIDs. Instants are microseconds
//! since the Unix epoch, UTC.

pub mod assignment;
pub mod driver;
pub mod user;
pub mod vehicle;
