//! Assignment lifecycle and resource-status coordination for a vehicle fleet.
//!
//! An assignment pairs one vehicle with one driver for an interval. The
//! coordinator in `services` creates and closes assignments and keeps three
//! tables in step: the assignment ledger, the vehicles and the drivers. What
//! "in step" means, and that every operation keeps it, is stated and proved
//! in `services::consistency` and `services::laws`.
//!
//! The tables in `repositories` live in memory. For a store that lives
//! elsewhere, `services::assignment_flow` gives the same operations as a
//! sequence of requests to that store, and `services::store_session` proves
//! that both do the same.

pub mod config;
pub mod error;
pub mod middleware;
pub mod models;
pub mod outside;
pub mod repositories;
pub mod services;
