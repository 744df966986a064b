//! What stands between a request and the services.

pub mod auth_middleware;
