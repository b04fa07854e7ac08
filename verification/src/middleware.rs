//! What stands between the transport and the services.

pub mod auth;
