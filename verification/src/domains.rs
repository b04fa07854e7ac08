//! The service's domains.

pub mod picture;
pub mod user;
