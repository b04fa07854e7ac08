//! Accounts, verification tokens and the identity service over them.

pub mod laws;
pub mod model;
pub mod repository;
pub mod service;
