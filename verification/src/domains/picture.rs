//! Pictures and the rules of uploading and deleting them.

pub mod model;
pub mod service;
