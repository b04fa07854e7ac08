//! Identity and verification core of a photo-request service: accounts,
//! single-use verification tokens, login gating and signed sessions, with
//! every rule stated as a contract and proved.
//!
//! The stores are kept in memory and the notifier queues what it is given:
//! reading the clock, drawing token strings, hashing, signing and pattern
//! matching are the only steps that leave this library, each through one
//! small function whose contract is taken on trust. Talking to a database, a
//! mail relay or an object store is left to the program around the library,
//! which asks the library for every decision in between.

pub mod clock;
pub mod domains;
pub mod email;
pub mod middleware;
pub mod storage;
pub mod text;
pub mod utils;
pub mod views;
