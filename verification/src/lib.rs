//! Core of a small booking service: bearer-token authentication, structural
//! validation of reservations, owner-scoped conflict detection over half-open
//! time intervals, and the orchestration that ties them to a reservation store.
//!
//! Every executable function carries a contract over a mathematical model of
//! its data, and the contracts are proved. The few calls into other crates
//! (time-stamp parsing, token signing, password hashing) sit behind small
//! wrappers whose contracts are assumed and documented as such.

pub mod auth;
pub mod clock;
pub mod decimal;
pub mod errors;
pub mod reservations;
pub mod routing;
pub mod service;
pub mod store;
pub mod users;
pub mod workflow;
