//! An identity and access-control engine: a soft-deletable RBAC graph of
//! users, groups and permissions, credential verification, time-bound
//! credentials, and the per-request admission decision.
//!
//! The logic is verified with Verus. What it takes from outside crates (the
//! wall clock, the keyed hash that signs tokens, Argon2 for passwords) it
//! takes on trust, through the few functions marked as such where they
//! stand. Time is an `i64` count of microseconds since the Unix epoch
//! throughout.

pub mod bindings;
pub mod clock;
pub mod credential;
pub mod db;
pub mod entities;
pub mod entity_table;
pub mod errors;
pub mod handlers;
pub mod middleware;
pub mod signing;
pub mod store;
pub mod token;
pub mod usecases;
pub mod user_repo;
