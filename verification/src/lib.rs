//! A store for opaque encrypted blobs ("safes"), each kept under a unique
//! identifier together with its size, a version and two timestamps.
//!
//! - [`models`]: the record, its update rule, the error kinds, and the shapes of
//!   requests and answers.
//! - [`ident`] and [`clock`]: identifiers and time, the two things that come from
//!   outside.
//! - [`table`]: the records as one sequential map, every operation with an exact
//!   contract; [`laws`] proves what holds of these operations taken together.
//! - [`storage`]: the storage interface, and the in-memory store that shares one
//!   table between callers behind a readers-writer lock.
//! - [`handlers`]: what each request does with a store.

pub mod clock;
pub mod handlers;
pub mod ident;
pub mod laws;
pub mod models;
pub mod storage;
pub mod table;
