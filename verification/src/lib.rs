//! A REST resource layer for a single table-backed entity, the animal.
//!
//! The crate is split along the path a request takes: `controllers` turns a
//! verb, a path identifier and a body into a status and a body; `handlers`
//! holds the storage gateway's five operations over an in-memory table;
//! `storage` states what those operations mean over a sequence of rows and
//! proves the laws that clients rely on; `model` and `response` hold the data.

pub mod controllers;
pub mod handlers;
pub mod model;
pub mod response;
pub mod storage;

pub use model::Animal;
