//! An in-memory store of todo records with verified create, read, update and
//! delete semantics, plus the small blog catalogue served next to it.

pub mod models;
pub mod store;
pub mod repository;
pub mod blog;
pub mod laws;
pub mod api_key;
