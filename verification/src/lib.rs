//! The core of a small to-do service: the routing table, the statements that its repository
//! sends to a relational store, a reference store that says what those statements do, and the
//! mapping of outcomes and failures to responses.

pub mod api;
pub mod config;
pub mod error;
pub mod laws;
pub mod repository;
pub mod response;
pub mod router;
pub mod store;
pub mod text;
pub mod todo;
