//! A todo service: the records, the partial update that merges a change into
//! a stored record, a repository interface with an in-memory repository, the
//! service that sits on a repository, and the handlers that turn what the
//! service answers into a status and a body.

pub mod model;
pub mod ident;
pub mod store;
pub mod repository;
pub mod memory;
pub mod service;
pub mod handlers;
