//! A small quote service core: the request-to-persistence mapping layer of a
//! CRUD HTTP service over a single quote resource.
//!
//! The store is modelled as an in-memory table of quotes keyed by a unique
//! identifier; the handlers validate input, apply one store operation, and map
//! its outcome to an HTTP status code and body.

pub mod ext;
pub mod handler;
pub mod laws;
pub mod model;
pub mod store;
