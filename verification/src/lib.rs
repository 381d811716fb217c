//! A minimal blog-style resource service, modelled and verified.
//!
//! The crate captures the one piece of real design in a small CRUD web
//! service: the resource contract for articles. `article` holds the data
//! shapes, `store` the persistence semantics (create, get, full-replace
//! update, delete, list over a single table with server-assigned unique
//! identifiers), `router` the static dispatch from method and path to an
//! operation, `handlers` the mapping from operation outcomes to response
//! statuses, and `laws` the properties the store obeys across whole runs,
//! proved once over its mathematical model.

pub mod article;
pub mod handlers;
pub mod laws;
pub mod router;
pub mod store;
