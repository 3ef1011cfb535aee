//! Persistence and access rules of an event and team-formation service:
//! six related tables held with their referential invariants, the verification of
//! the caller's identity in front of the endpoints, and the decisions of each
//! endpoint.

pub mod ids;
pub mod models;
pub mod schema;
pub mod cruds;
mod integrity;
pub mod auth;
pub mod router;
