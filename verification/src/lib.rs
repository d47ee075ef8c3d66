//! A small todo service core: request validation, partial-update merging,
//! timestamp handling, and the transactional operations over a row store,
//! together with the mapping from domain errors to wire-level responses.

pub mod config;
pub mod errors;
pub mod models;
pub mod store;
pub mod temporal;

pub use config::DbInfo;
pub use config::ServerInfo;
