//! Core logic of the reddyt backend: account credentials, OAuth token sets,
//! scheduling overrides, configuration validation and request authentication.

pub mod models;
pub mod routes;
pub mod utils;
