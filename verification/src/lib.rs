//! Account, credential and token logic of the Fatum API.
pub mod utils;
pub mod authentication;
pub mod routes;
pub mod configuration;
