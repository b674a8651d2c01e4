//! Lockbox: API key issuing, parsing and introspection.
//!
//! The library holds the rules of the service: the key token format and its
//! checksum, the introspection decision, the request sequences of each service
//! operation, the error mapping of the HTTP layer and the configuration defaults.
//! Storage, networking and the command line live in the application around it.

pub mod text;
pub mod crypto;
pub mod errors;
pub mod key;
pub mod metadata;
pub mod model;
pub mod words;
pub mod params;
pub mod protocol;
pub mod introspect;
pub mod key_ops;
pub mod namespace_ops;
pub mod tag_ops;
pub mod api;
pub mod dto;
pub mod database;
pub mod telemetry;
pub mod config;
pub mod cli;
pub mod rejection;
pub mod tasks;
pub mod query;
pub mod indexed;
pub mod filters;
