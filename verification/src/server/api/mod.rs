//! Decisions behind the HTTP API of the host service.
pub mod auth;
pub mod environments;
pub mod error;
pub mod extensions;
pub mod instances;
pub mod mcp;
pub mod remote_access;
pub mod server;
pub mod settings;
