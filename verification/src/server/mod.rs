//! The environment host service: domain values, application services and
//! the decisions behind its HTTP API.
pub mod api;
pub mod application;
pub mod clock;
pub mod domain;
pub mod error;
