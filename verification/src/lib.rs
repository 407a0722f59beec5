//! Verified core of the chrome-host environment manager: the CLI's
//! rendering and exit-code rules, and the host service's domain logic.
pub mod maps;
pub mod text;
pub mod json;
pub mod server;
pub mod cli;
