//! Domain values of the host service.
pub mod environment;
pub mod extension;
pub mod hosts;
pub mod instance;
pub mod login_profile;
