//! Application services of the host service.
pub mod settings_service;
pub mod cdp_session;
pub mod keep_alive;
pub mod tunnel;
pub mod health_service;
pub mod extension_service;
pub mod environment_service;
pub mod instance_service;
pub mod reconciler;
pub mod profile_service;
pub mod activity;
