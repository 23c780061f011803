//! Core of a client that establishes an authenticated tunnel to a remote
//! gateway whose login runs through a browser-based federated (SAML)
//! round trip. The tunnel protocol itself is an external engine process;
//! this crate owns the connection state machine, the probe-output parsing
//! that extracts the challenge credential and redirect URL, the callback
//! listener's pairing and launch decisions, cache-busting address
//! resolution, and the supervision bookkeeping around the engine's pid.

pub mod bytes;
pub mod cmd;
pub mod config;
pub mod dns;
pub mod form;
pub mod log;
pub mod manager;
pub mod saml_server;
pub mod state_manager;
pub mod task;
pub mod text;

pub use log::log_error;
pub use log::log_info;
pub use state_manager::State;
