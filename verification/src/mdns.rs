//! The publishing configuration that a container's labels describe.

pub mod config;
pub mod state;

pub use config::Config;
pub use state::State;
