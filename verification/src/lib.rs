//! Verified core of a to-do application backend: settings, the command
//! line's decisions, the database pre-flight, the shared connection handle,
//! the repository contract and the web server's lifecycle.

pub mod cli;
pub mod config;
pub mod services;
pub mod text;

pub use crate::services::web_server;
