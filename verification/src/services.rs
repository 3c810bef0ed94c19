//! The services the application is composed of.

pub mod database;
pub mod repositories;
pub mod web_server;
