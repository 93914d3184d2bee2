//! Verified core of a small server-monitoring web service: configuration,
//! login and token guard decisions, database driver selection, the system
//! status report and the websocket push loop.

pub mod auth;
pub mod config;
pub mod db;
pub mod decimal;
pub mod pagination;
pub mod system;
pub mod ws;
