//! Blue-green deployment: two container slots behind a Caddy reverse proxy.

pub mod caddy;
pub mod config;
pub mod deploy;
pub mod docker;
pub mod safety;
pub mod swap;
pub mod plugin;
pub mod rollback;
