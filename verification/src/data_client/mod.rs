//! Data shared by the plugins: configuration, feedback entities and chat records.

pub mod config;
pub mod entities;
