//! The chat logger plugin: stores the messages of monitored groups with their pictures and
//! files.

pub mod collector;
pub mod commands;
pub mod config;
pub mod plugin;
