//! The feedback plugin: new feedback announced to the group, and the commands that list,
//! show, answer and resolve feedback.

pub mod api;
pub mod plugin;
pub mod commands;
pub mod entities;
pub mod utils;
