//! The individual commands.

pub mod fast_reply;
pub mod feedback;
pub mod misc;
