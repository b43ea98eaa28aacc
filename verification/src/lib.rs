//! Verified core of a QQ group bot: command parsing, reply rendering,
//! and the decision logic of its feedback, chat-logging and deployment plugins.

pub mod text;
pub mod deploy;
pub mod data_client;
pub mod feedback;
pub mod onebot;
pub mod chat_logger;
pub mod daily_greeting;
