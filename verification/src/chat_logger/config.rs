//! The configuration of the chat logger (the `[chat_logger]` table).

use vstd::prelude::*;
use crate::text::{chars_of, string_of};

verus! {

pub struct Configs {
    pub chat_logger: ChatLogger,
}

pub struct ChatLogger {
    /// The administrators who may manage the monitored groups.
    pub admin_qq: Vec<String>,
    /// Where pictures of logged messages are saved.
    pub image_dir: String,
    /// Where files of logged messages are saved.
    pub file_dir: String,
}

/// Where pictures are saved when `image_dir` is not configured.
pub fn default_image_dir() -> (r: String)
    ensures
        r@ == "data/chat_images"@,
{
    string_of(&chars_of("data/chat_images"))
}

/// Where files are saved when `file_dir` is not configured.
pub fn default_file_dir() -> (r: String)
    ensures
        r@ == "data/chat_files"@,
{
    string_of(&chars_of("data/chat_files"))
}

} // verus!
