//! Which group messages are management commands for the chat logger.

use vstd::prelude::*;
use crate::chat_logger::commands::{parse_logger_command, LoggerCommand};
use crate::onebot::{is_admin, listed, mention_text, mentions_any, plain_text, Segment};
use crate::text::{chars_of, string_of, trim, trim_class, CharClass};

verus! {

/// The text of a management command: the trimmed text of a message from an administrator
/// that mentions the bot; none for any other message.
pub fn command_text(admin_qq: &Vec<String>, user_id: i64, segs: &Vec<Segment>, self_id: i64) -> (r:
    Option<String>)
    ensures
        match r {
            Some(t) => listed(admin_qq@, user_id) && mentions_any(segs@, self_id) && t@ == trim(
                plain_text(segs@),
                CharClass::Whitespace,
            ),
            None => !listed(admin_qq@, user_id) || !mentions_any(segs@, self_id),
        },
{
    if !is_admin(admin_qq, user_id) {
        return None;
    }
    match mention_text(segs, self_id) {
        Some(t) => Some(string_of(&trim_class(&chars_of(t.as_str()), CharClass::Whitespace))),
        None => None,
    }
}

} // verus!
