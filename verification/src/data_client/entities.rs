//! Feedback entities of the back end, and the chat records that the logger stores.

use vstd::prelude::*;
use crate::text::{append, push_str, string_of, zero_pad, zero_padded};

verus! {

/// The state of a feedback item.
#[derive(Clone, Copy, Debug, PartialEq, Eq, Structural)]
pub enum FeedbackStatus {
    Unconfirmed,
    Confirmed,
    Resolved,
}

/// The status codes that the back end may store: none, 0, 1, 2 or 3.
pub open spec fn valid_status_code(value: Option<i8>) -> bool {
    match value {
        None => true,
        Some(c) => 0 <= c <= 3,
    }
}

/// The status that a stored code means: none and 0 are unconfirmed, 1 and 2 confirmed,
/// 3 resolved.
pub open spec fn status_of_code(value: Option<i8>) -> FeedbackStatus {
    match value {
        Some(1) | Some(2) => FeedbackStatus::Confirmed,
        Some(3) => FeedbackStatus::Resolved,
        _ => FeedbackStatus::Unconfirmed,
    }
}

/// The code that the back end is sent for a status.
pub open spec fn code_of_status(s: FeedbackStatus) -> i8 {
    match s {
        FeedbackStatus::Unconfirmed => 0,
        FeedbackStatus::Confirmed => 1,
        FeedbackStatus::Resolved => 3,
    }
}

/// The position of a status among the variants (`status as i8`): 0, 1 or 2.
pub open spec fn ordinal_of_status(s: FeedbackStatus) -> i8 {
    match s {
        FeedbackStatus::Unconfirmed => 0,
        FeedbackStatus::Confirmed => 1,
        FeedbackStatus::Resolved => 2,
    }
}

impl FeedbackStatus {
    /// The status that a stored code means (`From<Option<i8>>`); any other code is refused.
    pub fn from_code(value: Option<i8>) -> (r: FeedbackStatus)
        requires
            valid_status_code(value),
        ensures
            r == status_of_code(value),
    {
        match value {
            Some(1) | Some(2) => FeedbackStatus::Confirmed,
            Some(3) => FeedbackStatus::Resolved,
            _ => FeedbackStatus::Unconfirmed,
        }
    }

    /// The code that the back end is sent for this status (`From<FeedbackStatus> for i8`).
    pub fn code(self) -> (r: i8)
        ensures
            r == code_of_status(self),
    {
        match self {
            FeedbackStatus::Unconfirmed => 0,
            FeedbackStatus::Confirmed => 1,
            FeedbackStatus::Resolved => 3,
        }
    }

    /// The position of this status among the variants, as `status as i8` gives it.
    pub fn ordinal(self) -> (r: i8)
        ensures
            r == ordinal_of_status(self),
    {
        match self {
            FeedbackStatus::Unconfirmed => 0,
            FeedbackStatus::Confirmed => 1,
            FeedbackStatus::Resolved => 2,
        }
    }

    /// The status's name, as its `Debug` output writes it.
    pub fn name(self) -> (r: &'static str)
        ensures
            r@ == match self {
                FeedbackStatus::Unconfirmed => "Unconfirmed"@,
                FeedbackStatus::Confirmed => "Confirmed"@,
                FeedbackStatus::Resolved => "Resolved"@,
            },
    {
        match self {
            FeedbackStatus::Unconfirmed => "Unconfirmed",
            FeedbackStatus::Confirmed => "Confirmed",
            FeedbackStatus::Resolved => "Resolved",
        }
    }
}

impl From<FeedbackStatus> for i8 {
    fn from(value: FeedbackStatus) -> (r: i8) {
        value.code()
    }
}

impl vstd::std_specs::convert::FromSpecImpl<FeedbackStatus> for i8 {
    open spec fn obeys_from_spec() -> bool {
        true
    }

    open spec fn from_spec(value: FeedbackStatus) -> i8 {
        code_of_status(value)
    }
}

/// A status sent to the back end comes back as the same status: its code is a valid
/// stored code, and that code means the status again.
pub proof fn status_codes_round_trip(s: FeedbackStatus)
    ensures
        valid_status_code(Some(code_of_status(s))),
        status_of_code(Some(code_of_status(s))) == s,
{
}

/// The type of a message on a feedback item; the back end knows only comments.
#[derive(Clone, Copy, Debug, PartialEq, Eq, Structural)]
pub enum FeedbackMsgType {
    Comment,
}

impl FeedbackMsgType {
    /// The type that a type name denotes (`From<String>`): every name is a comment.
    pub fn from_name(value: &str) -> (r: FeedbackMsgType)
        ensures
            r == FeedbackMsgType::Comment,
    {
        FeedbackMsgType::Comment
    }

    /// The type's name (`From<FeedbackMsgType> for String`).
    pub fn name(self) -> (r: String)
        ensures
            r@ == "comment"@,
    {
        crate::text::string_of(&crate::text::chars_of("comment"))
    }
}

/// The envelope of every back-end answer.
pub struct ApiResponse<T> {
    pub data: T,
}

/// A date and time without time zone, as the back end sends it (`chrono::NaiveDateTime`):
/// its calendar fields.
#[derive(Clone, Copy, Debug, PartialEq, Eq, Structural)]
pub struct DateTime {
    pub year: i32,
    pub month: u32,
    pub day: u32,
    pub hour: u32,
    pub minute: u32,
    pub second: u32,
}

/// The year as `%Y` writes it: four digits with leading zeros, with a sign outside
/// `0..=9999`.
pub open spec fn year_text(y: i32) -> Seq<char> {
    if 0 <= y < 10000 {
        zero_padded(y as nat, 4)
    } else if y >= 10000 {
        seq!['+'] + zero_padded(y as nat, 4)
    } else {
        seq!['-'] + zero_padded((-y) as nat, 4)
    }
}

/// `%Y-%m-%d %H:%M`.
pub open spec fn minute_text(t: DateTime) -> Seq<char> {
    year_text(t.year) + seq!['-'] + zero_padded(t.month as nat, 2) + seq!['-'] + zero_padded(
        t.day as nat,
        2,
    ) + seq![' '] + zero_padded(t.hour as nat, 2) + seq![':'] + zero_padded(t.minute as nat, 2)
}

/// `%Y-%m-%d %H:%M:%S`.
pub open spec fn second_text(t: DateTime) -> Seq<char> {
    minute_text(t) + seq![':'] + zero_padded(t.second as nat, 2)
}

impl DateTime {
    fn year_chars(&self) -> (r: Vec<char>)
        ensures
            r@ == year_text(self.year),
    {
        let y = self.year;
        if 0 <= y && y < 10000 {
            zero_pad(y as u64, 4)
        } else if y >= 10000 {
            let mut r: Vec<char> = vec!['+'];
            append(&mut r, &zero_pad(y as u64, 4));
            r
        } else {
            let m: u64 = (0 - (y as i64)) as u64;
            let mut r: Vec<char> = vec!['-'];
            append(&mut r, &zero_pad(m, 4));
            r
        }
    }

    fn minute_chars(&self) -> (r: Vec<char>)
        ensures
            r@ == minute_text(*self),
    {
        let mut r = self.year_chars();
        r.push('-');
        append(&mut r, &zero_pad(self.month as u64, 2));
        r.push('-');
        append(&mut r, &zero_pad(self.day as u64, 2));
        r.push(' ');
        append(&mut r, &zero_pad(self.hour as u64, 2));
        r.push(':');
        append(&mut r, &zero_pad(self.minute as u64, 2));
        r
    }

    /// The time to the minute: `%Y-%m-%d %H:%M`.
    pub fn to_minute_string(&self) -> (r: String)
        ensures
            r@ == minute_text(*self),
    {
        string_of(&self.minute_chars())
    }

    /// The time to the second: `%Y-%m-%d %H:%M:%S`.
    pub fn to_second_string(&self) -> (r: String)
        ensures
            r@ == second_text(*self),
    {
        let mut r = self.minute_chars();
        r.push(':');
        append(&mut r, &zero_pad(self.second as u64, 2));
        string_of(&r)
    }
}

/// A page of feedback items with the total count.
pub struct FeedbackList {
    pub rows: Vec<FeedbackDetail>,
    pub count: u32,
}

/// A message on a feedback item.
pub struct FeedbackMsg {
    pub id: u32,
    pub typ: FeedbackMsgType,
    pub msg: Option<String>,
    pub feedback_id: u32,
    pub created_at: DateTime,
}

/// A feedback item with its messages.
pub struct FeedbackDetail {
    pub id: i32,
    pub contact: Option<String>,
    pub create_time: DateTime,
    pub desc: String,
    pub img_url: Option<String>,
    pub stu_id: Option<String>,
    pub status: FeedbackStatus,
    pub update_time: DateTime,
    pub comment: Option<String>,
    pub msgs: Vec<FeedbackMsg>,
}

/// A new feedback item announced on the message queue.
pub struct RabbitFeedbackMessage {
    pub stu_id: Option<String>,
    pub desc: String,
    pub img_url: Option<String>,
    pub id: u64,
}

/// A group chat message to store in the `chat_records` table, with as much of the received
/// event as is known.
pub struct NewChatRecord {
    pub message_id: i64,
    pub group_id: i64,
    pub user_id: i64,
    pub nickname: Option<String>,
    pub card: Option<String>,
    pub role: Option<String>,
    pub message_type: Option<String>,
    pub sub_type: Option<String>,
    pub raw_message: Option<String>,
    pub plain_text: Option<String>,
    pub human_text: Option<String>,
    pub images: Option<String>,
    pub files: Option<String>,
    pub message_json: Option<String>,
    pub original_json: Option<String>,
    pub self_id: i64,
    pub font: i64,
    pub msg_time: i64,
}

impl Default for NewChatRecord {
    fn default() -> (r: NewChatRecord)
        ensures
            r.message_id == 0 && r.group_id == 0 && r.user_id == 0 && r.self_id == 0 && r.font == 0
                && r.msg_time == 0,
            r.nickname is None && r.card is None && r.role is None && r.message_type is None
                && r.sub_type is None && r.raw_message is None && r.plain_text is None
                && r.human_text is None && r.images is None && r.files is None && r.message_json is None
                && r.original_json is None,
    {
        NewChatRecord {
            message_id: 0,
            group_id: 0,
            user_id: 0,
            nickname: None,
            card: None,
            role: None,
            message_type: None,
            sub_type: None,
            raw_message: None,
            plain_text: None,
            human_text: None,
            images: None,
            files: None,
            message_json: None,
            original_json: None,
            self_id: 0,
            font: 0,
            msg_time: 0,
        }
    }
}

} // verus!
