//! What the feedback plugin reads from a group message, and how it announces new feedback.

use vstd::prelude::*;
use crate::data_client::entities::RabbitFeedbackMessage;
use crate::deploy::docker::string_views;
use crate::feedback::utils::student_text;
use crate::onebot::{mentions, mentions_any, Segment};
use crate::text::{
    append, chars_of, decimal, equal, i64_decimal, parse_i64, parse_i64_spec, push_str,
    split_words, string_of, trim, trim_class, u64_decimal, views, words, CharClass,
};

verus! {

/// A command addressed to the bot in the feedback group.
pub struct CommandMessage {
    /// The feedback message that the command replies to: the ID of the last reply segment.
    pub target: Option<i64>,
    /// The words of the command.
    pub args: Vec<String>,
}

/// The text that a segment adds to a command: a space for replies and mentions.
pub open spec fn body_piece(seg: Segment) -> Seq<char> {
    match seg {
        Segment::Reply { .. } => " "@,
        Segment::At { .. } => " "@,
        Segment::Text { text } => match text {
            Some(t) => t@,
            None => Seq::<char>::empty(),
        },
        Segment::Other => Seq::<char>::empty(),
    }
}

/// The text of a command message.
pub open spec fn body_text(segs: Seq<Segment>) -> Seq<char>
    decreases segs.len(),
{
    if segs.len() == 0 {
        Seq::<char>::empty()
    } else {
        body_text(segs.drop_last()) + body_piece(segs.last())
    }
}

/// A word that is not made of whitespace alone.
pub open spec fn has_content() -> spec_fn(Seq<char>) -> bool {
    |w: Seq<char>| trim(w, CharClass::Whitespace).len() > 0
}

/// The words of a command: separated by ASCII whitespace, without the words that are
/// whitespace alone (such as an ideographic space).
pub open spec fn command_words(body: Seq<char>) -> Seq<Seq<char>> {
    words(body, CharClass::AsciiWhitespace).filter(has_content())
}

/// The message ID that the last reply segment names, when it is a number.
pub open spec fn reply_target(segs: Seq<Segment>) -> Option<i64>
    decreases segs.len(),
{
    if segs.len() == 0 {
        None
    } else {
        match segs.last() {
            Segment::Reply { id } => match id {
                Some(s) => match parse_i64_spec(s@) {
                    Some(v) => Some(v as i64),
                    None => None,
                },
                None => None,
            },
            _ => reply_target(segs.drop_last()),
        }
    }
}

/// The command in a group message: the words of its text, replies and mentions counting
/// as spaces, and the message it replies to; none when it does not mention `self_id`.
pub fn read_command(segs: &Vec<Segment>, self_id: i64) -> (r: Option<CommandMessage>)
    ensures
        match r {
            Some(c) => mentions_any(segs@, self_id) && c.target == reply_target(segs@)
                && string_views(c.args@) == command_words(body_text(segs@)),
            None => !mentions_any(segs@, self_id),
        },
{
    let mut target: Option<i64> = None;
    let mut body: Vec<char> = Vec::new();
    let mut i: usize = 0;
    while i < segs.len()
        invariant
            i <= segs@.len(),
            body@ == body_text(segs@.take(i as int)),
            target == reply_target(segs@.take(i as int)),
        decreases segs@.len() - i,
    {
        let ghost pre = segs@.take(i as int);
        let ghost post = segs@.take(i + 1);
        assert(post.drop_last() == pre);
        assert(post.last() == segs@[i as int]);
        let ghost before = body@;
        match &segs[i] {
            Segment::Reply { id } => {
                target = match id {
                    Some(s) => parse_i64(&chars_of(s.as_str())),
                    None => None,
                };
                push_str(&mut body, " ");
            },
            Segment::At { .. } => {
                push_str(&mut body, " ");
            },
            Segment::Text { text } => match text {
                Some(t) => push_str(&mut body, t.as_str()),
                None => {
                    assert(body@ == before + Seq::<char>::empty());
                },
            },
            Segment::Other => {
                assert(body@ == before + Seq::<char>::empty());
            },
        }
        i = i + 1;
    }
    assert(segs@.take(i as int) == segs@);
    match crate::onebot::mention_text(segs, self_id) {
        None => None,
        Some(_) => {
            let ws = split_words(&body, CharClass::AsciiWhitespace);
            let ghost pred = has_content();
            let mut args: Vec<String> = Vec::new();
            let mut j: usize = 0;
            while j < ws.len()
                invariant
                    j <= ws@.len(),
                    pred == has_content(),
                    string_views(args@) == views(ws@).take(j as int).filter(pred),
                decreases ws@.len() - j,
            {
                let ghost pre = views(ws@).take(j as int);
                let ghost post = views(ws@).take(j + 1);
                assert(post == pre.push(ws@[j as int]@));
                proof {
                    pre.lemma_filter_push(ws@[j as int]@, pred);
                }
                let content = trim_class(&ws[j], CharClass::Whitespace);
                assert(pred(ws@[j as int]@) == (content@.len() > 0));
                if content.len() > 0 {
                    let s = string_of(&ws[j]);
                    let ghost before = args@;
                    args.push(s);
                    assert(string_views(args@) == string_views(before).push(s@));
                    assert(post.filter(pred) == pre.filter(pred).push(ws@[j as int]@));
                } else {
                    assert(post.filter(pred) == pre.filter(pred));
                }
                j = j + 1;
            }
            assert(views(ws@).take(j as int) == views(ws@));
            Some(CommandMessage { target, args })
        },
    }
}

/// The announcement of new feedback: its number, the student, the description, and a note
/// when it has a picture.
pub open spec fn announcement_text(f: RabbitFeedbackMessage) -> Seq<char> {
    "收到新的反馈 #"@ + decimal(f.id as nat) + " \n学号: "@ + student_text(f.stu_id) + "\n"@
        + f.desc@ + if f.img_url is Some {
        "\n（含有图片）"@
    } else {
        Seq::<char>::empty()
    }
}

/// The group message that announces new feedback.
pub fn announcement(f: &RabbitFeedbackMessage) -> (r: String)
    ensures
        r@ == announcement_text(*f),
{
    let mut m = chars_of("收到新的反馈 #");
    append(&mut m, &u64_decimal(f.id));
    push_str(&mut m, " \n学号: ");
    match &f.stu_id {
        Some(s) => push_str(&mut m, s.as_str()),
        None => push_str(&mut m, "未提供"),
    }
    push_str(&mut m, "\n");
    push_str(&mut m, f.desc.as_str());
    let ghost before = m@;
    if f.img_url.is_some() {
        push_str(&mut m, "\n（含有图片）");
    } else {
        assert(m@ == before + Seq::<char>::empty());
    }
    string_of(&m)
}

/// Where the announcement of one queued feedback item stands.
#[derive(Debug, Clone, Copy, PartialEq, Eq, Structural)]
pub enum AnnouncePhase {
    /// The announcement is being sent to the group.
    Sending,
    /// The group message is known; the item's mapping to it is being stored.
    Storing,
    /// Nothing more is done for this delivery.
    Done,
}

/// What the caller reports about an announcement.
#[derive(Debug)]
pub enum AnnounceEvent {
    /// The group message was sent, with its ID, or sending failed.
    Sent(Result<i32, String>),
    /// The mapping from the item to the message was stored, or storing failed.
    Stored(Result<(), String>),
}

/// What the caller does next with a queued feedback item.
#[derive(Debug, Clone, Copy, PartialEq, Eq, Structural)]
pub enum AnnounceAction {
    /// Store that item `0` was announced by group message `1`.
    Store(u32, i32),
    /// Acknowledge the delivery: the queue drops it.
    Ack,
    /// Leave the delivery unacknowledged, so that the queue delivers it again.
    LeaveUnacked,
}

/// The events that an announcement in `phase` waits for.
pub open spec fn announce_expects(phase: AnnouncePhase, e: AnnounceEvent) -> bool {
    match (phase, e) {
        (AnnouncePhase::Sending, AnnounceEvent::Sent(_)) => true,
        (AnnouncePhase::Storing, AnnounceEvent::Stored(_)) => true,
        _ => false,
    }
}

/// Whether an announcement in `phase` waits for `e`.
pub fn announce_accepts(phase: AnnouncePhase, e: &AnnounceEvent) -> (r: bool)
    ensures
        r == announce_expects(phase, *e),
{
    match (phase, e) {
        (AnnouncePhase::Sending, AnnounceEvent::Sent(_)) => true,
        (AnnouncePhase::Storing, AnnounceEvent::Stored(_)) => true,
        _ => false,
    }
}

/// One step of announcing item `feedback_id`: the next phase and action after `e`.
pub open spec fn announce_step_spec(feedback_id: u64, e: AnnounceEvent) -> (AnnouncePhase, AnnounceAction) {
    match e {
        AnnounceEvent::Sent(Ok(m)) => (AnnouncePhase::Storing, AnnounceAction::Store(feedback_id as u32, m)),
        AnnounceEvent::Sent(Err(_)) => (AnnouncePhase::Done, AnnounceAction::LeaveUnacked),
        AnnounceEvent::Stored(Ok(())) => (AnnouncePhase::Done, AnnounceAction::Ack),
        AnnounceEvent::Stored(Err(_)) => (AnnouncePhase::Done, AnnounceAction::LeaveUnacked),
    }
}

/// One step of announcing item `feedback_id`: the mapping is stored only after the group
/// message was sent, and the delivery is acknowledged only once both succeeded; any failure
/// leaves it in the queue.
pub fn announce_next(feedback_id: u64, phase: AnnouncePhase, e: &AnnounceEvent) -> (r: (
    AnnouncePhase,
    AnnounceAction,
))
    requires
        announce_expects(phase, *e),
    ensures
        r == announce_step_spec(feedback_id, *e),
{
    match e {
        AnnounceEvent::Sent(Ok(m)) => (AnnouncePhase::Storing, AnnounceAction::Store(feedback_id as u32, *m)),
        AnnounceEvent::Sent(Err(_)) => (AnnouncePhase::Done, AnnounceAction::LeaveUnacked),
        AnnounceEvent::Stored(Ok(())) => (AnnouncePhase::Done, AnnounceAction::Ack),
        AnnounceEvent::Stored(Err(_)) => (AnnouncePhase::Done, AnnounceAction::LeaveUnacked),
    }
}

/// A delivery is acknowledged only in the step after its mapping was stored, and a mapping
/// is stored only in the step after the announcement was sent.
pub proof fn ack_only_after_send_and_store(feedback_id: u64, phase: AnnouncePhase, e: AnnounceEvent)
    requires
        announce_expects(phase, e),
    ensures
        ({
            let (next, a) = announce_step_spec(feedback_id, e);
            &&& a == AnnounceAction::Ack ==> (phase == AnnouncePhase::Storing && (e matches AnnounceEvent::Stored(Ok(_))))
            &&& a is Store ==> (phase == AnnouncePhase::Sending && (e matches AnnounceEvent::Sent(Ok(_))))
            &&& next == AnnouncePhase::Storing <==> a is Store
        }),
{
}

} // verus!
