//! The parts of a group message that the plugins read, and who may command them.

use vstd::prelude::*;
use crate::text::{chars_of, decimal_int, equal, i64_decimal, push_str, string_of};

verus! {

/// A segment of a group message, with the field that the plugins read.
pub enum Segment {
    /// A reply to an earlier message: the earlier message's ID as text.
    Reply { id: Option<String> },
    /// A mention: the mentioned account as text.
    At { qq: Option<String> },
    /// Plain text.
    Text { text: Option<String> },
    /// Any other kind of segment.
    Other,
}

/// The account `user_id` written as the configuration writes it.
pub open spec fn account_text(user_id: i64) -> Seq<char> {
    decimal_int(user_id as int)
}

/// The segment mentions the account `self_id`.
pub open spec fn mentions(seg: Segment, self_id: i64) -> bool {
    match seg {
        Segment::At { qq } => qq matches Some(q) && q@ == account_text(self_id),
        _ => false,
    }
}

/// Some segment of the message mentions `self_id`.
pub open spec fn mentions_any(segs: Seq<Segment>, self_id: i64) -> bool {
    exists|i: int| 0 <= i < segs.len() && mentions(#[trigger] segs[i], self_id)
}

/// The text of a text segment; nothing for other segments.
pub open spec fn segment_text(seg: Segment) -> Seq<char> {
    match seg {
        Segment::Text { text } => match text {
            Some(t) => t@,
            None => Seq::<char>::empty(),
        },
        _ => Seq::<char>::empty(),
    }
}

/// The text segments written one after another.
pub open spec fn plain_text(segs: Seq<Segment>) -> Seq<char>
    decreases segs.len(),
{
    if segs.len() == 0 {
        Seq::<char>::empty()
    } else {
        plain_text(segs.drop_last()) + segment_text(segs.last())
    }
}

fn mentions_exec(seg: &Segment, me: &Vec<char>, self_id: i64) -> (r: bool)
    requires
        me@ == account_text(self_id),
    ensures
        r == mentions(*seg, self_id),
{
    match seg {
        Segment::At { qq } => match qq {
            Some(q) => equal(&chars_of(q.as_str()), me),
            None => false,
        },
        _ => false,
    }
}

/// The text that a message addressed to `self_id` holds: its text segments in order; none
/// when it does not mention `self_id`.
pub fn mention_text(segs: &Vec<Segment>, self_id: i64) -> (r: Option<String>)
    ensures
        match r {
            Some(t) => mentions_any(segs@, self_id) && t@ == plain_text(segs@),
            None => !mentions_any(segs@, self_id),
        },
{
    let me = i64_decimal(self_id);
    let mut at = false;
    let mut text: Vec<char> = Vec::new();
    let mut i: usize = 0;
    while i < segs.len()
        invariant
            i <= segs@.len(),
            me@ == account_text(self_id),
            at == mentions_any(segs@.take(i as int), self_id),
            text@ == plain_text(segs@.take(i as int)),
        decreases segs@.len() - i,
    {
        let ghost pre = segs@.take(i as int);
        let ghost post = segs@.take(i + 1);
        assert(post.drop_last() == pre);
        assert(post.last() == segs@[i as int]);
        if mentions_exec(&segs[i], &me, self_id) {
            at = true;
        }
        let ghost before = text@;
        match &segs[i] {
            Segment::Text { text: t } => match t {
                Some(s) => push_str(&mut text, s.as_str()),
                None => {
                    assert(text@ == before + Seq::<char>::empty());
                },
            },
            _ => {
                assert(text@ == before + Seq::<char>::empty());
            },
        }
        assert(mentions_any(post, self_id) == (mentions_any(pre, self_id) || mentions(
            segs@[i as int],
            self_id,
        ))) by {
            if mentions_any(post, self_id) {
                let j = choose|j: int| 0 <= j < post.len() && mentions(#[trigger] post[j], self_id);
                if j < i {
                    assert(pre[j] == post[j]);
                }
            }
            if mentions_any(pre, self_id) {
                let j = choose|j: int| 0 <= j < pre.len() && mentions(#[trigger] pre[j], self_id);
                assert(post[j] == pre[j]);
            }
            if mentions(segs@[i as int], self_id) {
                assert(post[i as int] == segs@[i as int]);
            }
        }
        i = i + 1;
    }
    assert(segs@.take(i as int) == segs@);
    if at {
        Some(string_of(&text))
    } else {
        None
    }
}

/// The account `user_id` is one of the listed accounts.
pub open spec fn listed(accounts: Seq<String>, user_id: i64) -> bool {
    exists|i: int| 0 <= i < accounts.len() && (#[trigger] accounts[i])@ == account_text(user_id)
}

/// Whether `user_id` is one of the administrators `admin_qq`.
pub fn is_admin(admin_qq: &Vec<String>, user_id: i64) -> (r: bool)
    ensures
        r == listed(admin_qq@, user_id),
{
    let me = i64_decimal(user_id);
    let mut i: usize = 0;
    while i < admin_qq.len()
        invariant
            i <= admin_qq@.len(),
            me@ == account_text(user_id),
            forall|j: int| 0 <= j < i ==> (#[trigger] admin_qq@[j])@ != account_text(user_id),
        decreases admin_qq@.len() - i,
    {
        if equal(&chars_of(admin_qq[i].as_str()), &me) {
            assert(admin_qq@[i as int]@ == account_text(user_id));
            return true;
        }
        i = i + 1;
    }
    false
}

/// Whether the group `group_id` is the configured group `configured`.
pub fn is_group(group_id: i64, configured: &str) -> (r: bool)
    ensures
        r == (account_text(group_id) == configured@),
{
    equal(&i64_decimal(group_id), &chars_of(configured))
}

} // verus!
