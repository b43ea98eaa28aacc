//! How feedback items are written into group messages.

use vstd::prelude::*;
use crate::data_client::entities::{minute_text, second_text, FeedbackDetail, FeedbackMsg};
use crate::text::{append, chars_of, decimal_int, i64_decimal, push_str, string_of, truncate_chars, truncated};

verus! {

/// The student number, or `未提供` when there is none.
pub open spec fn student_text(stu_id: Option<String>) -> Seq<char> {
    match stu_id {
        Some(s) => s@,
        None => "未提供"@,
    }
}

/// The summary of a feedback item in a list: number, whether it was answered, student,
/// time, description, and a note when it has a picture.
pub open spec fn summary_text(f: FeedbackDetail) -> Seq<char> {
    "#"@ + decimal_int(f.id as int) + "("@ + (if f.msgs@.len() == 0 {
        "未回复"@
    } else {
        "已回复"@
    }) + ")\n学号："@ + student_text(f.stu_id) + "\n时间："@ + second_text(f.create_time)
        + "\n描述："@ + f.desc@ + (if f.img_url is Some {
        "\n（含有图片）"@
    } else {
        Seq::<char>::empty()
    })
}

/// One answer in the detail of a feedback item.
pub open spec fn answer_line(m: FeedbackMsg) -> Seq<char> {
    "\n[回复] "@ + minute_text(m.created_at) + ": "@ + match m.msg {
        Some(t) => t@,
        None => Seq::<char>::empty(),
    }
}

/// The answers in order, each on a line of its own.
pub open spec fn answers_text(ms: Seq<FeedbackMsg>) -> Seq<char>
    decreases ms.len(),
{
    if ms.len() == 0 {
        Seq::<char>::empty()
    } else {
        answers_text(ms.drop_last()) + answer_line(ms.last())
    }
}

/// The detail of a feedback item: number, student, time, description, its answers or a
/// note that there are none, and a note when it has a picture.
pub open spec fn detail_text(f: FeedbackDetail) -> Seq<char> {
    "#"@ + decimal_int(f.id as int) + " \n学号："@ + student_text(f.stu_id) + "\n时间："@
        + second_text(f.create_time) + "\n描述："@ + f.desc@ + (if f.msgs@.len() > 0 {
        "\n\n--- 回复列表 ---"@ + answers_text(f.msgs@)
    } else {
        "\n\n回复：(无)"@
    }) + (if f.img_url is Some {
        "\n\n（含有图片）"@
    } else {
        Seq::<char>::empty()
    })
}

fn student_chars(stu_id: &Option<String>) -> (r: Vec<char>)
    ensures
        r@ == student_text(*stu_id),
{
    match stu_id {
        Some(s) => chars_of(s.as_str()),
        None => chars_of("未提供"),
    }
}

fn answer_chars(m: &FeedbackMsg) -> (r: Vec<char>)
    ensures
        r@ == answer_line(*m),
{
    let mut s = chars_of("\n[回复] ");
    push_str(&mut s, m.created_at.to_minute_string().as_str());
    push_str(&mut s, ": ");
    let ghost before = s@;
    match &m.msg {
        Some(t) => push_str(&mut s, t.as_str()),
        None => {
            assert(s@ == before + Seq::<char>::empty());
        },
    }
    s
}

fn answers_chars(ms: &Vec<FeedbackMsg>) -> (r: Vec<char>)
    ensures
        r@ == answers_text(ms@),
{
    let mut s: Vec<char> = Vec::new();
    let mut i: usize = 0;
    while i < ms.len()
        invariant
            i <= ms@.len(),
            s@ == answers_text(ms@.take(i as int)),
        decreases ms@.len() - i,
    {
        let line = answer_chars(&ms[i]);
        append(&mut s, &line);
        assert(ms@.take(i + 1).drop_last() == ms@.take(i as int));
        i = i + 1;
    }
    assert(ms@.take(i as int) == ms@);
    s
}

/// The summary of a feedback item in a list.
pub fn format_feedback_summary(feedback: &FeedbackDetail) -> (r: String)
    ensures
        r@ == summary_text(*feedback),
{
    let mut s = chars_of("#");
    append(&mut s, &i64_decimal(feedback.id as i64));
    push_str(&mut s, "(");
    if feedback.msgs.len() == 0 {
        push_str(&mut s, "未回复");
    } else {
        push_str(&mut s, "已回复");
    }
    push_str(&mut s, ")\n学号：");
    append(&mut s, &student_chars(&feedback.stu_id));
    push_str(&mut s, "\n时间：");
    push_str(&mut s, feedback.create_time.to_second_string().as_str());
    push_str(&mut s, "\n描述：");
    push_str(&mut s, feedback.desc.as_str());
    let ghost before = s@;
    if feedback.img_url.is_some() {
        push_str(&mut s, "\n（含有图片）");
    } else {
        assert(s@ == before + Seq::<char>::empty());
    }
    string_of(&s)
}

/// The detail of a feedback item with its answers.
pub fn format_feedback_detail(feedback: &FeedbackDetail) -> (r: String)
    ensures
        r@ == detail_text(*feedback),
{
    let mut s = chars_of("#");
    append(&mut s, &i64_decimal(feedback.id as i64));
    push_str(&mut s, " \n学号：");
    append(&mut s, &student_chars(&feedback.stu_id));
    push_str(&mut s, "\n时间：");
    push_str(&mut s, feedback.create_time.to_second_string().as_str());
    push_str(&mut s, "\n描述：");
    push_str(&mut s, feedback.desc.as_str());
    if feedback.msgs.len() > 0 {
        push_str(&mut s, "\n\n--- 回复列表 ---");
        append(&mut s, &answers_chars(&feedback.msgs));
    } else {
        push_str(&mut s, "\n\n回复：(无)");
    }
    let ghost before = s@;
    if feedback.img_url.is_some() {
        push_str(&mut s, "\n\n（含有图片）");
    } else {
        assert(s@ == before + Seq::<char>::empty());
    }
    string_of(&s)
}

/// `s` cut to `max_len` characters, with `...` appended when anything was cut.
pub fn truncate_string(s: &str, max_len: usize) -> (r: String)
    ensures
        r@ == truncated(s@, max_len as nat),
{
    string_of(&truncate_chars(&chars_of(s), max_len))
}

} // verus!
