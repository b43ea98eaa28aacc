//! The quick-reply commands: list, add or update, delete and show quick replies.

use vstd::prelude::*;
use crate::feedback::commands::framework::{content_of, fast_reply_ref, CommandContext};
use crate::text::{append, chars_of, join, join_with, push_str, string_of, truncate_chars, truncated, views};

verus! {

pub struct FastReplyListCommand;

pub struct FastReplyUpdateCommand;

pub struct FastReplyDeleteCommand;

pub struct FastReplyDetailCommand;

/// One quick reply in the list: its identifier, then its content cut to ten characters.
pub open spec fn list_entry(id: Seq<char>, content: Seq<char>) -> Seq<char> {
    "#"@ + id + "\n"@ + truncated(content, 10)
}

pub open spec fn list_entries(rs: Seq<(String, String)>) -> Seq<Seq<char>> {
    rs.map_values(|p: (String, String)| list_entry(p.0@, p.1@))
}

/// The answer of `回复列表`: every quick reply, or a note that there is none.
pub open spec fn list_text(rs: Seq<(String, String)>) -> Seq<char> {
    if rs.len() == 0 {
        "当前没有任何快捷回复。"@
    } else {
        join(list_entries(rs), "\n\n"@)
    }
}

impl FastReplyListCommand {
    pub fn command_name(&self) -> (r: &'static str)
        ensures
            r@ == "回复列表"@,
    {
        "回复列表"
    }

    pub fn command_usage(&self) -> (r: &'static str)
        ensures
            r@ == "回复列表：获取快捷回复列表"@,
    {
        "回复列表：获取快捷回复列表"
    }

    /// The answer for the stored quick replies `(id, content)`.
    pub fn render(&self, replies: &Vec<(String, String)>) -> (r: String)
        ensures
            r@ == list_text(replies@),
    {
        if replies.len() == 0 {
            return string_of(&chars_of("当前没有任何快捷回复。"));
        }
        let mut entries: Vec<Vec<char>> = Vec::new();
        let mut i: usize = 0;
        while i < replies.len()
            invariant
                i <= replies@.len(),
                views(entries@) == list_entries(replies@).take(i as int),
            decreases replies@.len() - i,
        {
            let mut e = chars_of("#");
            push_str(&mut e, replies[i].0.as_str());
            push_str(&mut e, "\n");
            append(&mut e, &truncate_chars(&chars_of(replies[i].1.as_str()), 10));
            let ghost before = entries@;
            entries.push(e);
            assert(views(entries@) == views(before).push(e@));
            assert(list_entries(replies@).take(i + 1) == list_entries(replies@).take(i as int).push(
                list_entry(replies@[i as int].0@, replies@[i as int].1@),
            ));
            i = i + 1;
        }
        assert(list_entries(replies@).take(i as int) == list_entries(replies@));
        string_of(&join_with(&entries, &chars_of("\n\n")))
    }
}

pub open spec fn update_usage() -> Seq<char> {
    "回复更新 #<快捷回复id> <...快捷回复内容>：添加/更新快捷回复"@
}

impl FastReplyUpdateCommand {
    pub fn command_name(&self) -> (r: &'static str)
        ensures
            r@ == "回复更新"@,
    {
        "回复更新"
    }

    pub fn command_usage(&self) -> (r: &'static str)
        ensures
            r@ == update_usage(),
    {
        "回复更新 #<快捷回复id> <...快捷回复内容>：添加/更新快捷回复"
    }

    /// The quick reply to store, `(id, content)`, from the arguments `#id content...`; the
    /// usage when either is missing.
    pub fn plan(&self, ctx: CommandContext) -> (r: Result<(String, String), String>)
        ensures
            ({
                let t = ctx.rest();
                if t.len() > 0 && fast_reply_ref(t[0]) is Some && content_of(t.drop_first()) is Some {
                    r matches Ok((id, c)) && id@ == fast_reply_ref(t[0]).unwrap() && c@ == content_of(
                        t.drop_first(),
                    ).unwrap()
                } else {
                    r matches Err(u) && u@ == update_usage()
                }
            }),
    {
        let mut ctx = ctx;
        let id = match ctx.next_fast_reply_id() {
            Some(id) => id,
            None => return Err(string_of(&chars_of(self.command_usage()))),
        };
        match ctx.get_content() {
            Some(c) => Ok((id, c)),
            None => Err(string_of(&chars_of(self.command_usage()))),
        }
    }

    /// The answer once the quick reply is stored.
    pub fn done(&self) -> (r: String)
        ensures
            r@ == "快捷回复已更新。"@,
    {
        string_of(&chars_of("快捷回复已更新。"))
    }
}

pub open spec fn delete_usage() -> Seq<char> {
    "回复删除 #<快捷回复id>：删除快捷回复"@
}

impl FastReplyDeleteCommand {
    pub fn command_name(&self) -> (r: &'static str)
        ensures
            r@ == "回复删除"@,
    {
        "回复删除"
    }

    pub fn command_usage(&self) -> (r: &'static str)
        ensures
            r@ == delete_usage(),
    {
        "回复删除 #<快捷回复id>：删除快捷回复"
    }

    /// The quick reply to delete, from the argument `#id`; the usage when it is missing.
    pub fn plan(&self, ctx: CommandContext) -> (r: Result<String, String>)
        ensures
            ({
                let t = ctx.rest();
                if t.len() > 0 && fast_reply_ref(t[0]) is Some {
                    r matches Ok(id) && id@ == fast_reply_ref(t[0]).unwrap()
                } else {
                    r matches Err(u) && u@ == delete_usage()
                }
            }),
    {
        let mut ctx = ctx;
        match ctx.next_fast_reply_id() {
            Some(id) => Ok(id),
            None => Err(string_of(&chars_of(self.command_usage()))),
        }
    }

    /// Whether to delete, and the answer, once it is known whether the quick reply exists.
    pub fn decide(&self, found: bool) -> (r: (bool, String))
        ensures
            r.0 == found,
            r.1@ == if found {
                "快捷回复已删除。"@
            } else {
                "未找到指定 ID 的快捷回复。"@
            },
    {
        if found {
            (true, string_of(&chars_of("快捷回复已删除。")))
        } else {
            (false, string_of(&chars_of("未找到指定 ID 的快捷回复。")))
        }
    }
}

pub open spec fn detail_usage() -> Seq<char> {
    "回复详情 #<快捷回复id>：查看快捷回复详情"@
}

impl FastReplyDetailCommand {
    pub fn command_name(&self) -> (r: &'static str)
        ensures
            r@ == "回复详情"@,
    {
        "回复详情"
    }

    pub fn command_usage(&self) -> (r: &'static str)
        ensures
            r@ == detail_usage(),
    {
        "回复详情 #<快捷回复id>：查看快捷回复详情"
    }

    /// The quick reply to show, from the argument `#id`; the usage when it is missing.
    pub fn plan(&self, ctx: CommandContext) -> (r: Result<String, String>)
        ensures
            ({
                let t = ctx.rest();
                if t.len() > 0 && fast_reply_ref(t[0]) is Some {
                    r matches Ok(id) && id@ == fast_reply_ref(t[0]).unwrap()
                } else {
                    r matches Err(u) && u@ == detail_usage()
                }
            }),
    {
        let mut ctx = ctx;
        match ctx.next_fast_reply_id() {
            Some(id) => Ok(id),
            None => Err(string_of(&chars_of(self.command_usage()))),
        }
    }

    /// The answer: the quick reply's identifier and whole content, or a note that it does
    /// not exist.
    pub fn render(&self, id: &str, content: &Option<String>) -> (r: String)
        ensures
            r@ == match content {
                Some(c) => "#"@ + id@ + "\n"@ + c@,
                None => "未找到指定 ID 的快捷回复。"@,
            },
    {
        match content {
            Some(c) => {
                let mut m = chars_of("#");
                push_str(&mut m, id);
                push_str(&mut m, "\n");
                push_str(&mut m, c.as_str());
                string_of(&m)
            },
            None => string_of(&chars_of("未找到指定 ID 的快捷回复。")),
        }
    }
}

} // verus!
