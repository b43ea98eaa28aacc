//! The arguments of a command, read one token at a time, and what a command answers.

use vstd::prelude::*;
use crate::deploy::docker::string_views;
use crate::text::{
    chars_of, has_prefix, join, join_with, parse_i64, parse_i64_spec, parse_u32, parse_unsigned,
    slice, string_of, views,
};

verus! {

/// What a command answers in the group.
#[derive(Debug, Clone, PartialEq, Eq)]
pub enum Reply {
    Text(String),
    Image(String),
}

/// Where the content of an answer comes from.
#[derive(Debug, Clone, PartialEq, Eq)]
pub enum ContentSource {
    /// No content was given.
    Nothing,
    /// The quick reply with this identifier.
    FastReply(String),
    /// This text.
    Text(String),
}

/// The arguments of a command after its name, and the feedback item that the message
/// replies to, if any.
pub struct CommandContext {
    args: Vec<String>,
    pos: usize,
    feedback_id: Option<u32>,
}

/// The identifier after `#` in a quick-reply token; none when the token does not start
/// with `#`.
pub open spec fn fast_reply_ref(token: Seq<char>) -> Option<Seq<char>> {
    if token.len() > 0 && token[0] == '#' {
        Some(token.drop_first())
    } else {
        None
    }
}

/// The tokens joined by single spaces; none when that is empty.
pub open spec fn content_of(tokens: Seq<Seq<char>>) -> Option<Seq<char>> {
    if join(tokens, " "@).len() == 0 {
        None
    } else {
        Some(join(tokens, " "@))
    }
}

impl CommandContext {
    #[verifier::type_invariant]
    spec fn inv(self) -> bool {
        self.pos <= self.args@.len()
    }

    /// The tokens not read yet.
    pub closed spec fn rest(&self) -> Seq<Seq<char>> {
        string_views(self.args@).skip(self.pos as int)
    }

    /// The feedback item that the message replies to.
    pub closed spec fn target(&self) -> Option<u32> {
        self.feedback_id
    }

    pub fn new(args: Vec<String>, feedback_id: Option<u32>) -> (r: CommandContext)
        ensures
            r.rest() == string_views(args@),
            r.target() == feedback_id,
    {
        let r = CommandContext { args, pos: 0, feedback_id };
        assert(string_views(r.args@).skip(0) == string_views(r.args@));
        r
    }

    /// Reads the next token.
    pub fn next_token(&mut self) -> (r: Option<String>)
        ensures
            final(self).target() == old(self).target(),
            old(self).rest().len() == 0 ==> r is None && final(self).rest() == old(self).rest(),
            old(self).rest().len() > 0 ==> (r matches Some(t) && t@ == old(self).rest()[0])
                && final(self).rest() == old(self).rest().drop_first(),
    {
        proof {
            use_type_invariant(&*self);
        }
        if self.pos < self.args.len() {
            let t = self.args[self.pos].clone();
            let ghost before = string_views(self.args@).skip(self.pos as int);
            self.pos = self.pos + 1;
            assert(string_views(self.args@).skip(self.pos as int) == before.drop_first());
            Some(t)
        } else {
            None
        }
    }

    /// The feedback item of the command: the one replied to, else the next token read as a
    /// number.
    pub fn get_feedback_id(&mut self) -> (r: Option<u32>)
        ensures
            final(self).target() == old(self).target(),
            old(self).target() is Some ==> r == old(self).target() && final(self).rest()
                == old(self).rest(),
            old(self).target() is None && old(self).rest().len() == 0 ==> r is None
                && final(self).rest() == old(self).rest(),
            old(self).target() is None && old(self).rest().len() > 0 ==> final(self).rest()
                == old(self).rest().drop_first() && match parse_unsigned(old(self).rest()[0], 0xFFFF_FFFF) {
                Some(v) => r == Some(v as u32),
                None => r is None,
            },
    {
        if self.feedback_id.is_some() {
            return self.feedback_id;
        }
        match self.next_token() {
            Some(t) => parse_u32(&chars_of(t.as_str())),
            None => None,
        }
    }

    /// The next token read as a number.
    pub fn next_number(&mut self) -> (r: Option<i64>)
        ensures
            final(self).target() == old(self).target(),
            old(self).rest().len() == 0 ==> r is None && final(self).rest() == old(self).rest(),
            old(self).rest().len() > 0 ==> final(self).rest() == old(self).rest().drop_first()
                && match parse_i64_spec(old(self).rest()[0]) {
                Some(v) => r == Some(v as i64),
                None => r is None,
            },
    {
        match self.next_token() {
            Some(t) => parse_i64(&chars_of(t.as_str())),
            None => None,
        }
    }

    /// The next token as a quick-reply reference `#id`: the identifier after `#`.
    pub fn next_fast_reply_id(&mut self) -> (r: Option<String>)
        ensures
            final(self).target() == old(self).target(),
            old(self).rest().len() == 0 ==> r is None && final(self).rest() == old(self).rest(),
            old(self).rest().len() > 0 ==> final(self).rest() == old(self).rest().drop_first()
                && match fast_reply_ref(old(self).rest()[0]) {
                Some(id) => r matches Some(s) && s@ == id,
                None => r is None,
            },
    {
        match self.next_token() {
            Some(t) => {
                let cs = chars_of(t.as_str());
                if cs.len() > 0 && cs[0] == '#' {
                    let id = slice(&cs, 1, cs.len());
                    assert(id@ == cs@.drop_first());
                    Some(string_of(&id))
                } else {
                    None
                }
            },
            None => None,
        }
    }

    fn rest_chars(self) -> (r: Vec<Vec<char>>)
        ensures
            views(r@) == self.rest(),
    {
        proof {
            use_type_invariant(&self);
        }
        let mut out: Vec<Vec<char>> = Vec::new();
        let mut i: usize = self.pos;
        while i < self.args.len()
            invariant
                self.pos <= i <= self.args@.len(),
                views(out@) == string_views(self.args@).subrange(self.pos as int, i as int),
            decreases self.args@.len() - i,
        {
            let ghost before = out@;
            let w = chars_of(self.args[i].as_str());
            out.push(w);
            assert(views(out@) == views(before).push(w@));
            i = i + 1;
            assert(string_views(self.args@).subrange(self.pos as int, i as int) == string_views(
                self.args@,
            ).subrange(self.pos as int, i - 1).push(self.args@[i - 1]@));
        }
        assert(string_views(self.args@).subrange(self.pos as int, i as int) == string_views(
            self.args@,
        ).skip(self.pos as int));
        out
    }

    /// The remaining tokens joined by single spaces; none when that is empty.
    pub fn get_content(self) -> (r: Option<String>)
        ensures
            match content_of(self.rest()) {
                Some(c) => r matches Some(s) && s@ == c,
                None => r is None,
            },
    {
        let toks = self.rest_chars();
        let sep = chars_of(" ");
        let content = join_with(&toks, &sep);
        if content.len() == 0 {
            None
        } else {
            Some(string_of(&content))
        }
    }
}

impl CommandContext {
    /// Where the content of an answer comes from: nothing when no token is left, the quick
    /// reply `id` when the next token is `#id`, else the remaining tokens joined by spaces
    /// (nothing when that is empty).
    pub fn content_source(self) -> (r: ContentSource)
        ensures
            self.rest().len() == 0 ==> r is Nothing,
            self.rest().len() > 0 ==> match fast_reply_ref(self.rest()[0]) {
                Some(id) => r matches ContentSource::FastReply(s) && s@ == id,
                None => match content_of(self.rest()) {
                    Some(c) => r matches ContentSource::Text(s) && s@ == c,
                    None => r is Nothing,
                },
            },
    {
        let toks = self.rest_chars();
        if toks.len() == 0 {
            return ContentSource::Nothing;
        }
        let first = &toks[0];
        if first.len() > 0 && first[0] == '#' {
            let id = slice(first, 1, first.len());
            assert(id@ == first@.drop_first());
            return ContentSource::FastReply(string_of(&id));
        }
        let content = join_with(&toks, &chars_of(" "));
        if content.len() == 0 {
            ContentSource::Nothing
        } else {
            ContentSource::Text(string_of(&content))
        }
    }
}

} // verus!
