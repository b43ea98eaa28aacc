//! The Caddy import file: which port it proxies to, and its content for a port.

use vstd::prelude::*;
use crate::text::{
    all_digits, append, chars_of, digit_run, has_prefix, leading_digits, matches_at,
    parse_unsigned, parse_u16, pieces, push_str, slice, split_char, split_words, starts_with,
    string_of, trim_end, trim_end_class, u64_decimal, decimal, views, words, CharClass, brief,
    brief_of, in_class, is_ws, lacks, lemma_decimal_value, lemma_words_lack,
    lemma_words_split, lemma_words_token,
};
use crate::deploy::docker::both_outputs;

verus! {

/// The loopback addresses whose port `parse_active_port` reads first.
pub open spec fn loopback_prefixes() -> Seq<Seq<char>> {
    seq!["127.0.0.1:"@, "localhost:"@, "[::1]:"@]
}

/// The port written after loopback address `p` at the start of `token`, trailing
/// non-digits dropped.
pub open spec fn port_after(token: Seq<char>, p: Seq<char>) -> Option<u16> {
    if has_prefix(token, p) {
        match parse_unsigned(trim_end(token.skip(p.len() as int), CharClass::NotAsciiDigit), 0xFFFF) {
            Some(v) => Some(v as u16),
            None => None,
        }
    } else {
        None
    }
}

/// The port that a whitespace-separated token names after a loopback address.
pub open spec fn token_port(token: Seq<char>) -> Option<u16> {
    let ps = loopback_prefixes();
    if port_after(token, ps[0]) is Some {
        port_after(token, ps[0])
    } else if port_after(token, ps[1]) is Some {
        port_after(token, ps[1])
    } else {
        port_after(token, ps[2])
    }
}

/// The first port that a token of `ts` names after a loopback address.
pub open spec fn first_token_port(ts: Seq<Seq<char>>) -> Option<u16>
    decreases ts.len(),
{
    if ts.len() == 0 {
        None
    } else if token_port(ts[0]) is Some {
        token_port(ts[0])
    } else {
        first_token_port(ts.drop_first())
    }
}

/// The non-zero port that a piece between colons starts with.
pub open spec fn part_port(part: Seq<char>) -> Option<u16> {
    let d = part.take(digit_run(part) as int);
    if d.len() > 0 {
        match parse_unsigned(d, 0xFFFF) {
            Some(v) => if v > 0 {
                Some(v as u16)
            } else {
                None
            },
            None => None,
        }
    } else {
        None
    }
}

/// The first non-zero port that a piece of `ps` starts with.
pub open spec fn first_part_port(ps: Seq<Seq<char>>) -> Option<u16>
    decreases ps.len(),
{
    if ps.len() == 0 {
        None
    } else if part_port(ps[0]) is Some {
        part_port(ps[0])
    } else {
        first_part_port(ps.drop_first())
    }
}

/// The port that the import file proxies to: the first `127.0.0.1:PORT`, `localhost:PORT`
/// or `[::1]:PORT` token, else the first non-zero number that starts the text or follows a
/// colon.
pub open spec fn spec_parse_active_port(content: Seq<char>) -> Option<u16> {
    match first_token_port(words(content, CharClass::Whitespace)) {
        Some(p) => Some(p),
        None => first_part_port(pieces(content, ':')),
    }
}

fn port_after_exec(token: &Vec<char>, p: &Vec<char>) -> (r: Option<u16>)
    ensures
        r == port_after(token@, p@),
{
    if !starts_with(token, p) {
        return None;
    }
    let rest = slice(token, p.len(), token.len());
    assert(rest@ == token@.skip(p@.len() as int));
    let t = trim_end_class(&rest, CharClass::NotAsciiDigit);
    parse_u16(&t)
}

fn token_port_exec(token: &Vec<char>) -> (r: Option<u16>)
    ensures
        r == token_port(token@),
{
    let p0 = chars_of("127.0.0.1:");
    let p1 = chars_of("localhost:");
    let p2 = chars_of("[::1]:");
    let r0 = port_after_exec(token, &p0);
    if r0.is_some() {
        return r0;
    }
    let r1 = port_after_exec(token, &p1);
    if r1.is_some() {
        return r1;
    }
    port_after_exec(token, &p2)
}

fn part_port_exec(part: &Vec<char>) -> (r: Option<u16>)
    ensures
        r == part_port(part@),
{
    let d = leading_digits(part);
    if d.len() == 0 {
        return None;
    }
    assert(parse_unsigned(d@, 0xFFFF) == (if digits_fit(d@) {
        Some(crate::text::digits_value(d@))
    } else {
        None
    })) by {
        assert(d@.len() > 0 && d@[0] != '+');
    }
    match parse_u16(&d) {
        Some(v) => if v > 0 {
            Some(v)
        } else {
            None
        },
        None => None,
    }
}

pub open spec fn digits_fit(d: Seq<char>) -> bool {
    d.len() > 0 && all_digits(d) && crate::text::digits_value(d) <= 0xFFFF
}

/// The port that the Caddy import file `content` proxies to.
pub fn parse_active_port(content: &str) -> (r: Option<u16>)
    ensures
        r == spec_parse_active_port(content@),
{
    let cs = chars_of(content);
    let toks = split_words(&cs, CharClass::Whitespace);
    let mut i: usize = 0;
    assert(views(toks@).skip(0) == views(toks@));
    while i < toks.len()
        invariant
            i <= toks.len(),
            views(toks@) == words(content@, CharClass::Whitespace),
            first_token_port(words(content@, CharClass::Whitespace)) == first_token_port(
                views(toks@).skip(i as int),
            ),
        decreases toks.len() - i,
    {
        let ghost rest = views(toks@).skip(i as int);
        assert(rest[0] == toks@[i as int]@);
        assert(rest.drop_first() == views(toks@).skip(i + 1));
        let r = token_port_exec(&toks[i]);
        if r.is_some() {
            return r;
        }
        i = i + 1;
    }
    let parts = split_char(&cs, ':');
    let mut j: usize = 0;
    assert(views(parts@).skip(0) == views(parts@));
    while j < parts.len()
        invariant
            j <= parts.len(),
            views(parts@) == pieces(content@, ':'),
            first_part_port(pieces(content@, ':')) == first_part_port(views(parts@).skip(j as int)),
            first_token_port(words(content@, CharClass::Whitespace)) is None,
        decreases parts.len() - j,
    {
        let ghost rest = views(parts@).skip(j as int);
        assert(rest[0] == parts@[j as int]@);
        assert(rest.drop_first() == views(parts@).skip(j + 1));
        let r = part_port_exec(&parts[j]);
        if r.is_some() {
            return r;
        }
        j = j + 1;
    }
    None
}

/// The placeholder that the Caddy template holds where the port goes.
pub open spec fn port_placeholder() -> Seq<char> {
    seq!['{', 'p', 'o', 'r', 't', '}']
}

/// `s` with every occurrence of `pat` replaced by `rep`, left to right, as `str::replace`
/// does for a non-empty pattern.
pub open spec fn replace_all(s: Seq<char>, pat: Seq<char>, rep: Seq<char>) -> Seq<char>
    decreases s.len(),
{
    if pat.len() == 0 || s.len() < pat.len() {
        s
    } else if s.take(pat.len() as int) == pat {
        rep + replace_all(s.skip(pat.len() as int), pat, rep)
    } else {
        seq![s[0]] + replace_all(s.drop_first(), pat, rep)
    }
}

/// The content of the import file for `host_port`: the template with each `{port}` replaced
/// by the port.
pub fn import_file_content(template: &str, host_port: u16) -> (r: String)
    ensures
        r@ == replace_all(template@, port_placeholder(), decimal(host_port as nat)),
{
    let s = chars_of(template);
    let pat: Vec<char> = vec!['{', 'p', 'o', 'r', 't', '}'];
    let rep = u64_decimal(host_port as u64);
    assert(pat@ == port_placeholder());
    let mut out: Vec<char> = Vec::new();
    let mut i: usize = 0;
    assert(s@.skip(0) == s@);
    while i < s.len()
        invariant
            i <= s.len(),
            pat@ == port_placeholder(),
            replace_all(s@, pat@, rep@) == out@ + replace_all(s@.skip(i as int), pat@, rep@),
        decreases s.len() - i,
    {
        let ghost rest = s@.skip(i as int);
        if matches_at(&s, &pat, i) {
            assert(rest.take(6) == s@.subrange(i as int, i + 6));
            assert(rest.skip(6) == s@.skip(i + 6));
            append(&mut out, &rep);
            i = i + 6;
        } else {
            proof {
                if rest.len() >= 6 {
                    assert(rest.take(6) == s@.subrange(i as int, i + 6));
                }
            }
            assert(rest.drop_first() == s@.skip(i + 1));
            assert(rest[0] == s@[i as int]);
            let ghost old_out = out@;
            out.push(s[i]);
            assert(out@ == old_out + seq![s@[i as int]]);
            i = i + 1;
        }
    }
    assert(s@.skip(i as int).len() == 0);
    string_of(&out)
}

/// The error of a failed `systemctl reload caddy`: both outputs, trimmed and cut to 400
/// characters.
pub open spec fn reload_failure_message(stdout: Seq<char>, stderr: Seq<char>) -> Seq<char> {
    "systemctl reload caddy 失败: "@ + brief(both_outputs(stdout, stderr), 400)
}

/// What a `systemctl reload caddy` that exited with `success` means.
pub fn reload_outcome(success: bool, stdout: &str, stderr: &str) -> (r: Result<(), String>)
    ensures
        success ==> r is Ok,
        !success ==> (r matches Err(m) && m@ == reload_failure_message(stdout@, stderr@)),
{
    if success {
        return Ok(());
    }
    let mut both = chars_of(stdout);
    push_str(&mut both, "\n");
    push_str(&mut both, stderr);
    let mut m = chars_of("systemctl reload caddy 失败: ");
    append(&mut m, &brief_of(&both, 400));
    Err(string_of(&m))
}

/// The port written into the import file is the port read back from it: for a template
/// that writes `127.0.0.1:{port}` as its first address, after words without colons or
/// braces and before nothing or whitespace, `parse_active_port` of the content written for
/// a port gives that port.
pub proof fn written_port_reads_back(pre: Seq<char>, post: Seq<char>, port: u16)
    requires
        lacks(pre, ':'),
        lacks(pre, '{'),
        pre.len() == 0 || is_ws(pre.last()),
        post.len() == 0 || is_ws(post[0]),
    ensures
        spec_parse_active_port(
            replace_all(pre + "127.0.0.1:{port}"@ + post, port_placeholder(), decimal(port as nat)),
        ) == Some(port),
{
    let lit = "127.0.0.1:"@;
    let rep = decimal(port as nat);
    let pat = port_placeholder();
    reveal_strlit("127.0.0.1:{port}");
    reveal_strlit("127.0.0.1:");
    assert("127.0.0.1:{port}"@ == lit + pat);
    assert(pre + "127.0.0.1:{port}"@ + post == pre + (lit + (pat + post)));
    lemma_replace_skips(pre, lit + (pat + post), rep);
    lemma_replace_skips(lit, pat + post, rep);
    assert((pat + post).take(6) == pat);
    assert((pat + post).skip(6) == post);
    let post2 = replace_all(post, pat, rep);
    assert(replace_all(pat + post, pat, rep) == rep + post2);
    let tok = lit + rep;
    let content = pre + (tok + post2);
    assert(replace_all(pre + "127.0.0.1:{port}"@ + post, pat, rep) == content);
    lemma_loopback_token_port(port);
    if post.len() > 0 {
        lemma_replace_head(post, rep);
    } else {
        assert(post2 == post);
    }
    lemma_words_token(tok, post2, CharClass::Whitespace, seq![]);
    assert(Seq::<char>::empty() + tok == tok);
    let after = seq![tok] + words(post2, CharClass::Whitespace);
    assert(words(tok + post2, CharClass::Whitespace) == after);
    if pre.len() == 0 {
        assert(content == tok + post2);
        assert(after[0] == tok);
        assert(first_token_port(after) == token_port(tok));
    } else {
        lemma_words_split(pre, tok + post2, CharClass::Whitespace, seq![]);
        let first = words(pre, CharClass::Whitespace);
        assert(words(content, CharClass::Whitespace) == first + after);
        assert(lacks(Seq::<char>::empty(), ':'));
        lemma_words_lack(pre, CharClass::Whitespace, seq![], ':');
        assert forall|j: int| 0 <= j < first.len() implies token_port(#[trigger] first[j]) is None by {
            lemma_no_colon_no_port(first[j]);
        }
        lemma_first_token_port_skip(first, after);
        assert(after[0] == tok);
        assert(first_token_port(after) == token_port(tok));
    }
}

/// The loopback addresses that name the proxied port.
pub open spec fn loopback_address(addr: Seq<char>) -> bool {
    addr == "127.0.0.1:"@ || addr == "localhost:"@ || addr == "[::1]:"@
}

/// A whitespace-separated token `127.0.0.1:P`, `localhost:P` or `[::1]:P` (`P` a port in
/// decimal) makes the active port `P` when no earlier token starts with a loopback address,
/// whatever other numbers after colons the content holds.
pub proof fn loopback_token_gives_its_port(
    content: Seq<char>,
    before: Seq<Seq<char>>,
    after: Seq<Seq<char>>,
    addr: Seq<char>,
    port: u16,
)
    requires
        loopback_address(addr),
        words(content, CharClass::Whitespace) == before + seq![addr + decimal(port as nat)] + after,
        forall|j: int|
            0 <= j < before.len() ==> !has_prefix(#[trigger] before[j], "127.0.0.1:"@) && !has_prefix(
                before[j],
                "localhost:"@,
            ) && !has_prefix(before[j], "[::1]:"@),
    ensures
        spec_parse_active_port(content) == Some(port),
{
    reveal_strlit("127.0.0.1:");
    reveal_strlit("localhost:");
    reveal_strlit("[::1]:");
    let ps = loopback_prefixes();
    let tok = addr + decimal(port as nat);
    assert forall|j: int| 0 <= j < before.len() implies token_port(#[trigger] before[j]) is None by {
        assert(ps[0] == "127.0.0.1:"@ && ps[1] == "localhost:"@ && ps[2] == "[::1]:"@);
    }
    lemma_first_token_port_skip(before, seq![tok] + after);
    assert(before + seq![tok] + after == before + (seq![tok] + after));
    assert((seq![tok] + after)[0] == tok);
    lemma_address_port(addr, port);
}

/// A loopback address followed by the digits of `port` names that port.
proof fn lemma_address_port(addr: Seq<char>, port: u16)
    requires
        loopback_address(addr),
    ensures
        token_port(addr + decimal(port as nat)) == Some(port),
{
    reveal_strlit("127.0.0.1:");
    reveal_strlit("localhost:");
    reveal_strlit("[::1]:");
    let ps = loopback_prefixes();
    let d = decimal(port as nat);
    let tok = addr + d;
    lemma_decimal_value(port as nat);
    assert(crate::text::is_digit(d.last())) by {
        assert(d.last() == d[d.len() - 1]);
    }
    assert(trim_end(d, CharClass::NotAsciiDigit) == d);
    assert(crate::text::is_digit(d[0]));
    assert(parse_unsigned(d, 0xFFFF) == Some(port as nat));
    assert(tok.subrange(0, addr.len() as int) == addr);
    assert(tok.skip(addr.len() as int) == d);
    assert(tok[0] == addr[0]);
    if addr == ps[1] {
        if has_prefix(tok, ps[0]) {
            assert(tok.subrange(0, 10)[0] == ps[0][0]);
        }
    }
    if addr == ps[2] {
        if has_prefix(tok, ps[0]) {
            assert(tok.subrange(0, 10)[0] == ps[0][0]);
        }
        if has_prefix(tok, ps[1]) {
            assert(tok.subrange(0, 10)[0] == ps[1][0]);
        }
    }
}

/// The token `127.0.0.1:` and the digits of `port` names that port, and holds no whitespace.
proof fn lemma_loopback_token_port(port: u16)
    ensures
        token_port("127.0.0.1:"@ + decimal(port as nat)) == Some(port),
        forall|i: int|
            0 <= i < ("127.0.0.1:"@ + decimal(port as nat)).len() ==> !in_class(
                CharClass::Whitespace,
                #[trigger] ("127.0.0.1:"@ + decimal(port as nat))[i],
            ),
{
    reveal_strlit("127.0.0.1:");
    let lit = "127.0.0.1:"@;
    let d = decimal(port as nat);
    let tok = lit + d;
    lemma_decimal_value(port as nat);
    assert(loopback_prefixes()[0] == lit);
    assert(tok.subrange(0, 10) == lit);
    assert(tok.skip(10) == d);
    assert(crate::text::is_digit(d.last())) by {
        assert(d.last() == d[d.len() - 1]);
    }
    assert(trim_end(d, CharClass::NotAsciiDigit) == d);
    assert(crate::text::is_digit(d[0]));
    assert(parse_unsigned(d, 0xFFFF) == Some(port as nat));
    assert(port_after(tok, lit) == Some(port));
    assert forall|i: int| 0 <= i < tok.len() implies !in_class(CharClass::Whitespace, #[trigger] tok[i]) by {
        if i >= 10 {
            assert(tok[i] == d[i - 10]);
            assert(crate::text::is_digit(d[i - 10]));
        }
    }
}

/// A word without a colon names no port after a loopback address.
proof fn lemma_no_colon_no_port(w: Seq<char>)
    requires
        lacks(w, ':'),
    ensures
        token_port(w) is None,
{
    reveal_strlit("127.0.0.1:");
    reveal_strlit("localhost:");
    reveal_strlit("[::1]:");
    let ps = loopback_prefixes();
    if has_prefix(w, ps[0]) {
        assert(w.subrange(0, 10)[9] == ps[0][9]);
    }
    if has_prefix(w, ps[1]) {
        assert(w.subrange(0, 10)[9] == ps[1][9]);
    }
    if has_prefix(w, ps[2]) {
        assert(w.subrange(0, 6)[1] == ps[2][1]);
    }
}

/// Words that name no port leave the first port to the words after them.
proof fn lemma_first_token_port_skip(a: Seq<Seq<char>>, b: Seq<Seq<char>>)
    requires
        forall|j: int| 0 <= j < a.len() ==> token_port(#[trigger] a[j]) is None,
    ensures
        first_token_port(a + b) == first_token_port(b),
    decreases a.len(),
{
    if a.len() == 0 {
        assert(a + b == b);
    } else {
        assert((a + b)[0] == a[0]);
        assert((a + b).drop_first() == a.drop_first() + b);
        assert forall|j: int| 0 <= j < a.drop_first().len() implies token_port(
            #[trigger] a.drop_first()[j],
        ) is None by {
            assert(a.drop_first()[j] == a[j + 1]);
        }
        lemma_first_token_port_skip(a.drop_first(), b);
    }
}

/// Text without `{` comes through the replacement unchanged.
proof fn lemma_replace_skips(pre: Seq<char>, rest: Seq<char>, rep: Seq<char>)
    requires
        lacks(pre, '{'),
    ensures
        replace_all(pre + rest, port_placeholder(), rep) == pre + replace_all(
            rest,
            port_placeholder(),
            rep,
        ),
    decreases pre.len(),
{
    let pat = port_placeholder();
    if pre.len() == 0 {
        assert(pre + rest == rest);
    } else if (pre + rest).len() < 6 {
        assert(rest.len() < 6);
    } else {
        assert((pre + rest)[0] == pre[0]);
        assert((pre + rest).take(6)[0] != pat[0]);
        assert((pre + rest).drop_first() == pre.drop_first() + rest);
        assert forall|i: int| 0 <= i < pre.drop_first().len() implies #[trigger] pre.drop_first()[i]
            != '{' by {
            assert(pre.drop_first()[i] == pre[i + 1]);
        }
        lemma_replace_skips(pre.drop_first(), rest, rep);
        assert(seq![pre[0]] + (pre.drop_first() + replace_all(rest, pat, rep)) == pre + replace_all(
            rest,
            pat,
            rep,
        ));
    }
}

/// Text that starts with something other than `{` keeps its first character.
proof fn lemma_replace_head(post: Seq<char>, rep: Seq<char>)
    requires
        post.len() > 0,
        post[0] != '{',
    ensures
        replace_all(post, port_placeholder(), rep).len() > 0,
        replace_all(post, port_placeholder(), rep)[0] == post[0],
{
    let pat = port_placeholder();
    if post.len() >= 6 {
        assert(post.take(6)[0] != pat[0]);
    }
}

} // verus!
