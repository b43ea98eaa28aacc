//! Character-sequence operations with Rust's `str` semantics, stated over `Seq<char>`.

use vstd::prelude::*;

verus! {

/// `String::push`: std documents that it appends the character to the end of the string;
/// this is taken as its contract, unproved.
pub assume_specification[ String::push ](s: &mut String, ch: char)
    ensures
        final(s)@ == old(s)@.push(ch),
;

/// The character classes the library trims or splits on.
#[derive(Clone, Copy, Debug, PartialEq, Eq)]
pub enum CharClass {
    /// `char::is_whitespace`: the Unicode `White_Space` property.
    Whitespace,
    /// `char::is_ascii_whitespace`: space, tab, line feed, form feed, carriage return.
    AsciiWhitespace,
    /// The full stop `.`.
    Dot,
    /// Every character that is not an ASCII digit.
    NotAsciiDigit,
}

/// Unicode `White_Space`, which is what `char::is_whitespace` tests.
pub open spec fn is_ws(c: char) -> bool {
    let n = c as u32;
    ||| 9 <= n <= 13
    ||| n == 32
    ||| n == 0x85
    ||| n == 0xA0
    ||| n == 0x1680
    ||| 0x2000 <= n <= 0x200A
    ||| n == 0x2028
    ||| n == 0x2029
    ||| n == 0x202F
    ||| n == 0x205F
    ||| n == 0x3000
}

pub open spec fn is_ascii_ws(c: char) -> bool {
    c == ' ' || c == '\t' || c == '\n' || c == '\x0C' || c == '\r'
}

pub open spec fn is_digit(c: char) -> bool {
    '0' <= c && c <= '9'
}

pub open spec fn in_class(k: CharClass, c: char) -> bool {
    match k {
        CharClass::Whitespace => is_ws(c),
        CharClass::AsciiWhitespace => is_ascii_ws(c),
        CharClass::Dot => c == '.',
        CharClass::NotAsciiDigit => !is_digit(c),
    }
}

pub fn class_has(k: CharClass, c: char) -> (r: bool)
    ensures
        r == in_class(k, c),
{
    match k {
        CharClass::Whitespace => {
            let n = c as u32;
            (9 <= n && n <= 13) || n == 32 || n == 0x85 || n == 0xA0 || n == 0x1680 || (0x2000
                <= n && n <= 0x200A) || n == 0x2028 || n == 0x2029 || n == 0x202F || n == 0x205F
                || n == 0x3000
        },
        CharClass::AsciiWhitespace => c == ' ' || c == '\t' || c == '\n' || c == '\x0C' || c
            == '\r',
        CharClass::Dot => c == '.',
        CharClass::NotAsciiDigit => !('0' <= c && c <= '9'),
    }
}

/// `s` with the leading characters of class `k` removed (`trim_start_matches`).
pub open spec fn trim_start(s: Seq<char>, k: CharClass) -> Seq<char>
    decreases s.len(),
{
    if s.len() > 0 && in_class(k, s[0]) {
        trim_start(s.drop_first(), k)
    } else {
        s
    }
}

/// `s` with the trailing characters of class `k` removed (`trim_end_matches`).
pub open spec fn trim_end(s: Seq<char>, k: CharClass) -> Seq<char>
    decreases s.len(),
{
    if s.len() > 0 && in_class(k, s.last()) {
        trim_end(s.drop_last(), k)
    } else {
        s
    }
}

/// `s` with the characters of class `k` removed at both ends (`trim_matches`, or `trim`).
pub open spec fn trim(s: Seq<char>, k: CharClass) -> Seq<char> {
    trim_end(trim_start(s, k), k)
}

pub fn chars_of(s: &str) -> (r: Vec<char>)
    ensures
        r@ == s@,
{
    let mut r: Vec<char> = Vec::new();
    for c in it: s.chars()
        invariant
            r@ == it.seq().take(it.index() as int),
            it.seq() == s@,
    {
        r.push(c);
    }
    r
}

pub fn string_of(cs: &Vec<char>) -> (r: String)
    ensures
        r@ == cs@,
{
    let mut r = String::new();
    let mut i: usize = 0;
    while i < cs.len()
        invariant
            i <= cs.len(),
            r@ == cs@.take(i as int),
        decreases cs.len() - i,
    {
        r.push(cs[i]);
        i = i + 1;
    }
    r
}

/// Appends the characters of `s` to `v`.
pub fn push_str(v: &mut Vec<char>, s: &str)
    ensures
        final(v)@ == old(v)@ + s@,
{
    let cs = chars_of(s);
    append(v, &cs);
}

/// Appends the characters of `w` to `v`.
pub fn append(v: &mut Vec<char>, w: &Vec<char>)
    ensures
        final(v)@ == old(v)@ + w@,
{
    let mut i: usize = 0;
    while i < w.len()
        invariant
            i <= w.len(),
            v@ == old(v)@ + w@.take(i as int),
        decreases w.len() - i,
    {
        v.push(w[i]);
        i = i + 1;
        assert(w@.take(i as int) == w@.take(i - 1) .push(w@[i - 1]));
    }
    assert(w@.take(w.len() as int) == w@);
}

/// The characters of `s` in `lo..hi`.
pub fn slice(s: &Vec<char>, lo: usize, hi: usize) -> (r: Vec<char>)
    requires
        lo <= hi <= s.len(),
    ensures
        r@ == s@.subrange(lo as int, hi as int),
{
    let mut r: Vec<char> = Vec::new();
    let mut i: usize = lo;
    while i < hi
        invariant
            lo <= i <= hi <= s.len(),
            r@ == s@.subrange(lo as int, i as int),
        decreases hi - i,
    {
        r.push(s[i]);
        i = i + 1;
    }
    r
}

proof fn lemma_trim_start_skip(s: Seq<char>, k: CharClass, i: int)
    requires
        0 <= i < s.len(),
        in_class(k, s[i]),
    ensures
        trim_start(s.skip(i), k) == trim_start(s.skip(i + 1), k),
{
    assert(s.skip(i).drop_first() == s.skip(i + 1));
}

proof fn lemma_trim_end_take(s: Seq<char>, k: CharClass, j: int)
    requires
        0 < j <= s.len(),
        in_class(k, s[j - 1]),
    ensures
        trim_end(s.take(j), k) == trim_end(s.take(j - 1), k),
{
    assert(s.take(j).drop_last() == s.take(j - 1));
}

/// Trimming keeps a stretch of consecutive characters of `s`.
pub proof fn lemma_trim_is_subrange(s: Seq<char>, k: CharClass)
    ensures
        exists|a: int, b: int| 0 <= a <= b <= s.len() && #[trigger] trim(s, k) == s.subrange(a, b),
{
    lemma_trim_start_is_suffix(s, k);
    let a = choose|a: int| 0 <= a <= s.len() && trim_start(s, k) == s.skip(a);
    lemma_trim_end_is_prefix(s.skip(a), k);
    let b = choose|b: int| 0 <= b <= s.skip(a).len() && trim_end(s.skip(a), k) == s.skip(a).take(b);
    assert(s.skip(a).take(b) == s.subrange(a, a + b));
}

/// What trimming leaves neither starts nor ends with a character of the class.
pub proof fn lemma_trim_edges(s: Seq<char>, k: CharClass)
    ensures
        trim(s, k).len() > 0 ==> !in_class(k, trim(s, k)[0]) && !in_class(k, trim(s, k).last()),
{
    let x = trim_start(s, k);
    lemma_trim_start_head(s, k);
    lemma_trim_end_last(x, k);
    lemma_trim_end_is_prefix(x, k);
    let b = choose|b: int| 0 <= b <= x.len() && trim_end(x, k) == x.take(b);
    if trim(s, k).len() > 0 {
        assert(trim(s, k)[0] == x[0]);
    }
}

proof fn lemma_trim_start_head(s: Seq<char>, k: CharClass)
    ensures
        trim_start(s, k).len() > 0 ==> !in_class(k, trim_start(s, k)[0]),
    decreases s.len(),
{
    if s.len() > 0 && in_class(k, s[0]) {
        lemma_trim_start_head(s.drop_first(), k);
    }
}

proof fn lemma_trim_end_last(s: Seq<char>, k: CharClass)
    ensures
        trim_end(s, k).len() > 0 ==> !in_class(k, trim_end(s, k).last()),
    decreases s.len(),
{
    if s.len() > 0 && in_class(k, s.last()) {
        lemma_trim_end_last(s.drop_last(), k);
    }
}

proof fn lemma_trim_start_is_suffix(s: Seq<char>, k: CharClass)
    ensures
        exists|a: int| 0 <= a <= s.len() && trim_start(s, k) == s.skip(a),
    decreases s.len(),
{
    if s.len() > 0 && in_class(k, s[0]) {
        lemma_trim_start_is_suffix(s.drop_first(), k);
        let a = choose|a: int| 0 <= a <= s.drop_first().len() && trim_start(s.drop_first(), k)
            == s.drop_first().skip(a);
        assert(s.drop_first().skip(a) == s.skip(a + 1));
    } else {
        assert(s.skip(0) == s);
    }
}

proof fn lemma_trim_end_is_prefix(s: Seq<char>, k: CharClass)
    ensures
        exists|b: int| 0 <= b <= s.len() && trim_end(s, k) == s.take(b),
    decreases s.len(),
{
    if s.len() > 0 && in_class(k, s.last()) {
        lemma_trim_end_is_prefix(s.drop_last(), k);
        let b = choose|b: int| 0 <= b <= s.drop_last().len() && trim_end(s.drop_last(), k)
            == s.drop_last().take(b);
        assert(s.drop_last().take(b) == s.take(b));
    } else {
        assert(s.take(s.len() as int) == s);
    }
}

/// `s` without its leading characters of class `k`.
pub fn trim_start_class(s: &Vec<char>, k: CharClass) -> (r: Vec<char>)
    ensures
        r@ == trim_start(s@, k),
{
    let mut i: usize = 0;
    assert(s@.skip(0) == s@);
    while i < s.len() && class_has(k, s[i])
        invariant
            i <= s.len(),
            trim_start(s@, k) == trim_start(s@.skip(i as int), k),
        decreases s.len() - i,
    {
        proof {
            lemma_trim_start_skip(s@, k, i as int);
        }
        i = i + 1;
    }
    assert(s@.skip(i as int) == s@.subrange(i as int, s.len() as int));
    slice(s, i, s.len())
}

/// `s` without its trailing characters of class `k`.
pub fn trim_end_class(s: &Vec<char>, k: CharClass) -> (r: Vec<char>)
    ensures
        r@ == trim_end(s@, k),
{
    let mut j: usize = s.len();
    assert(s@.take(s.len() as int) == s@);
    while j > 0 && class_has(k, s[j - 1])
        invariant
            j <= s.len(),
            trim_end(s@, k) == trim_end(s@.take(j as int), k),
        decreases j,
    {
        proof {
            lemma_trim_end_take(s@, k, j as int);
        }
        j = j - 1;
    }
    assert(s@.take(j as int) == s@.subrange(0, j as int));
    slice(s, 0, j)
}

/// `s` without the characters of class `k` at either end.
pub fn trim_class(s: &Vec<char>, k: CharClass) -> (r: Vec<char>)
    ensures
        r@ == trim(s@, k),
{
    let t = trim_start_class(s, k);
    trim_end_class(&t, k)
}


/// The word being read is ended: it is emitted when non-empty.
pub open spec fn flush(cur: Seq<char>) -> Seq<Seq<char>> {
    if cur.len() > 0 {
        seq![cur]
    } else {
        seq![]
    }
}

/// The maximal non-empty runs of characters outside class `k` in `s`, after the word `cur`
/// already begun.
pub open spec fn words_from(s: Seq<char>, k: CharClass, cur: Seq<char>) -> Seq<Seq<char>>
    decreases s.len(),
{
    if s.len() == 0 {
        flush(cur)
    } else if in_class(k, s[0]) {
        flush(cur) + words_from(s.drop_first(), k, seq![])
    } else {
        words_from(s.drop_first(), k, cur.push(s[0]))
    }
}

/// `split_whitespace` (class `Whitespace`) and `split_ascii_whitespace` (class
/// `AsciiWhitespace`): the non-empty pieces of `s` between characters of class `k`.
pub open spec fn words(s: Seq<char>, k: CharClass) -> Seq<Seq<char>> {
    words_from(s, k, seq![])
}

pub open spec fn views(v: Seq<Vec<char>>) -> Seq<Seq<char>> {
    v.map_values(|w: Vec<char>| w@)
}

/// The words of `s`: the non-empty pieces between characters of class `k`.
pub fn split_words(s: &Vec<char>, k: CharClass) -> (r: Vec<Vec<char>>)
    ensures
        views(r@) == words(s@, k),
{
    let mut out: Vec<Vec<char>> = Vec::new();
    let mut cur: Vec<char> = Vec::new();
    let mut i: usize = 0;
    assert(s@.skip(0) == s@);
    while i < s.len()
        invariant
            i <= s.len(),
            words(s@, k) == views(out@) + words_from(s@.skip(i as int), k, cur@),
        decreases s.len() - i,
    {
        let c = s[i];
        let ghost rest = s@.skip(i as int);
        assert(rest[0] == c);
        assert(rest.drop_first() == s@.skip(i + 1));
        if class_has(k, c) {
            let ghost old_out = out@;
            let ghost old_cur = cur@;
            if cur.len() > 0 {
                let w = cur;
                out.push(w);
                assert(out@.last() == w);
                assert(views(out@) == views(old_out).push(w@));
            } else {
                assert(flush(old_cur) == Seq::<Seq<char>>::empty());
            }
            cur = Vec::new();
            assert(views(out@) == views(old_out) + flush(old_cur));
        } else {
            cur.push(c);
        }
        i = i + 1;
    }
    let ghost old_out = out@;
    if cur.len() > 0 {
        let ghost w = cur@;
        out.push(cur);
        assert(views(out@) == views(old_out).push(w));
    }
    assert(views(out@) == words(s@, k));
    out
}


/// `p` occurs in `s` at position `i`.
pub open spec fn occurs_at(s: Seq<char>, p: Seq<char>, i: int) -> bool {
    0 <= i && i + p.len() <= s.len() && s.subrange(i, i + p.len()) == p
}

pub open spec fn has_prefix(s: Seq<char>, p: Seq<char>) -> bool {
    occurs_at(s, p, 0)
}

/// `p` occurs in `s` at some position at or after `from`.
pub open spec fn occurs_from(s: Seq<char>, p: Seq<char>, from: int) -> bool {
    exists|i: int| from <= i && #[trigger] occurs_at(s, p, i)
}

/// `r` is where `str::find` finds `p` in `s`, searching from `from` on.
pub open spec fn is_first_at(s: Seq<char>, p: Seq<char>, from: int, r: int) -> bool {
    from <= r && occurs_at(s, p, r) && forall|j: int| from <= j < r ==> !#[trigger] occurs_at(s, p, j)
}

/// The result of searching `p` in `s` from `from` on, as `str::find` does.
pub open spec fn find_result(s: Seq<char>, p: Seq<char>, from: int, r: Option<usize>) -> bool {
    match r {
        Some(i) => is_first_at(s, p, from, i as int),
        None => !occurs_from(s, p, from),
    }
}

/// Whether `p` occurs in `s` at `i`.
pub fn matches_at(s: &Vec<char>, p: &Vec<char>, i: usize) -> (r: bool)
    ensures
        r == occurs_at(s@, p@, i as int),
{
    if i > s.len() || p.len() > s.len() - i {
        return false;
    }
    let mut j: usize = 0;
    while j < p.len()
        invariant
            i + p.len() <= s.len(),
            j <= p.len(),
            forall|t: int| 0 <= t < j ==> s@[i + t] == p@[t],
        decreases p.len() - j,
    {
        if s[i + j] != p[j] {
            assert(s@.subrange(i as int, i + p.len())[j as int] != p@[j as int]);
            return false;
        }
        j = j + 1;
    }
    assert(s@.subrange(i as int, i + p.len()) =~= p@);
    true
}

/// `str::starts_with`.
pub fn starts_with(s: &Vec<char>, p: &Vec<char>) -> (r: bool)
    ensures
        r == has_prefix(s@, p@),
{
    matches_at(s, p, 0)
}

/// The first position at or after `from` where `p` occurs in `s`.
pub fn find_from(s: &Vec<char>, p: &Vec<char>, from: usize) -> (r: Option<usize>)
    ensures
        find_result(s@, p@, from as int, r),
{
    if from > s.len() || p.len() > s.len() - from {
        assert forall|j: int| from <= j implies !#[trigger] occurs_at(s@, p@, j) by {}
        return None;
    }
    let last: usize = s.len() - p.len();
    let mut i: usize = from;
    while i < last
        invariant
            from <= i <= last,
            last + p.len() == s.len(),
            forall|j: int| from <= j < i ==> !#[trigger] occurs_at(s@, p@, j),
        decreases last - i,
    {
        if matches_at(s, p, i) {
            return Some(i);
        }
        i = i + 1;
    }
    if matches_at(s, p, last) {
        return Some(last);
    }
    assert forall|j: int| from <= j implies !#[trigger] occurs_at(s@, p@, j) by {
        if j > last {
            assert(j + p@.len() > s@.len());
        }
    }
    None
}

/// The last position of `c` in `s` (`str::rfind` with a character).
pub fn rfind_char(s: &Vec<char>, c: char) -> (r: Option<usize>)
    ensures
        match r {
            Some(i) => i < s@.len() && s@[i as int] == c && forall|j: int|
                i < j < s@.len() ==> s@[j] != c,
            None => forall|j: int| 0 <= j < s@.len() ==> s@[j] != c,
        },
{
    let mut i: usize = s.len();
    while i > 0
        invariant
            i <= s.len(),
            forall|j: int| i <= j < s@.len() ==> s@[j] != c,
        decreases i,
    {
        if s[i - 1] == c {
            return Some(i - 1);
        }
        i = i - 1;
    }
    None
}

/// The first position at or after `from` whose character is in class `k` or equals one of
/// `extra`; `s.len()` when there is none.
pub fn first_stop(s: &Vec<char>, from: usize, k: CharClass, extra: &Vec<char>) -> (r: usize)
    requires
        from <= s.len(),
    ensures
        from <= r <= s.len(),
        forall|j: int| from <= j < r ==> !in_class(k, s@[j]) && !extra@.contains(s@[j]),
        r < s.len() ==> (in_class(k, s@[r as int]) || extra@.contains(s@[r as int])),
{
    let mut i: usize = from;
    while i < s.len()
        invariant
            from <= i <= s.len(),
            forall|j: int| from <= j < i ==> !in_class(k, s@[j]) && !extra@.contains(s@[j]),
        decreases s.len() - i,
    {
        let c = s[i];
        if class_has(k, c) || contains_char(extra, c) {
            return i;
        }
        i = i + 1;
    }
    i
}

pub fn contains_char(v: &Vec<char>, c: char) -> (r: bool)
    ensures
        r == v@.contains(c),
{
    let mut i: usize = 0;
    while i < v.len()
        invariant
            i <= v.len(),
            forall|j: int| 0 <= j < i ==> v@[j] != c,
        decreases v.len() - i,
    {
        if v[i] == c {
            assert(v@[i as int] == c);
            return true;
        }
        i = i + 1;
    }
    false
}


pub open spec fn digit_char(d: nat) -> char {
    (48 + d) as char
}

pub open spec fn digit_value(c: char) -> nat {
    (c as u32 - 48) as nat
}

/// The decimal digits of `n`, as `to_string` writes an unsigned integer.
pub open spec fn decimal(n: nat) -> Seq<char>
    decreases n,
{
    if n < 10 {
        seq![digit_char(n)]
    } else {
        decimal(n / 10).push(digit_char(n % 10))
    }
}

/// `to_string` of a signed integer: a minus sign before the digits of a negative number.
pub open spec fn decimal_int(n: int) -> Seq<char> {
    if n < 0 {
        seq!['-'] + decimal((-n) as nat)
    } else {
        decimal(n as nat)
    }
}

fn digit(d: u64) -> (c: char)
    requires
        d < 10,
    ensures
        c == digit_char(d as nat),
{
    let b: u8 = 48 + d as u8;
    b as char
}

/// The decimal digits of `n`.
pub fn u64_decimal(n: u64) -> (r: Vec<char>)
    ensures
        r@ == decimal(n as nat),
    decreases n,
{
    if n < 10 {
        let mut v: Vec<char> = Vec::new();
        v.push(digit(n));
        v
    } else {
        let mut v = u64_decimal(n / 10);
        v.push(digit(n % 10));
        v
    }
}

/// `to_string` of a signed integer.
pub fn i64_decimal(n: i64) -> (r: Vec<char>)
    ensures
        r@ == decimal_int(n as int),
{
    if n < 0 {
        let m: u64 = (0 - (n as i128)) as u64;
        let d = u64_decimal(m);
        let mut v: Vec<char> = Vec::new();
        v.push('-');
        append(&mut v, &d);
        v
    } else {
        u64_decimal(n as u64)
    }
}

pub open spec fn all_digits(s: Seq<char>) -> bool {
    forall|i: int| 0 <= i < s.len() ==> is_digit(#[trigger] s[i])
}

/// The number that the decimal digits `s` denote.
pub open spec fn digits_value(s: Seq<char>) -> nat
    decreases s.len(),
{
    if s.len() == 0 {
        0
    } else {
        digits_value(s.drop_last()) * 10 + digit_value(s.last())
    }
}

/// What `str::parse` gives for an unsigned integer type whose largest value is `max`:
/// an optional `+`, then at least one ASCII digit, denoting at most `max`.
pub open spec fn parse_unsigned(s: Seq<char>, max: nat) -> Option<nat> {
    let d = if s.len() > 0 && s[0] == '+' {
        s.drop_first()
    } else {
        s
    };
    if d.len() > 0 && all_digits(d) && digits_value(d) <= max {
        Some(digits_value(d))
    } else {
        None
    }
}

/// What `str::parse::<i64>` gives: an optional sign, then at least one ASCII digit, in range.
pub open spec fn parse_i64_spec(s: Seq<char>) -> Option<int> {
    if s.len() > 0 && s[0] == '-' {
        let d = s.drop_first();
        if d.len() > 0 && all_digits(d) && digits_value(d) <= 0x8000_0000_0000_0000 {
            Some(-digits_value(d))
        } else {
            None
        }
    } else {
        match parse_unsigned(s, 0x7FFF_FFFF_FFFF_FFFF) {
            Some(v) => Some(v as int),
            None => None,
        }
    }
}

/// The value of the digits `s[start..]` when they are all digits, non-empty and at most `cap`.
fn digits_upto(s: &Vec<char>, start: usize, cap: u64) -> (r: Option<u64>)
    requires
        start <= s.len(),
        cap < 0xFFFF_FFFF_FFFF_FFFF,
    ensures
        ({
            let d = s@.subrange(start as int, s@.len() as int);
            r == if d.len() > 0 && all_digits(d) && digits_value(d) <= cap {
                Some(digits_value(d) as u64)
            } else {
                None::<u64>
            }
        }),
{
    let top: u128 = cap as u128 + 1;
    let mut acc: u128 = 0;
    let mut i: usize = start;
    while i < s.len()
        invariant
            start <= i <= s.len(),
            top == cap + 1,
            all_digits(s@.subrange(start as int, i as int)),
            acc == if digits_value(s@.subrange(start as int, i as int)) >= top {
                top as nat
            } else {
                digits_value(s@.subrange(start as int, i as int))
            },
        decreases s.len() - i,
    {
        let c = s[i];
        if !('0' <= c && c <= '9') {
            assert(s@.subrange(start as int, s@.len() as int)[i - start] == c);
            return None;
        }
        let ghost pre = s@.subrange(start as int, i as int);
        let ghost post = s@.subrange(start as int, i + 1);
        assert(post.drop_last() == pre);
        assert(post.last() == c);
        let dv: u128 = (c as u32 - 48) as u128;
        if acc < top {
            let next: u128 = acc * 10 + dv;
            acc = if next >= top { top } else { next };
        }
        i = i + 1;
        assert(all_digits(s@.subrange(start as int, i as int))) by {
            assert forall|t: int| 0 <= t < post.len() implies is_digit(#[trigger] post[t]) by {
                if t < pre.len() {
                    assert(post[t] == pre[t]);
                }
            }
        }
    }
    if i == start || acc >= top {
        None
    } else {
        Some(acc as u64)
    }
}

/// `str::parse::<u16>`.
pub fn parse_u16(s: &Vec<char>) -> (r: Option<u16>)
    ensures
        match parse_unsigned(s@, 0xFFFF) {
            Some(v) => r == Some(v as u16),
            None => r is None,
        },
{
    let start: usize = if s.len() > 0 && s[0] == '+' { 1 } else { 0 };
    assert(s@.subrange(start as int, s@.len() as int) == (if s@.len() > 0 && s@[0] == '+' {
        s@.drop_first()
    } else {
        s@
    }));
    match digits_upto(s, start, 0xFFFF) {
        Some(v) => Some(v as u16),
        None => None,
    }
}

/// `str::parse::<u32>`.
pub fn parse_u32(s: &Vec<char>) -> (r: Option<u32>)
    ensures
        match parse_unsigned(s@, 0xFFFF_FFFF) {
            Some(v) => r == Some(v as u32),
            None => r is None,
        },
{
    let start: usize = if s.len() > 0 && s[0] == '+' { 1 } else { 0 };
    assert(s@.subrange(start as int, s@.len() as int) == (if s@.len() > 0 && s@[0] == '+' {
        s@.drop_first()
    } else {
        s@
    }));
    match digits_upto(s, start, 0xFFFF_FFFF) {
        Some(v) => Some(v as u32),
        None => None,
    }
}

/// `str::parse::<i64>`.
pub fn parse_i64(s: &Vec<char>) -> (r: Option<i64>)
    ensures
        match parse_i64_spec(s@) {
            Some(v) => r == Some(v as i64),
            None => r is None,
        },
{
    if s.len() > 0 && s[0] == '-' {
        assert(s@.subrange(1, s@.len() as int) == s@.drop_first());
        match digits_upto(s, 1, 0x8000_0000_0000_0000) {
            Some(v) => Some((0 - (v as i128)) as i64),
            None => None,
        }
    } else {
        let start: usize = if s.len() > 0 && s[0] == '+' { 1 } else { 0 };
        assert(s@.subrange(start as int, s@.len() as int) == (if s@.len() > 0 && s@[0] == '+' {
            s@.drop_first()
        } else {
            s@
        }));
        match digits_upto(s, start, 0x7FFF_FFFF_FFFF_FFFF) {
            Some(v) => Some(v as i64),
            None => None,
        }
    }
}


/// `s` cut to its first `max` characters followed by `...` when it is longer than `max`.
pub open spec fn truncated(s: Seq<char>, max: nat) -> Seq<char> {
    if s.len() <= max {
        s
    } else {
        s.take(max as int) + seq!['.', '.', '.']
    }
}

/// `s` cut to `max` characters, with `...` appended when anything was cut.
pub fn truncate_chars(s: &Vec<char>, max: usize) -> (r: Vec<char>)
    ensures
        r@ == truncated(s@, max as nat),
{
    if s.len() <= max {
        slice(s, 0, s.len())
    } else {
        let mut v = slice(s, 0, max);
        v.push('.');
        v.push('.');
        v.push('.');
        v
    }
}

/// The pieces `parts` written one after another with `sep` between them (`join`).
pub open spec fn join(parts: Seq<Seq<char>>, sep: Seq<char>) -> Seq<char>
    decreases parts.len(),
{
    if parts.len() == 0 {
        seq![]
    } else if parts.len() == 1 {
        parts[0]
    } else {
        join(parts.drop_last(), sep) + sep + parts.last()
    }
}

/// `parts` joined with `sep` between them.
pub fn join_with(parts: &Vec<Vec<char>>, sep: &Vec<char>) -> (r: Vec<char>)
    ensures
        r@ == join(views(parts@), sep@),
{
    let mut out: Vec<char> = Vec::new();
    let mut i: usize = 0;
    while i < parts.len()
        invariant
            i <= parts.len(),
            out@ == join(views(parts@).take(i as int), sep@),
        decreases parts.len() - i,
    {
        let ghost pre = views(parts@).take(i as int);
        let ghost post = views(parts@).take(i + 1);
        assert(post.drop_last() == pre);
        assert(post.last() == parts@[i as int]@);
        if i > 0 {
            append(&mut out, sep);
        }
        append(&mut out, &parts[i]);
        i = i + 1;
    }
    assert(views(parts@).take(parts.len() as int) == views(parts@));
    out
}

/// A line ended by a line feed loses one carriage return before it.
pub open spec fn strip_cr(line: Seq<char>) -> Seq<char> {
    if line.len() > 0 && line.last() == '\r' {
        line.drop_last()
    } else {
        line
    }
}

/// The lines of `s` after the line `cur` already begun, as `str::lines` yields them.
pub open spec fn lines_from(s: Seq<char>, cur: Seq<char>) -> Seq<Seq<char>>
    decreases s.len(),
{
    if s.len() == 0 {
        flush(cur)
    } else if s[0] == '\n' {
        seq![strip_cr(cur)] + lines_from(s.drop_first(), seq![])
    } else {
        lines_from(s.drop_first(), cur.push(s[0]))
    }
}

/// `str::lines`: the pieces between line feeds, without a final empty piece, each without
/// the carriage return before its line feed.
pub open spec fn lines(s: Seq<char>) -> Seq<Seq<char>> {
    lines_from(s, seq![])
}

/// The lines of `s`.
pub fn split_lines(s: &Vec<char>) -> (r: Vec<Vec<char>>)
    ensures
        views(r@) == lines(s@),
{
    let mut out: Vec<Vec<char>> = Vec::new();
    let mut cur: Vec<char> = Vec::new();
    let mut i: usize = 0;
    assert(s@.skip(0) == s@);
    while i < s.len()
        invariant
            i <= s.len(),
            lines(s@) == views(out@) + lines_from(s@.skip(i as int), cur@),
        decreases s.len() - i,
    {
        let c = s[i];
        let ghost rest = s@.skip(i as int);
        assert(rest[0] == c);
        assert(rest.drop_first() == s@.skip(i + 1));
        if c == '\n' {
            let ghost old_out = out@;
            let ghost old_cur = cur@;
            if cur.len() > 0 && cur[cur.len() - 1] == '\r' {
                cur.pop();
            }
            let line = cur;
            out.push(line);
            assert(views(out@) == views(old_out).push(strip_cr(old_cur)));
            cur = Vec::new();
        } else {
            cur.push(c);
        }
        i = i + 1;
    }
    let ghost old_out = out@;
    if cur.len() > 0 {
        let ghost w = cur@;
        out.push(cur);
        assert(views(out@) == views(old_out).push(w));
    }
    assert(views(out@) == lines(s@));
    out
}

pub open spec fn ascii_lower(c: char) -> char {
    if 'A' <= c && c <= 'Z' {
        ((c as u32) + 32) as char
    } else {
        c
    }
}

/// `to_ascii_lowercase`.
pub open spec fn lower_seq(s: Seq<char>) -> Seq<char> {
    s.map_values(|c: char| ascii_lower(c))
}

pub fn lower_char(c: char) -> (r: char)
    ensures
        r == ascii_lower(c),
{
    if 'A' <= c && c <= 'Z' {
        let n: u32 = c as u32 + 32;
        let b: u8 = n as u8;
        b as char
    } else {
        c
    }
}

/// `s` with its ASCII capitals made small.
pub fn to_ascii_lower(s: &Vec<char>) -> (r: Vec<char>)
    ensures
        r@ == lower_seq(s@),
{
    let mut r: Vec<char> = Vec::new();
    let mut i: usize = 0;
    while i < s.len()
        invariant
            i <= s.len(),
            r@ == lower_seq(s@.take(i as int)),
        decreases s.len() - i,
    {
        r.push(lower_char(s[i]));
        i = i + 1;
        assert(lower_seq(s@.take(i as int)) == lower_seq(s@.take(i - 1)).push(ascii_lower(
            s@[i - 1],
        )));
    }
    assert(s@.take(s.len() as int) == s@);
    r
}

/// `eq_ignore_ascii_case`.
pub fn eq_ignore_ascii_case(a: &Vec<char>, b: &Vec<char>) -> (r: bool)
    ensures
        r == (lower_seq(a@) == lower_seq(b@)),
{
    let la = to_ascii_lower(a);
    let lb = to_ascii_lower(b);
    let r = equal(&la, &lb);
    proof {
        if !r {
            assert(la@ != lb@);
        }
    }
    r
}

/// Whether the two character sequences are the same.
pub fn equal(a: &Vec<char>, b: &Vec<char>) -> (r: bool)
    ensures
        r == (a@ == b@),
{
    if a.len() != b.len() {
        return false;
    }
    let mut i: usize = 0;
    while i < a.len()
        invariant
            a.len() == b.len(),
            i <= a.len(),
            forall|j: int| 0 <= j < i ==> a@[j] == b@[j],
        decreases a.len() - i,
    {
        if a[i] != b[i] {
            return false;
        }
        i = i + 1;
    }
    assert(a@ =~= b@);
    true
}


/// Where `str::find` finds `p` in `s`, searching from `from` on (meaningful when it occurs).
pub open spec fn first_occ(s: Seq<char>, p: Seq<char>, from: int) -> int {
    choose|i: int| is_first_at(s, p, from, i)
}

/// Where `c` first occurs in `s` (meaningful when it occurs).
pub open spec fn first_pos(s: Seq<char>, c: char) -> int {
    choose|i: int| 0 <= i < s.len() && s[i] == c && forall|j: int| 0 <= j < i ==> s[j] != c
}

/// Where `c` last occurs in `s` (meaningful when it occurs).
pub open spec fn last_pos(s: Seq<char>, c: char) -> int {
    choose|i: int| 0 <= i < s.len() && s[i] == c && forall|j: int| i < j < s.len() ==> s[j] != c
}

/// `str::find` of `p` in `s[from..]`, as a position in `s`.
pub fn find(s: &Vec<char>, p: &Vec<char>, from: usize) -> (r: Option<usize>)
    ensures
        r == if occurs_from(s@, p@, from as int) {
            Some(first_occ(s@, p@, from as int) as usize)
        } else {
            None::<usize>
        },
        r matches Some(i) ==> is_first_at(s@, p@, from as int, i as int),
{
    let r = find_from(s, p, from);
    match r {
        Some(i) => {
            proof {
                assert(occurs_from(s@, p@, from as int));
                let k = first_occ(s@, p@, from as int);
                assert(is_first_at(s@, p@, from as int, k));
                if k < i {
                    assert(!occurs_at(s@, p@, k));
                } else if k > i {
                    assert(!occurs_at(s@, p@, i as int));
                }
            }
            Some(i)
        },
        None => None,
    }
}

/// `str::find` of the character `c` in `s`.
pub fn find_char(s: &Vec<char>, c: char) -> (r: Option<usize>)
    ensures
        r == if s@.contains(c) {
            Some(first_pos(s@, c) as usize)
        } else {
            None::<usize>
        },
        r matches Some(i) ==> i < s@.len() && s@[i as int] == c && forall|j: int|
            0 <= j < i ==> s@[j] != c,
{
    let mut i: usize = 0;
    while i < s.len()
        invariant
            i <= s.len(),
            forall|j: int| 0 <= j < i ==> s@[j] != c,
        decreases s.len() - i,
    {
        if s[i] == c {
            proof {
                assert(s@.contains(c));
                let k = first_pos(s@, c);
                assert(0 <= k < s@.len() && s@[k] == c && forall|j: int| 0 <= j < k ==> s@[j] != c);
                if k > i {
                    assert(s@[i as int] == c);
                }
            }
            return Some(i);
        }
        i = i + 1;
    }
    None
}

/// `str::rfind` of the character `c` in `s`.
pub fn rfind(s: &Vec<char>, c: char) -> (r: Option<usize>)
    ensures
        r == if s@.contains(c) {
            Some(last_pos(s@, c) as usize)
        } else {
            None::<usize>
        },
        r matches Some(i) ==> i < s@.len() && s@[i as int] == c && forall|j: int|
            i < j < s@.len() ==> s@[j] != c,
{
    match rfind_char(s, c) {
        Some(i) => {
            proof {
                assert(s@[i as int] == c);
                assert(s@.contains(c));
                let k = last_pos(s@, c);
                assert(0 <= k < s@.len() && s@[k] == c && forall|j: int| k < j < s@.len() ==> s@[j] != c);
                if k < i {
                    assert(s@[i as int] == c);
                }
            }
            Some(i)
        },
        None => None,
    }
}


pub open spec fn opt_view(o: Option<String>) -> Option<Seq<char>> {
    match o {
        Some(s) => Some(s@),
        None => None,
    }
}

/// `str::trim` followed by `truncate_chars`: the text shown for a command's output.
pub open spec fn brief(s: Seq<char>, max: nat) -> Seq<char> {
    truncated(trim(s, CharClass::Whitespace), max)
}

/// `s` trimmed of whitespace and cut to `max` characters, with `...` when cut.
pub fn brief_of(s: &Vec<char>, max: usize) -> (r: Vec<char>)
    ensures
        r@ == brief(s@, max as nat),
{
    let t = trim_class(s, CharClass::Whitespace);
    truncate_chars(&t, max)
}


/// The first position at or after `from` where `p` occurs in `s`, searching one position at
/// a time.
pub open spec fn find_spec(s: Seq<char>, p: Seq<char>, from: int) -> Option<int>
    decreases s.len() + 1 - from,
{
    if from < 0 || from > s.len() {
        None
    } else if occurs_at(s, p, from) {
        Some(from)
    } else {
        find_spec(s, p, from + 1)
    }
}

pub proof fn lemma_find_spec_first(s: Seq<char>, p: Seq<char>, from: int, i: int)
    requires
        0 <= from,
        is_first_at(s, p, from, i),
    ensures
        find_spec(s, p, from) == Some(i),
    decreases i - from,
{
    if from < i {
        assert(!occurs_at(s, p, from));
        lemma_find_spec_first(s, p, from + 1, i);
    }
}

pub proof fn lemma_find_spec_none(s: Seq<char>, p: Seq<char>, from: int)
    requires
        0 <= from,
        !occurs_from(s, p, from),
    ensures
        find_spec(s, p, from) is None,
    decreases s.len() + 1 - from,
{
    if from <= s.len() {
        assert(!occurs_at(s, p, from));
        assert(!occurs_from(s, p, from + 1)) by {
            assert forall|j: int| from + 1 <= j implies !#[trigger] occurs_at(s, p, j) by {
                assert(from <= j);
            }
        }
        lemma_find_spec_none(s, p, from + 1);
    }
}

pub proof fn lemma_find_spec_bounds(s: Seq<char>, p: Seq<char>, from: int)
    ensures
        find_spec(s, p, from) matches Some(i) ==> from <= i && occurs_at(s, p, i),
    decreases s.len() + 1 - from,
{
    if 0 <= from <= s.len() && !occurs_at(s, p, from) {
        lemma_find_spec_bounds(s, p, from + 1);
    }
}

/// `str::find` of `p` in `s[from..]`, stated by the step-by-step search.
pub fn find_stepwise(s: &Vec<char>, p: &Vec<char>, from: usize) -> (r: Option<usize>)
    ensures
        match r {
            Some(i) => find_spec(s@, p@, from as int) == Some(i as int),
            None => find_spec(s@, p@, from as int) is None,
        },
{
    let r = find_from(s, p, from);
    proof {
        match r {
            Some(i) => lemma_find_spec_first(s@, p@, from as int, i as int),
            None => lemma_find_spec_none(s@, p@, from as int),
        }
    }
    r
}


/// `str::contains` with a pattern text.
pub fn contains_seq(s: &Vec<char>, p: &Vec<char>) -> (r: bool)
    ensures
        r == occurs_from(s@, p@, 0),
{
    find_from(s, p, 0).is_some()
}

/// `str::contains` with a literal pattern.
pub fn contains_str(s: &str, p: &str) -> (r: bool)
    ensures
        r == occurs_from(s@, p@, 0),
{
    contains_seq(&chars_of(s), &chars_of(p))
}


/// The pieces of `s` between occurrences of `c`, empty ones included, after the piece `cur`
/// already begun (`str::split` with a character).
pub open spec fn pieces_from(s: Seq<char>, c: char, cur: Seq<char>) -> Seq<Seq<char>>
    decreases s.len(),
{
    if s.len() == 0 {
        seq![cur]
    } else if s[0] == c {
        seq![cur] + pieces_from(s.drop_first(), c, seq![])
    } else {
        pieces_from(s.drop_first(), c, cur.push(s[0]))
    }
}

/// `str::split` with the character `c`.
pub open spec fn pieces(s: Seq<char>, c: char) -> Seq<Seq<char>> {
    pieces_from(s, c, seq![])
}

/// The pieces of `s` between occurrences of `c`.
pub fn split_char(s: &Vec<char>, c: char) -> (r: Vec<Vec<char>>)
    ensures
        views(r@) == pieces(s@, c),
{
    let mut out: Vec<Vec<char>> = Vec::new();
    let mut cur: Vec<char> = Vec::new();
    let mut i: usize = 0;
    assert(s@.skip(0) == s@);
    while i < s.len()
        invariant
            i <= s.len(),
            pieces(s@, c) == views(out@) + pieces_from(s@.skip(i as int), c, cur@),
        decreases s.len() - i,
    {
        let x = s[i];
        let ghost rest = s@.skip(i as int);
        assert(rest[0] == x);
        assert(rest.drop_first() == s@.skip(i + 1));
        if x == c {
            let ghost old_out = out@;
            let ghost w = cur@;
            out.push(cur);
            assert(views(out@) == views(old_out).push(w));
            cur = Vec::new();
        } else {
            cur.push(x);
        }
        i = i + 1;
    }
    let ghost old_out = out@;
    let ghost w = cur@;
    out.push(cur);
    assert(views(out@) == views(old_out).push(w));
    out
}

/// How many ASCII digits `s` starts with.
pub open spec fn digit_run(s: Seq<char>) -> nat
    decreases s.len(),
{
    if s.len() > 0 && is_digit(s[0]) {
        1 + digit_run(s.drop_first())
    } else {
        0
    }
}

/// `s` holds no character `c`.
pub open spec fn lacks(s: Seq<char>, c: char) -> bool {
    forall|i: int| 0 <= i < s.len() ==> s[i] != c
}

/// The decimal digits of `n` are digits, at least one, and denote `n`.
pub proof fn lemma_decimal_value(n: nat)
    ensures
        decimal(n).len() > 0,
        all_digits(decimal(n)),
        digits_value(decimal(n)) == n,
    decreases n,
{
    if n < 10 {
        let c = digit_char(n);
        assert(c as u32 == 48 + n);
        assert(digit_value(c) == n);
        assert(seq![c].drop_last() == Seq::<char>::empty());
        assert(seq![c].last() == c);
        assert(digits_value(seq![c]) == digits_value(Seq::<char>::empty()) * 10 + digit_value(c));
    } else {
        lemma_decimal_value(n / 10);
        let c = digit_char(n % 10);
        assert(c as u32 == 48 + n % 10);
        assert(digit_value(c) == n % 10);
        let d = decimal(n / 10);
        assert(d.push(c).drop_last() == d);
        assert(d.push(c).last() == c);
        assert(digits_value(d.push(c)) == digits_value(d) * 10 + digit_value(c));
        assert((n / 10) * 10 + n % 10 == n);
        assert forall|i: int| 0 <= i < d.push(c).len() implies is_digit(#[trigger] d.push(c)[i]) by {
            if i < d.len() {
                assert(d.push(c)[i] == d[i]);
            }
        }
    }
}

/// The decimal digits of `n` parse back to `n`, as an unsigned number up to `max` and as an
/// `i64`.
pub proof fn lemma_parse_decimal(n: nat, max: nat)
    ensures
        n <= max ==> parse_unsigned(decimal(n), max) == Some(n),
        n <= 0x7FFF_FFFF_FFFF_FFFF ==> parse_i64_spec(decimal(n)) == Some(n as int),
{
    lemma_decimal_value(n);
    let d = decimal(n);
    assert(is_digit(d[0]));
    lemma_decimal_value(n);
}

/// Words of `a + b`, when `a` ends with a separator, are those of `a` then those of `b`.
pub proof fn lemma_words_split(a: Seq<char>, b: Seq<char>, k: CharClass, cur: Seq<char>)
    requires
        a.len() > 0,
        in_class(k, a.last()),
    ensures
        words_from(a + b, k, cur) == words_from(a, k, cur) + words(b, k),
    decreases a.len(),
{
    assert((a + b)[0] == a[0]);
    if in_class(k, a[0]) {
        if a.len() == 1 {
            assert((a + b).drop_first() == b);
            assert(a.drop_first() == Seq::<char>::empty());
            assert(flush(cur) + seq![] == flush(cur));
        } else {
            assert((a + b).drop_first() == a.drop_first() + b);
            assert(a.drop_first().last() == a.last());
            lemma_words_split(a.drop_first(), b, k, seq![]);
            assert(flush(cur) + (words_from(a.drop_first(), k, seq![]) + words(b, k)) == (flush(cur)
                + words_from(a.drop_first(), k, seq![])) + words(b, k));
        }
    } else {
        assert((a + b).drop_first() == a.drop_first() + b);
        assert(a.drop_first().last() == a.last());
        lemma_words_split(a.drop_first(), b, k, cur.push(a[0]));
    }
}

/// A run `t` without separators, then nothing or a separator, makes one word after `cur`.
pub proof fn lemma_words_token(t: Seq<char>, b: Seq<char>, k: CharClass, cur: Seq<char>)
    requires
        forall|i: int| 0 <= i < t.len() ==> !in_class(k, #[trigger] t[i]),
        b.len() == 0 || in_class(k, b[0]),
    ensures
        words_from(t + b, k, cur) == flush(cur + t) + words(b, k),
    decreases t.len(),
{
    if t.len() == 0 {
        assert(t + b == b);
        assert(cur + t == cur);
        if b.len() == 0 {
            assert(flush(cur) + seq![] == flush(cur));
        } else {
            assert(flush(seq![]) + words_from(b.drop_first(), k, seq![]) == words_from(
                b.drop_first(),
                k,
                seq![],
            ));
        }
    } else {
        assert((t + b)[0] == t[0]);
        assert((t + b).drop_first() == t.drop_first() + b);
        lemma_words_token(t.drop_first(), b, k, cur.push(t[0]));
        assert(cur.push(t[0]) + t.drop_first() == cur + t);
    }
}

/// No word of `s` after `cur` holds `c` when neither does.
pub proof fn lemma_words_lack(s: Seq<char>, k: CharClass, cur: Seq<char>, c: char)
    requires
        lacks(s, c),
        lacks(cur, c),
    ensures
        forall|j: int| 0 <= j < words_from(s, k, cur).len() ==> lacks(#[trigger] words_from(s, k, cur)[j], c),
    decreases s.len(),
{
    if s.len() == 0 {
        assert(words_from(s, k, cur) == flush(cur));
        assert forall|j: int| 0 <= j < flush(cur).len() implies lacks(#[trigger] flush(cur)[j], c) by {
            assert(flush(cur)[j] == cur);
        }
    } else {
        let rest = s.drop_first();
        assert forall|i: int| 0 <= i < rest.len() implies #[trigger] rest[i] != c by {
            assert(rest[i] == s[i + 1]);
        }
        if in_class(k, s[0]) {
            lemma_words_lack(rest, k, seq![], c);
            let f = flush(cur);
            let w = words_from(rest, k, seq![]);
            assert(words_from(s, k, cur) == f + w);
            assert forall|j: int| 0 <= j < (f + w).len() implies lacks(#[trigger] (f + w)[j], c) by {
                if j >= f.len() {
                    assert((f + w)[j] == w[j - f.len()]);
                } else {
                    assert((f + w)[j] == cur);
                }
            }
        } else {
            let next = cur.push(s[0]);
            assert forall|i: int| 0 <= i < next.len() implies #[trigger] next[i] != c by {
                if i < cur.len() {
                    assert(next[i] == cur[i]);
                }
            }
            lemma_words_lack(rest, k, next, c);
            assert(words_from(s, k, cur) == words_from(rest, k, next));
        }
    }
}

pub proof fn lemma_digit_run_bound(s: Seq<char>)
    ensures
        digit_run(s) <= s.len(),
        all_digits(s.take(digit_run(s) as int)),
    decreases s.len(),
{
    if s.len() > 0 && is_digit(s[0]) {
        lemma_digit_run_bound(s.drop_first());
        let n = digit_run(s.drop_first()) as int;
        assert forall|i: int| 0 <= i < n + 1 implies is_digit(#[trigger] s.take(n + 1)[i]) by {
            if i > 0 {
                assert(s.take(n + 1)[i] == s.drop_first().take(n)[i - 1]);
            }
        }
    }
}

/// The ASCII digits that `s` starts with.
pub fn leading_digits(s: &Vec<char>) -> (r: Vec<char>)
    ensures
        r@ == s@.take(digit_run(s@) as int),
        all_digits(r@),
{
    let mut i: usize = 0;
    assert(s@.skip(0) == s@);
    while i < s.len() && '0' <= s[i] && s[i] <= '9'
        invariant
            i <= s.len(),
            digit_run(s@) == i + digit_run(s@.skip(i as int)),
        decreases s.len() - i,
    {
        assert(s@.skip(i as int).drop_first() == s@.skip(i + 1));
        i = i + 1;
    }
    proof {
        lemma_digit_run_bound(s@);
        if i < s.len() {
            assert(s@.skip(i as int)[0] == s@[i as int]);
        }
    }
    slice(s, 0, i)
}


/// `n` written in decimal with zeros in front up to `width` digits (`{:0width$}`).
pub open spec fn zero_padded(n: nat, width: nat) -> Seq<char> {
    let d = decimal(n);
    if d.len() >= width {
        d
    } else {
        Seq::new((width - d.len()) as nat, |i: int| '0') + d
    }
}

/// `n` in decimal, padded with zeros to `width` digits.
pub fn zero_pad(n: u64, width: usize) -> (r: Vec<char>)
    ensures
        r@ == zero_padded(n as nat, width as nat),
{
    let d = u64_decimal(n);
    if d.len() >= width {
        return d;
    }
    let k = width - d.len();
    let mut r: Vec<char> = Vec::new();
    let mut i: usize = 0;
    while i < k
        invariant
            i <= k,
            r@ == Seq::new(i as nat, |j: int| '0'),
        decreases k - i,
    {
        r.push('0');
        i = i + 1;
        assert(r@ =~= Seq::new(i as nat, |j: int| '0'));
    }
    append(&mut r, &d);
    r
}


fn digit128(d: u128) -> (c: char)
    requires
        d < 10,
    ensures
        c == digit_char(d as nat),
{
    let b: u8 = 48 + d as u8;
    b as char
}

/// The decimal digits of a 128-bit `n`.
pub fn u128_decimal(n: u128) -> (r: Vec<char>)
    ensures
        r@ == decimal(n as nat),
    decreases n,
{
    if n < 10 {
        let mut v: Vec<char> = Vec::new();
        v.push(digit128(n));
        v
    } else {
        let mut v = u128_decimal(n / 10);
        v.push(digit128(n % 10));
        v
    }
}

} // verus!
