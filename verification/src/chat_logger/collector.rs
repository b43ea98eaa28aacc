//! What the chat logger stores of a message: picture extensions, safe file names, the
//! fields of a file description, and the record of an uploaded file.

use vstd::prelude::*;
use crate::data_client::entities::NewChatRecord;
use crate::text::{
    append, chars_of, contains_char, decimal, equal, find_char, first_pos, has_prefix,
    last_pos, lower_seq, parse_i64, parse_i64_spec, pieces, pieces_from, push_str, rfind, slice,
    split_char, starts_with, string_of, to_ascii_lower, trim, trim_class, u128_decimal, u64_decimal,
    lemma_trim_edges, lemma_trim_is_subrange,
    views, CharClass,
};

verus! {

/// The text before the first `?` or `#`: a URL without its query and fragment.
pub open spec fn before_query(s: Seq<char>) -> Seq<char> {
    s.take(query_start(s))
}

/// Where the query or fragment of `s` begins; the length of `s` when it has neither.
pub open spec fn query_start(s: Seq<char>) -> int {
    choose|e: int| is_query_start(s, e)
}

pub open spec fn is_query_start(s: Seq<char>, e: int) -> bool {
    0 <= e <= s.len() && (forall|j: int| 0 <= j < e ==> s[j] != '?' && s[j] != '#') && (e < s.len()
        ==> (s[e] == '?' || s[e] == '#'))
}

/// The components of a path that name something: its pieces between `/` other than empty
/// ones and `.`.
pub open spec fn named_components(p: Seq<char>) -> Seq<Seq<char>> {
    pieces(p, '/').filter(names_something())
}

/// A path component that is neither empty nor `.`.
pub open spec fn names_something() -> spec_fn(Seq<char>) -> bool {
    |c: Seq<char>| c.len() > 0 && c != seq!['.']
}

/// The last component of a path, as `Path::file_name` gives it: none when there is none or
/// it is `..`.
pub open spec fn file_name(p: Seq<char>) -> Option<Seq<char>> {
    let cs = named_components(p);
    if cs.len() == 0 || cs.last() == seq!['.', '.'] {
        None
    } else {
        Some(cs.last())
    }
}

/// The extension of a file name, as `Path::extension` gives it: the text after the last
/// dot, when that dot is not the first character.
pub open spec fn name_extension(name: Seq<char>) -> Option<Seq<char>> {
    if name.contains('.') && last_pos(name, '.') > 0 {
        Some(name.skip(last_pos(name, '.') + 1))
    } else {
        None
    }
}

/// The picture extensions that are kept.
pub open spec fn known_picture_extension(e: Seq<char>) -> bool {
    e == "jpg"@ || e == "jpeg"@ || e == "png"@ || e == "gif"@ || e == "webp"@ || e == "bmp"@
}

/// The extension that a saved picture gets: that of its file name (else its URL), without
/// query, in small letters, when it is a known picture extension; `jpg` otherwise.
pub open spec fn picture_extension(url: Seq<char>, file: Option<Seq<char>>) -> Seq<char> {
    let candidate = match file {
        Some(f) => f,
        None => url,
    };
    let ext = match file_name(before_query(candidate)) {
        Some(n) => match name_extension(n) {
            Some(e) => lower_seq(e),
            None => Seq::<char>::empty(),
        },
        None => Seq::<char>::empty(),
    };
    if known_picture_extension(ext) {
        ext
    } else {
        "jpg"@
    }
}

fn before_query_exec(s: &Vec<char>) -> (r: Vec<char>)
    ensures
        r@ == before_query(s@),
{
    let mut i: usize = 0;
    while i < s.len() && s[i] != '?' && s[i] != '#'
        invariant
            i <= s.len(),
            forall|j: int| 0 <= j < i ==> s@[j] != '?' && s@[j] != '#',
        decreases s.len() - i,
    {
        i = i + 1;
    }
    proof {
        assert(is_query_start(s@, i as int));
        let k = query_start(s@);
        assert(is_query_start(s@, k));
        if k < i {
            assert(s@[k] != '?' && s@[k] != '#');
        } else if k > i {
            assert(s@[i as int] == '?' || s@[i as int] == '#');
        }
    }
    slice(s, 0, i)
}

fn file_name_exec(p: &Vec<char>) -> (r: Option<Vec<char>>)
    ensures
        match r {
            Some(v) => file_name(p@) == Some(v@),
            None => file_name(p@) is None,
        },
{
    let parts = split_char(p, '/');
    let ghost pred = names_something();
    let mut last: Option<usize> = None;
    let mut i: usize = 0;
    let dot: Vec<char> = vec!['.'];
    assert(dot@ == seq!['.']);
    while i < parts.len()
        invariant
            i <= parts@.len(),
            dot@ == seq!['.'],
            pred == names_something(),
            views(parts@) == pieces(p@, '/'),
            match last {
                Some(j) => j < i && views(parts@).take(i as int).filter(pred).len() > 0
                    && views(parts@).take(i as int).filter(pred).last() == parts@[j as int]@,
                None => views(parts@).take(i as int).filter(pred).len() == 0,
            },
        decreases parts@.len() - i,
    {
        let ghost pre = views(parts@).take(i as int);
        let ghost post = views(parts@).take(i + 1);
        assert(post == pre.push(parts@[i as int]@));
        proof {
            pre.lemma_filter_push(parts@[i as int]@, pred);
        }
        let keep = parts[i].len() > 0 && !equal(&parts[i], &dot);
        assert(parts@[i as int]@.len() == parts[i as int].len());
        assert(keep == (parts@[i as int]@.len() > 0 && parts@[i as int]@ != seq!['.']));
        assert(keep == pred(parts@[i as int]@));
        if keep {
            last = Some(i);
            assert(post.filter(pred) == pre.filter(pred).push(parts@[i as int]@));
        } else {
            assert(post.filter(pred) == pre.filter(pred));
        }
        i = i + 1;
    }
    assert(views(parts@).take(i as int) == views(parts@));
    match last {
        None => None,
        Some(j) => {
            let c = &parts[j];
            if c.len() == 2 && c[0] == '.' && c[1] == '.' {
                assert(c@ == seq!['.', '.']);
                None
            } else {
                assert(c@ != seq!['.', '.']);
                Some(slice(c, 0, c.len()))
            }
        },
    }
}

/// The extension of a picture to save, from its URL and its optional file name.
pub fn image_extension(url: &str, file: Option<&str>) -> (r: String)
    ensures
        r@ == picture_extension(
            url@,
            match file {
                Some(f) => Some(f@),
                None => None,
            },
        ),
{
    let candidate = match file {
        Some(f) => chars_of(f),
        None => chars_of(url),
    };
    let path = before_query_exec(&candidate);
    let ext: Vec<char> = match file_name_exec(&path) {
        Some(n) => match rfind(&n, '.') {
            Some(i) => {
                let len = n.len();
                assert(i < len);
                if i > 0 {
                    to_ascii_lower(&slice(&n, i + 1, n.len()))
                } else {
                    Vec::new()
                }
            },
            None => Vec::new(),
        },
        None => Vec::new(),
    };
    proof {
        match file_name(path@) {
            Some(n) => {
                if !(n.contains('.') && last_pos(n, '.') > 0) {
                    assert(ext@ == Seq::<char>::empty());
                } else {
                    assert(n.skip(last_pos(n, '.') + 1) == n.subrange(
                        last_pos(n, '.') + 1,
                        n.len() as int,
                    ));
                }
            },
            None => {},
        }
    }
    if equal(&ext, &chars_of("jpg")) || equal(&ext, &chars_of("jpeg")) || equal(
        &ext,
        &chars_of("png"),
    ) || equal(&ext, &chars_of("gif")) || equal(&ext, &chars_of("webp")) || equal(
        &ext,
        &chars_of("bmp"),
    ) {
        string_of(&ext)
    } else {
        string_of(&chars_of("jpg"))
    }
}


/// A piece of text with no `?`, no `#`, no `/` and no `.` in it.
pub open spec fn plain_piece(s: Seq<char>) -> bool {
    forall|i: int| 0 <= i < s.len() ==> s[i] != '?' && s[i] != '#' && s[i] != '/' && s[i] != '.'
}

/// The last piece of a split, when what follows the last separator holds none.
proof fn lemma_pieces_last(a: Seq<char>, b: Seq<char>, c: char, cur: Seq<char>)
    requires
        forall|i: int| 0 <= i < b.len() ==> b[i] != c,
        a.len() == 0 || a.last() == c,
    ensures
        pieces_from(a + b, c, cur).len() > 0,
        pieces_from(a + b, c, cur).last() == if a.len() == 0 {
            cur + b
        } else {
            b
        },
    decreases a.len() + b.len(),
{
    if a.len() == 0 {
        assert(a + b == b);
        if b.len() == 0 {
            assert(cur + b == cur);
        } else {
            assert(b.drop_first() == seq![] + b.drop_first());
            lemma_pieces_last(seq![], b.drop_first(), c, cur.push(b[0]));
            assert(cur.push(b[0]) + b.drop_first() == cur + b);
        }
    } else {
        let s = a + b;
        assert(s[0] == a[0]);
        assert(s.drop_first() == a.drop_first() + b);
        if a[0] == c {
            lemma_pieces_last(a.drop_first(), b, c, seq![]);
            let rest = pieces_from(a.drop_first() + b, c, seq![]);
            assert((seq![cur] + rest).last() == rest.last());
            if a.drop_first().len() == 0 {
                assert(seq![] + b == b);
            }
        } else {
            assert(a.drop_first().len() > 0 && a.drop_first().last() == c);
            lemma_pieces_last(a.drop_first(), b, c, cur.push(a[0]));
        }
    }
}

/// The extension that a picture is saved with, for a file name `stem.ext` behind a path
/// `dir` and before a query or fragment `q`, whether the name comes as the URL or as the
/// file field: the extension in small letters when it is jpg, jpeg, png, gif, webp or
/// bmp, and `jpg` for any other.
pub proof fn picture_keeps_a_known_extension(
    dir: Seq<char>,
    stem: Seq<char>,
    ext: Seq<char>,
    q: Seq<char>,
    url: Seq<char>,
)
    requires
        forall|i: int| 0 <= i < dir.len() ==> dir[i] != '?' && dir[i] != '#',
        dir.len() == 0 || dir.last() == '/',
        stem.len() > 0,
        forall|i: int|
            0 <= i < stem.len() ==> stem[i] != '?' && stem[i] != '#' && stem[i] != '/',
        plain_piece(ext),
        q.len() == 0 || q[0] == '?' || q[0] == '#',
    ensures
        ({
            let p = dir + stem + seq!['.'] + ext + q;
            let e = lower_seq(ext);
            let expected = if e == "jpg"@ || e == "jpeg"@ || e == "png"@ || e == "gif"@ || e
                == "webp"@ || e == "bmp"@ {
                e
            } else {
                "jpg"@
            };
            &&& picture_extension(p, None) == expected
            &&& picture_extension(url, Some(p)) == expected
        }),
{
    let name = stem + seq!['.'] + ext;
    let path = dir + name;
    let p = dir + stem + seq!['.'] + ext + q;
    assert(p == path + q);
    let n = path.len() as int;
    assert forall|j: int| 0 <= j < n implies p[j] != '?' && p[j] != '#' by {
        assert(p[j] == path[j]);
        if j < dir.len() {
            assert(path[j] == dir[j]);
        } else {
            assert(path[j] == name[j - dir.len()]);
            let k = j - dir.len();
            if k < stem.len() {
                assert(name[k] == stem[k]);
            } else if k > stem.len() {
                assert(name[k] == ext[k - stem.len() - 1]);
            }
        }
    }
    if n < p.len() {
        assert(p[n] == q[0]);
    }
    assert(is_query_start(p, n));
    let k = query_start(p);
    assert(is_query_start(p, k));
    if k < n {
        assert(p[k] != '?' && p[k] != '#');
    } else if k > n {
        assert(p[n] == '?' || p[n] == '#');
    }
    assert(before_query(p) == path);
    assert forall|i: int| 0 <= i < name.len() implies name[i] != '/' by {
        if i < stem.len() {
            assert(name[i] == stem[i]);
        } else if i > stem.len() {
            assert(name[i] == ext[i - stem.len() - 1]);
        }
    }
    lemma_pieces_last(dir, name, '/', seq![]);
    let ps = pieces(path, '/');
    assert(ps.last() == name) by {
        if dir.len() == 0 {
            assert(seq![] + name == name);
        }
    }
    let pred = names_something();
    assert(ps == ps.drop_last().push(name));
    ps.drop_last().lemma_filter_push(name, pred);
    assert(name.len() == stem.len() + 1 + ext.len());
    assert(name.len() >= 2);
    assert(name != seq!['.']);
    assert(pred(name));
    assert(named_components(path) == ps.drop_last().filter(pred).push(name));
    if name == seq!['.', '.'] {
        // `stem` is `.` and the extension is empty: there is no file name, and no known
        // extension either.
        assert(ext.len() == 0);
        assert(file_name(path) is None);
        reveal_strlit("jpg");
        reveal_strlit("jpeg");
        reveal_strlit("png");
        reveal_strlit("gif");
        reveal_strlit("webp");
        reveal_strlit("bmp");
        assert(lower_seq(ext).len() == 0);
    } else {
        assert(file_name(path) == Some(name));
        let d = stem.len() as int;
        assert(name[d] == '.');
        assert(name.contains('.'));
        let lp = last_pos(name, '.');
        assert(0 <= lp < name.len() && name[lp] == '.' && forall|j: int|
            lp < j < name.len() ==> name[j] != '.');
        if lp < d {
            assert(name[d] == '.');
        } else if lp > d {
            assert(name[lp] == ext[lp - d - 1]);
        }
        assert(lp == d);
        assert(name.skip(lp + 1) == ext);
        assert(name_extension(name) == Some(ext));
    }
}

/// A character that may not stand in a saved file's name.
pub open spec fn unsafe_char(c: char) -> bool {
    c == '/' || c == '\\' || c == ':' || c == '*' || c == '?' || c == '"' || c == '<' || c == '>'
        || c == '|' || c == '\0'
}

/// `s` with each unsafe character replaced by `_`.
pub open spec fn cleaned(s: Seq<char>) -> Seq<char> {
    s.map_values(|c: char| if unsafe_char(c) { '_' } else { c })
}

/// The name a file is saved under: unsafe characters replaced by `_`, then whitespace and
/// dots trimmed at both ends; `file` when nothing is left.
pub open spec fn safe_file_name(s: Seq<char>) -> Seq<char> {
    let t = trim(trim(cleaned(s), CharClass::Whitespace), CharClass::Dot);
    if t.len() == 0 {
        "file"@
    } else {
        t
    }
}

/// `name` made safe to save a file under: no path separators or other unsafe characters,
/// no surrounding whitespace or dots, never empty.
pub fn sanitize_filename(name: &str) -> (r: String)
    ensures
        r@ == safe_file_name(name@),
{
    let cs = chars_of(name);
    let mut out: Vec<char> = Vec::new();
    let mut i: usize = 0;
    while i < cs.len()
        invariant
            i <= cs@.len(),
            out@ == cleaned(cs@.take(i as int)),
        decreases cs@.len() - i,
    {
        let c = cs[i];
        let d = if c == '/' || c == '\\' || c == ':' || c == '*' || c == '?' || c == '"' || c
            == '<' || c == '>' || c == '|' || c == '\0' {
            '_'
        } else {
            c
        };
        out.push(d);
        assert(cleaned(cs@.take(i + 1)) == cleaned(cs@.take(i as int)).push(d));
        i = i + 1;
    }
    assert(cs@.take(i as int) == cs@);
    let t = trim_class(&trim_class(&out, CharClass::Whitespace), CharClass::Dot);
    if t.len() == 0 {
        string_of(&chars_of("file"))
    } else {
        string_of(&t)
    }
}

/// A saved file's name is never empty, holds no path separator or other unsafe character,
/// and neither starts nor ends with a dot (so it is never `.` or `..`), whatever name the
/// sender gave.
pub proof fn sanitized_names_are_safe(name: Seq<char>)
    ensures
        safe_file_name(name).len() > 0,
        safe_file_name(name)[0] != '.',
        safe_file_name(name).last() != '.',
        forall|i: int|
            0 <= i < safe_file_name(name).len() ==> !unsafe_char(#[trigger] safe_file_name(name)[i]),
{
    reveal_strlit("file");
    let c = cleaned(name);
    let t1 = trim(c, CharClass::Whitespace);
    lemma_trim_is_subrange(c, CharClass::Whitespace);
    let (a1, b1) = choose|a: int, b: int| 0 <= a <= b <= c.len() && trim(c, CharClass::Whitespace) == c.subrange(a, b);
    let t2 = trim(t1, CharClass::Dot);
    lemma_trim_edges(t1, CharClass::Dot);
    lemma_trim_is_subrange(t1, CharClass::Dot);
    let (a2, b2) = choose|a: int, b: int| 0 <= a <= b <= t1.len() && trim(t1, CharClass::Dot) == t1.subrange(a, b);
    assert forall|i: int| 0 <= i < t2.len() implies !unsafe_char(#[trigger] t2[i]) by {
        assert(t2[i] == t1[a2 + i]);
        assert(t1[a2 + i] == c[a1 + a2 + i]);
    }
}

#[verifier::external_type_specification]
#[verifier::external_body]
pub struct ExSystemTime(std::time::SystemTime);

/// `SystemTime::now`: the current time of the system clock. Nothing is stated of it.
#[verifier::external_body]
fn system_now() -> std::time::SystemTime {
    std::time::SystemTime::now()
}

/// `SystemTime::duration_since(UNIX_EPOCH)`: the time elapsed since the Unix epoch, none
/// when `t` lies before it. Nothing is stated of it: it depends on the clock.
#[verifier::external_body]
fn since_epoch(t: &std::time::SystemTime) -> Option<std::time::Duration> {
    t.duration_since(std::time::UNIX_EPOCH).ok()
}

/// `Duration::as_millis`: the whole milliseconds of `d`. Nothing is stated of it: a
/// duration is opaque here.
#[verifier::external_body]
fn whole_millis(d: &std::time::Duration) -> u128 {
    d.as_millis()
}

/// Milliseconds since the Unix epoch by the system clock; 0 when the clock lies before it.
pub fn now_millis() -> (r: u128) {
    let t = system_now();
    match since_epoch(&t) {
        Some(d) => whole_millis(&d),
        None => 0,
    }
}

/// A field of a JSON file description, as the logger reads it.
#[derive(Debug, Clone, PartialEq, Eq)]
pub enum JsonField {
    /// The field is absent (or the description is no object).
    Missing,
    /// A string.
    Str(String),
    /// A number that fits in an `i64`.
    Int(i64),
    /// Anything else.
    Other,
}

/// The fields of a file description (a `file` segment's data, or the `file` object of a
/// `group_upload` notice) that the logger reads; implementations name them differently.
pub struct FileObject {
    pub name: JsonField,
    pub file: JsonField,
    pub file_name: JsonField,
    pub file_id: JsonField,
    pub id: JsonField,
    pub size: JsonField,
    pub file_size: JsonField,
    pub busid: JsonField,
    pub url: JsonField,
}

/// What the logger keeps of a file description.
pub struct FileInfo {
    pub name: Option<String>,
    pub file_id: Option<String>,
    pub size: Option<i64>,
    pub busid: Option<i64>,
    pub url: Option<String>,
}

/// The first of two fields that is present (`Value::get(a).or_else(|| get(b))`).
pub open spec fn present(a: JsonField, b: JsonField) -> JsonField {
    match a {
        JsonField::Missing => b,
        _ => a,
    }
}

/// The string a field holds (`Value::as_str`).
pub open spec fn field_str(f: JsonField) -> Option<Seq<char>> {
    match f {
        JsonField::Str(s) => Some(s@),
        _ => None,
    }
}

/// The number a field holds, or a string field's number (`as_i64`, else `as_str` parsed).
pub open spec fn field_number(f: JsonField) -> Option<i64> {
    match f {
        JsonField::Int(v) => Some(v),
        JsonField::Str(s) => match parse_i64_spec(s@) {
            Some(v) => Some(v as i64),
            None => None,
        },
        _ => None,
    }
}

fn pick<'a>(a: &'a JsonField, b: &'a JsonField) -> (r: &'a JsonField)
    ensures
        *r == present(*a, *b),
{
    match a {
        JsonField::Missing => b,
        _ => a,
    }
}

fn str_of(f: &JsonField) -> (r: Option<String>)
    ensures
        match r {
            Some(s) => field_str(*f) == Some(s@),
            None => field_str(*f) is None,
        },
{
    match f {
        JsonField::Str(s) => Some(s.clone()),
        _ => None,
    }
}

fn number_of(f: &JsonField) -> (r: Option<i64>)
    ensures
        r == field_number(*f),
{
    match f {
        JsonField::Int(v) => Some(*v),
        JsonField::Str(s) => parse_i64(&chars_of(s.as_str())),
        _ => None,
    }
}

pub open spec fn opt_str(o: Option<String>) -> Option<Seq<char>> {
    match o {
        Some(s) => Some(s@),
        None => None,
    }
}

/// What a file description says: the name from `name`, `file` or `file_name`, the ID from
/// `file_id` or `id` (the first present field counts, and only a string is taken), the size
/// from `size` or `file_size` and the bus ID (numbers, or strings holding one), the URL.
pub fn describe_file(obj: &FileObject) -> (r: FileInfo)
    ensures
        opt_str(r.name) == field_str(present(obj.name, present(obj.file, obj.file_name))),
        opt_str(r.file_id) == field_str(present(obj.file_id, obj.id)),
        r.size == field_number(present(obj.size, obj.file_size)),
        r.busid == field_number(obj.busid),
        opt_str(r.url) == field_str(obj.url),
{
    FileInfo {
        name: str_of(pick(&obj.name, pick(&obj.file, &obj.file_name))),
        file_id: str_of(pick(&obj.file_id, &obj.id)),
        size: number_of(pick(&obj.size, &obj.file_size)),
        busid: number_of(&obj.busid),
        url: str_of(&obj.url),
    }
}

/// Where the download address of a described file comes from.
#[derive(Debug, Clone, PartialEq, Eq)]
pub enum UrlPlan {
    /// The description gives the address.
    Given(String),
    /// The address is asked of the bot (`get_group_file_url`) for this file ID.
    Resolve(String),
    /// There is no address and no ID to ask for one: nothing is downloaded.
    NoUrl,
}

/// The download address of a file: the description's own URL, else the group-file URL
/// that the bot gives for its ID, else none.
pub fn file_url_plan(url: Option<String>, file_id: Option<String>) -> (r: UrlPlan)
    ensures
        match url {
            Some(u) => r == UrlPlan::Given(u),
            None => match file_id {
                Some(id) => r == UrlPlan::Resolve(id),
                None => r == UrlPlan::NoUrl,
            },
        },
{
    match url {
        Some(u) => UrlPlan::Given(u),
        None => match file_id {
            Some(id) => UrlPlan::Resolve(id),
            None => UrlPlan::NoUrl,
        },
    }
}

/// The kind of a message segment, as the logger tells them apart.
#[derive(Debug, Clone, Copy, PartialEq, Eq, Structural)]
pub enum SegmentKind {
    Image,
    File,
    Other,
}

/// The kind of a segment of type `type_`: `image`, `file`, or anything else.
pub fn kind_of(type_: &str) -> (r: SegmentKind)
    ensures
        r == if type_@ == "image"@ {
            SegmentKind::Image
        } else if type_@ == "file"@ {
            SegmentKind::File
        } else {
            SegmentKind::Other
        },
{
    let t = chars_of(type_);
    if equal(&t, &chars_of("image")) {
        SegmentKind::Image
    } else if equal(&t, &chars_of("file")) {
        SegmentKind::File
    } else {
        SegmentKind::Other
    }
}

/// Whether the segment at a position is of kind `k`.
pub open spec fn is_kind(kinds: Seq<SegmentKind>, k: SegmentKind) -> spec_fn(int) -> bool {
    |i: int| kinds[i] == k
}

/// The positions below `n`, in order, of the segments of kind `k`.
pub open spec fn positions_below(kinds: Seq<SegmentKind>, k: SegmentKind, n: nat) -> Seq<int> {
    Seq::new(n, |i: int| i).filter(is_kind(kinds, k))
}

/// The positions, in order, of the segments of kind `k`.
pub open spec fn positions_of(kinds: Seq<SegmentKind>, k: SegmentKind) -> Seq<int> {
    positions_below(kinds, k, kinds.len())
}

/// The positions of a kind are exactly the segments of that kind: each one names a segment
/// of the kind, each such segment is among them, and there are none when the message has no
/// segment of the kind.
pub proof fn positions_are_the_segments_of_the_kind(kinds: Seq<SegmentKind>, k: SegmentKind)
    ensures
        forall|j: int|
            0 <= j < positions_of(kinds, k).len() ==> 0 <= #[trigger] positions_of(kinds, k)[j]
                < kinds.len() && kinds[positions_of(kinds, k)[j]] == k,
        forall|i: int| 0 <= i < kinds.len() && kinds[i] == k ==> #[trigger] positions_of(kinds, k).contains(i),
        positions_of(kinds, k).len() == 0 <==> forall|i: int| 0 <= i < kinds.len() ==> kinds[i] != k,
{
    broadcast use vstd::seq_lib::group_filter_ensures;

    let all = Seq::new(kinds.len(), |i: int| i);
    let p = positions_of(kinds, k);
    assert forall|j: int| 0 <= j < p.len() implies 0 <= #[trigger] p[j] < kinds.len() && kinds[p[j]] == k by {
        assert(is_kind(kinds, k)(p[j]));
        assert(p.contains(p[j]));
        all.lemma_filter_contains_rev(is_kind(kinds, k), p[j]);
        let x = choose|x: int| 0 <= x < all.len() && all[x] == p[j];
        assert(all[x] == x);
    }
    assert forall|i: int| 0 <= i < kinds.len() && kinds[i] == k implies #[trigger] p.contains(i) by {
        assert(all[i] == i);
        assert(is_kind(kinds, k)(all[i]));
    }
    if p.len() == 0 {
        assert forall|i: int| 0 <= i < kinds.len() implies kinds[i] != k by {
            if kinds[i] == k {
                assert(all[i] == i);
                assert(p.contains(i));
            }
        }
    } else {
        assert(kinds[p[0]] == k);
    }
}

/// The positions, in order, of the segments of kind `k`: the pictures or files of a message
/// are saved in this order, one entry each.
pub fn positions(kinds: &Vec<SegmentKind>, k: SegmentKind) -> (r: Vec<usize>)
    ensures
        r@.len() == positions_of(kinds@, k).len(),
        forall|j: int| 0 <= j < r@.len() ==> r@[j] as int == #[trigger] positions_of(kinds@, k)[j],
{
    let mut r: Vec<usize> = Vec::new();
    let mut i: usize = 0;
    while i < kinds.len()
        invariant
            i <= kinds@.len(),
            r@.len() == positions_below(kinds@, k, i as nat).len(),
            forall|j: int|
                0 <= j < r@.len() ==> r@[j] as int == #[trigger] positions_below(kinds@, k, i as nat)[j],
        decreases kinds@.len() - i,
    {
        let ghost pre = Seq::new(i as nat, |x: int| x);
        assert(Seq::new((i + 1) as nat, |x: int| x) == pre.push(i as int));
        proof {
            pre.lemma_filter_push(i as int, is_kind(kinds@, k));
        }
        let ghost before = positions_below(kinds@, k, i as nat);
        let ghost after = positions_below(kinds@, k, (i + 1) as nat);
        if kinds[i] == k {
            assert(after == before.push(i as int));
            let ghost old_r = r@;
            r.push(i);
            assert forall|j: int| 0 <= j < r@.len() implies r@[j] as int == #[trigger] after[j] by {
                if j < old_r.len() {
                    assert(r@[j] == old_r[j]);
                    assert(after[j] == before[j]);
                }
            }
        } else {
            assert(after == before);
        }
        i = i + 1;
    }
    r
}

/// The name a downloaded file is saved under: the time, `_`, then the file's name (else its
/// ID, else `file`) made safe.
pub open spec fn saved_file_text(ts: u128, name: Option<Seq<char>>, file_id: Option<Seq<char>>) -> Seq<char> {
    let base = match name {
        Some(n) => n,
        None => match file_id {
            Some(i) => i,
            None => "file"@,
        },
    };
    decimal(ts as nat) + "_"@ + safe_file_name(base)
}

pub fn saved_file_name(ts: u128, name: Option<&str>, file_id: Option<&str>) -> (r: String)
    ensures
        r@ == saved_file_text(
            ts,
            match name {
                Some(n) => Some(n@),
                None => None,
            },
            match file_id {
                Some(i) => Some(i@),
                None => None,
            },
        ),
{
    let base = match name {
        Some(n) => n,
        None => match file_id {
            Some(i) => i,
            None => "file",
        },
    };
    let mut m = u128_decimal(ts);
    push_str(&mut m, "_");
    push_str(&mut m, sanitize_filename(base).as_str());
    string_of(&m)
}

/// The name a downloaded picture is saved under: message ID, position in the message,
/// time and extension.
pub fn saved_image_name(message_id: i32, idx: usize, ts: u128, ext: &str) -> (r: String)
    ensures
        r@ == crate::text::decimal_int(message_id as int) + "_"@ + decimal(idx as nat) + "_"@
            + decimal(ts as nat) + "."@ + ext@,
{
    let mut m = crate::text::i64_decimal(message_id as i64);
    push_str(&mut m, "_");
    append(&mut m, &u64_decimal(idx as u64));
    push_str(&mut m, "_");
    append(&mut m, &u128_decimal(ts));
    push_str(&mut m, ".");
    push_str(&mut m, ext);
    string_of(&m)
}

/// The local file that a download URL names: the path after `file://`, or the URL itself
/// when it is an absolute path; none for other URLs.
pub fn local_source(url: &str) -> (r: Option<String>)
    ensures
        if has_prefix(url@, "file://"@) {
            r matches Some(p) && p@ == url@.skip(7)
        } else if url@.len() > 0 && url@[0] == '/' {
            r matches Some(p) && p@ == url@
        } else {
            r is None
        },
{
    let cs = chars_of(url);
    let pre = chars_of("file://");
    if starts_with(&cs, &pre) {
        assert(pre@.len() == 7) by {
            reveal_strlit("file://");
        }
        let rest = slice(&cs, 7, cs.len());
        assert(rest@ == url@.skip(7));
        return Some(string_of(&rest));
    }
    if cs.len() > 0 && cs[0] == '/' {
        Some(string_of(&cs))
    } else {
        None
    }
}

/// What the logger reads of a group message event.
pub struct MessageFacts {
    pub message_id: i32,
    pub user_id: i64,
    pub nickname: Option<String>,
    pub card: Option<String>,
    pub role: Option<String>,
    pub message_type: String,
    pub sub_type: String,
    pub raw_message: String,
    pub text: Option<String>,
    pub human_text: String,
    pub self_id: i64,
    pub font: i32,
    pub time: i64,
}

/// The JSON list of what was saved from a message; none when nothing was.
pub fn saved_list(count: usize, json: String) -> (r: Option<String>)
    ensures
        count == 0 ==> r is None,
        count > 0 ==> r == Some(json),
{
    if count == 0 {
        None
    } else {
        Some(json)
    }
}

/// The record of a message in a monitored group: every field the event carries, the saved
/// pictures and files as JSON lists, and the message and the whole event as JSON.
pub fn message_record(
    m: MessageFacts,
    group_id: i64,
    images: Option<String>,
    files: Option<String>,
    message_json: Option<String>,
    original_json: Option<String>,
) -> (r: NewChatRecord)
    ensures
        r.message_id == m.message_id as i64 && r.group_id == group_id && r.user_id == m.user_id,
        r.nickname == m.nickname && r.card == m.card && r.role == m.role,
        r.message_type == Some(m.message_type) && r.sub_type == Some(m.sub_type),
        r.raw_message == Some(m.raw_message) && r.plain_text == m.text,
        r.human_text == Some(m.human_text),
        r.images == images && r.files == files,
        r.message_json == message_json && r.original_json == original_json,
        r.self_id == m.self_id && r.font == m.font as i64 && r.msg_time == m.time,
{
    NewChatRecord {
        message_id: m.message_id as i64,
        group_id,
        user_id: m.user_id,
        nickname: m.nickname,
        card: m.card,
        role: m.role,
        message_type: Some(m.message_type),
        sub_type: Some(m.sub_type),
        raw_message: Some(m.raw_message),
        plain_text: m.text,
        human_text: Some(m.human_text),
        images,
        files,
        message_json,
        original_json,
        self_id: m.self_id,
        font: m.font as i64,
        msg_time: m.time,
    }
}

/// The record of a file uploaded to a monitored group: a `notice` of sub-type
/// `group_upload`, readable as `[file] name`, with the saved files as JSON.
pub fn group_upload_record(
    group_id: i64,
    user_id: i64,
    name: Option<String>,
    files_json: String,
    original_json: Option<String>,
    self_id: i64,
    time: i64,
) -> (r: NewChatRecord)
    ensures
        r.message_id == 0 && r.group_id == group_id && r.user_id == user_id,
        r.self_id == self_id && r.msg_time == time && r.font == 0,
        r.message_type matches Some(t) && t@ == "notice"@,
        r.sub_type matches Some(t) && t@ == "group_upload"@,
        r.human_text matches Some(t) && t@ == "[file] "@ + match name {
            Some(n) => n@,
            None => Seq::<char>::empty(),
        },
        r.files matches Some(f) && f@ == files_json@,
        r.original_json == original_json,
        r.nickname is None && r.card is None && r.role is None && r.raw_message is None
            && r.plain_text is None && r.images is None && r.message_json is None,
{
    let mut human = chars_of("[file] ");
    let ghost before = human@;
    match &name {
        Some(n) => push_str(&mut human, n.as_str()),
        None => {
            assert(human@ == before + Seq::<char>::empty());
        },
    }
    NewChatRecord {
        message_id: 0,
        group_id,
        user_id,
        nickname: None,
        card: None,
        role: None,
        message_type: Some(string_of(&chars_of("notice"))),
        sub_type: Some(string_of(&chars_of("group_upload"))),
        raw_message: None,
        plain_text: None,
        human_text: Some(string_of(&human)),
        images: None,
        files: Some(files_json),
        message_json: None,
        original_json,
        self_id,
        font: 0,
        msg_time: time,
    }
}

} // verus!
