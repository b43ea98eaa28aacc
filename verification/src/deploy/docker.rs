//! What the outputs of `docker` commands mean: digests, health states and error messages.

use vstd::prelude::*;
use crate::text::{
    brief, brief_of, chars_of, equal, find, first_occ, first_stop, has_prefix, is_ws, last_pos,
    occurs_from, opt_view, rfind, slice, starts_with, string_of, trim, trim_class, CharClass,
    find_spec, lemma_find_spec_bounds, find_stepwise, first_pos, find_char, trim_start,
    trim_start_class, occurs_at, contains_seq, contains_str, lower_seq, to_ascii_lower,
    eq_ignore_ascii_case, i64_decimal, decimal_int, push_str, append, lines, split_lines, views,
    u64_decimal, decimal,
};
use crate::deploy::config::SlotConfig;

verus! {

/// `truncate_output`: the output trimmed and cut to `max_len` characters, `...` marking a cut.
pub fn truncate_output(s: &str, max_len: usize) -> (r: String)
    ensures
        r@ == brief(s@, max_len as nat),
{
    let cs = chars_of(s);
    string_of(&brief_of(&cs, max_len))
}

/// A character that ends a digest found inside a line.
pub open spec fn ends_digest(c: char) -> bool {
    is_ws(c) || c == '"' || c == ','
}

/// Where the digest starting at `i` in `t` ends: at the first whitespace, `"` or `,`.
pub open spec fn digest_end(t: Seq<char>, i: int) -> int {
    choose|e: int| is_digest_end(t, i, e)
}

pub open spec fn is_digest_end(t: Seq<char>, i: int, e: int) -> bool {
    i <= e <= t.len() && (forall|j: int| i <= j < e ==> !ends_digest(t[j])) && (e < t.len()
        ==> ends_digest(t[e]))
}

/// The digest that a line of `docker` output names, as `extract_digest` reads it: after the
/// last `@` of a `repo@sha256:...` reference, the whole text when it starts with `sha256:`,
/// or the `sha256:...` word inside it.
pub open spec fn spec_extract_digest(s: Seq<char>) -> Option<Seq<char>> {
    let t = trim(s, CharClass::Whitespace);
    if t.len() == 0 || t == "<no value>"@ {
        None
    } else if t.contains('@') {
        Some(t.subrange(last_pos(t, '@') + 1, t.len() as int))
    } else if has_prefix(t, "sha256:"@) {
        Some(t)
    } else if occurs_from(t, "sha256:"@, 0) {
        let i = first_occ(t, "sha256:"@, 0);
        Some(t.subrange(i, digest_end(t, i)))
    } else {
        None
    }
}

fn digest_in(s: &Vec<char>) -> (r: Option<Vec<char>>)
    ensures
        match r {
            Some(v) => spec_extract_digest(s@) == Some(v@),
            None => spec_extract_digest(s@) is None,
        },
{
    let t = trim_class(s, CharClass::Whitespace);
    let none = chars_of("<no value>");
    if t.len() == 0 || equal(&t, &none) {
        return None;
    }
    if let Some(i) = rfind(&t, '@') {
        return Some(slice(&t, i + 1, t.len()));
    }
    let pre = chars_of("sha256:");
    if starts_with(&t, &pre) {
        return Some(t);
    }
    match find(&t, &pre, 0) {
        Some(i) => {
            let stops = vec!['"', ','];
            let e = first_stop(&t, i, CharClass::Whitespace, &stops);
            proof {
                assert forall|c: char| stops@.contains(c) <==> (c == '"' || c == ',') by {
                    if c == '"' {
                        assert(stops@[0] == c);
                    }
                    if c == ',' {
                        assert(stops@[1] == c);
                    }
                }
                let k = digest_end(t@, i as int);
                assert(is_digest_end(t@, i as int, e as int));
                assert(is_digest_end(t@, i as int, k));
                if k < e {
                    assert(!ends_digest(t@[k]));
                } else if k > e {
                    assert(!ends_digest(t@[e as int]));
                }
            }
            Some(slice(&t, i, e))
        },
        None => None,
    }
}

/// The digest named in a line of `docker` output.
pub fn extract_digest(s: &str) -> (r: Option<String>)
    ensures
        opt_view(r) == spec_extract_digest(s@),
{
    let cs = chars_of(s);
    match digest_in(&cs) {
        Some(v) => Some(string_of(&v)),
        None => None,
    }
}


/// The key that `serde_json_lite_digest` looks for: `"digest"` with its quotes.
pub open spec fn digest_key() -> Seq<char> {
    seq!['"', 'd', 'i', 'g', 'e', 's', 't', '"']
}

/// The digest right after one `"digest"` key: the first `:` after the key, then a quoted
/// string (after optional whitespace) that starts with `sha256:`.
pub open spec fn digest_value_after(rest: Seq<char>) -> Option<Seq<char>> {
    if rest.contains(':') {
        let after = trim_start(rest.skip(first_pos(rest, ':') + 1), CharClass::Whitespace);
        if after.len() > 0 && after[0] == '"' {
            let st = after.drop_first();
            if st.contains('"') {
                let dig = st.take(first_pos(st, '"'));
                if has_prefix(dig, "sha256:"@) {
                    Some(dig)
                } else {
                    None
                }
            } else {
                None
            }
        } else {
            None
        }
    } else {
        None
    }
}

/// The first `"digest": "sha256:..."` value of `s` whose key occurs at or after `from`.
pub open spec fn json_digest_from(s: Seq<char>, from: int) -> Option<Seq<char>>
    decreases s.len() + 1 - from,
{
    match find_spec(s, digest_key(), from) {
        Some(pos) => {
            let abs = pos + 8;
            match digest_value_after(s.skip(abs)) {
                Some(d) => Some(d),
                None => {
                    proof {
                        lemma_find_spec_bounds(s, digest_key(), from);
                    }
                    json_digest_from(s, abs)
                },
            }
        },
        None => None,
    }
}

/// The error of `serde_json_lite_digest`: the text holds no `"digest"` key with a
/// `sha256:` value.
#[derive(Debug, Clone, Copy, PartialEq, Eq)]
pub struct DigestNotFound;

fn digest_value_at(cs: &Vec<char>, abs: usize) -> (r: Option<Vec<char>>)
    requires
        abs <= cs.len(),
    ensures
        match r {
            Some(v) => digest_value_after(cs@.skip(abs as int)) == Some(v@),
            None => digest_value_after(cs@.skip(abs as int)) is None,
        },
{
    let rest = slice(cs, abs, cs.len());
    assert(rest@ == cs@.skip(abs as int));
    let colon = match find_char(&rest, ':') {
        Some(c) => c,
        None => return None,
    };
    let tail = slice(&rest, colon + 1, rest.len());
    assert(tail@ == rest@.skip(colon + 1));
    let after = trim_start_class(&tail, CharClass::Whitespace);
    if after.len() == 0 || after[0] != '"' {
        return None;
    }
    let st = slice(&after, 1, after.len());
    assert(st@ == after@.drop_first());
    let end = match find_char(&st, '"') {
        Some(e) => e,
        None => return None,
    };
    let dig = slice(&st, 0, end);
    assert(dig@ == st@.take(end as int));
    if starts_with(&dig, &chars_of("sha256:")) {
        Some(dig)
    } else {
        None
    }
}

/// The first `"digest": "sha256:..."` value in a JSON text, found without a JSON parser.
pub fn serde_json_lite_digest(s: &str) -> (r: Result<String, DigestNotFound>)
    ensures
        match r {
            Ok(d) => json_digest_from(s@, 0) == Some(d@),
            Err(_) => json_digest_from(s@, 0) is None,
        },
{
    let cs = chars_of(s);
    let key: Vec<char> = vec!['"', 'd', 'i', 'g', 'e', 's', 't', '"'];
    assert(key@ == digest_key());
    let mut from: usize = 0;
    while from <= cs.len()
        invariant
            from <= cs.len() + 1,
            key@ == digest_key(),
            json_digest_from(cs@, 0) == json_digest_from(cs@, from as int),
            cs@ == s@,
        decreases cs.len() + 1 - from,
    {
        match find_stepwise(&cs, &key, from) {
            None => {
                return Err(DigestNotFound);
            },
            Some(pos) => {
                proof {
                    lemma_find_spec_bounds(cs@, key@, from as int);
                }
                let abs = pos + 8;
                match digest_value_at(&cs, abs) {
                    Some(d) => {
                        return Ok(string_of(&d));
                    },
                    None => {
                        from = abs;
                    },
                }
            },
        }
    }
    Err(DigestNotFound)
}


/// The health of a container, as `docker inspect` reports it.
#[derive(Debug, Clone, PartialEq, Eq)]
pub enum HealthStatus {
    Healthy,
    RunningNoHealthcheck,
    Unhealthy,
    Starting,
    NotRunning,
    Unknown(String),
}

/// `docker inspect -f {{.State.Running}}` says that the container runs: it succeeded and
/// printed `true` in any letter case.
pub open spec fn says_running(code: i32, out: Seq<char>) -> bool {
    code == 0 && lower_seq(trim(out, CharClass::Whitespace)) == lower_seq("true"@)
}

/// Whether the container runs, from the exit code and output of
/// `docker inspect -f {{.State.Running}}`.
pub fn container_running(code: i32, stdout: &str) -> (r: bool)
    ensures
        r == says_running(code, stdout@),
{
    if code != 0 {
        return false;
    }
    let t = trim_class(&chars_of(stdout), CharClass::Whitespace);
    eq_ignore_ascii_case(&t, &chars_of("true"))
}

/// The health status that `docker inspect -f {{.State.Health.Status}}` reports for a
/// running container.
pub fn health_from_inspect(code: i32, out: &str) -> (r: HealthStatus)
    ensures
        ({
            let t = trim(out@, CharClass::Whitespace);
            if code != 0 || t.len() == 0 || t == "<no value>"@ || t == "<nil>"@ {
                r is RunningNoHealthcheck
            } else if t == "healthy"@ {
                r is Healthy
            } else if t == "unhealthy"@ {
                r is Unhealthy
            } else if t == "starting"@ {
                r is Starting
            } else {
                r matches HealthStatus::Unknown(o) && o@ == t
            }
        }),
{
    if code != 0 {
        return HealthStatus::RunningNoHealthcheck;
    }
    let t = trim_class(&chars_of(out), CharClass::Whitespace);
    if t.len() == 0 || equal(&t, &chars_of("<no value>")) || equal(&t, &chars_of("<nil>")) {
        HealthStatus::RunningNoHealthcheck
    } else if equal(&t, &chars_of("healthy")) {
        HealthStatus::Healthy
    } else if equal(&t, &chars_of("unhealthy")) {
        HealthStatus::Unhealthy
    } else if equal(&t, &chars_of("starting")) {
        HealthStatus::Starting
    } else {
        HealthStatus::Unknown(string_of(&t))
    }
}

/// What to do after one health poll of `wait_until_healthy`.
#[derive(Debug, Clone, PartialEq, Eq)]
pub enum PollDecision {
    /// The container is ready; `true` when it has a health check that passed.
    Ready(bool),
    /// The wait fails with this message.
    Failed(String),
    /// Poll again after the interval.
    Wait,
}

pub open spec fn unhealthy_message(name: Seq<char>) -> Seq<char> {
    "容器 "@ + name + " 健康检查失败 (unhealthy)"@
}

pub open spec fn not_running_message(name: Seq<char>) -> Seq<char> {
    "容器 "@ + name + " 未在运行"@
}

pub open spec fn health_timeout_message(name: Seq<char>, timeout: u64) -> Seq<char> {
    "等待容器 "@ + name + " 健康超时 ("@ + decimal(timeout as nat) + "s)"@
}

/// The decision of `wait_until_healthy` after a poll returned `status`, `expired` telling
/// whether the deadline has passed.
pub fn poll_decision(status: &HealthStatus, expired: bool, name: &str, timeout_secs: u64) -> (r:
    PollDecision)
    ensures
        match status {
            HealthStatus::Healthy => r == PollDecision::Ready(true),
            HealthStatus::RunningNoHealthcheck => r == PollDecision::Ready(false),
            HealthStatus::Unhealthy => r matches PollDecision::Failed(m) && m@ == unhealthy_message(
                name@,
            ),
            HealthStatus::NotRunning => r matches PollDecision::Failed(m) && m@
                == not_running_message(name@),
            _ => if expired {
                r matches PollDecision::Failed(m) && m@ == health_timeout_message(
                    name@,
                    timeout_secs,
                )
            } else {
                r == PollDecision::Wait
            },
        },
{
    match status {
        HealthStatus::Healthy => PollDecision::Ready(true),
        HealthStatus::RunningNoHealthcheck => PollDecision::Ready(false),
        HealthStatus::Unhealthy => {
            let mut m: Vec<char> = Vec::new();
            push_str(&mut m, "容器 ");
            push_str(&mut m, name);
            push_str(&mut m, " 健康检查失败 (unhealthy)");
            PollDecision::Failed(string_of(&m))
        },
        HealthStatus::NotRunning => {
            let mut m: Vec<char> = Vec::new();
            push_str(&mut m, "容器 ");
            push_str(&mut m, name);
            push_str(&mut m, " 未在运行");
            PollDecision::Failed(string_of(&m))
        },
        _ => {
            if expired {
                let mut m: Vec<char> = Vec::new();
                push_str(&mut m, "等待容器 ");
                push_str(&mut m, name);
                push_str(&mut m, " 健康超时 (");
                let d = u64_decimal(timeout_secs);
                append(&mut m, &d);
                push_str(&mut m, "s)");
                PollDecision::Failed(string_of(&m))
            } else {
                PollDecision::Wait
            }
        },
    }
}

/// Seconds between two health polls: the configured interval, at least one.
pub fn poll_interval_secs(configured: u64) -> (r: u64)
    ensures
        r == if configured < 1 { 1 } else { configured },
{
    if configured < 1 {
        1
    } else {
        configured
    }
}


/// The next step of `local_image_digest` after `docker image inspect --format
/// {{index .RepoDigests 0}}`.
#[derive(Debug, Clone, PartialEq, Eq)]
pub enum LocalDigestStep {
    /// The answer: the digest, or `None` when the image is absent or has no digest.
    Answer(Option<String>),
    /// Ask for the image ID with `docker image inspect --format {{.Id}}`.
    InspectId,
}

/// The first inspection says the image does not exist.
pub open spec fn says_no_image(stderr: Seq<char>) -> bool {
    occurs_from(stderr, "No such object"@, 0) || occurs_from(stderr, "No such image"@, 0)
}

/// What the repo-digest inspection of a local image tells.
pub fn local_digest_step(code: i32, stdout: &str, stderr: &str) -> (r: LocalDigestStep)
    ensures
        if code == 0 {
            r matches LocalDigestStep::Answer(d) && opt_view(d) == spec_extract_digest(stdout@)
        } else if says_no_image(stderr@) {
            r matches LocalDigestStep::Answer(d) && d is None
        } else {
            r is InspectId
        },
{
    if code == 0 {
        return LocalDigestStep::Answer(extract_digest(stdout));
    }
    if contains_str(stderr, "No such object") || contains_str(stderr, "No such image") {
        return LocalDigestStep::Answer(None);
    }
    LocalDigestStep::InspectId
}

/// The local digest from the image-ID inspection: the digest in its output, else the whole
/// trimmed output; none when the inspection failed.
pub fn local_digest_from_id(code: i32, stdout: &str) -> (r: Option<String>)
    ensures
        opt_view(r) == if code != 0 {
            None
        } else {
            match spec_extract_digest(stdout@) {
                Some(d) => Some(d),
                None => Some(trim(stdout@, CharClass::Whitespace)),
            }
        },
{
    if code != 0 {
        return None;
    }
    match extract_digest(stdout) {
        Some(d) => Some(d),
        None => Some(string_of(&trim_class(&chars_of(stdout), CharClass::Whitespace))),
    }
}

/// The first line of `ls` that `wanted` accepts and that names a digest, that digest.
pub open spec fn first_line_digest(ls: Seq<Seq<char>>, ci: bool) -> Option<Seq<char>>
    decreases ls.len(),
{
    if ls.len() == 0 {
        None
    } else if line_wanted(ls[0], ci) && spec_extract_digest(ls[0]) is Some {
        spec_extract_digest(ls[0])
    } else {
        first_line_digest(ls.drop_first(), ci)
    }
}

/// A line of `docker buildx imagetools inspect` (`ci`) names a digest when it holds
/// `digest:` in any letter case; a line of `docker manifest inspect` when it holds `sha256:`.
pub open spec fn line_wanted(line: Seq<char>, ci: bool) -> bool {
    if ci {
        occurs_from(lower_seq(line), "digest:"@, 0)
    } else {
        occurs_from(line, "sha256:"@, 0)
    }
}

fn line_digest_scan(out: &str, ci: bool) -> (r: Option<String>)
    ensures
        opt_view(r) == first_line_digest(lines(out@), ci),
{
    let ls = split_lines(&chars_of(out));
    let pat = if ci { chars_of("digest:") } else { chars_of("sha256:") };
    let mut i: usize = 0;
    assert(views(ls@).skip(0) == views(ls@));
    while i < ls.len()
        invariant
            i <= ls.len(),
            pat@ == if ci { "digest:"@ } else { "sha256:"@ },
            first_line_digest(lines(out@), ci) == first_line_digest(views(ls@).skip(i as int), ci),
            views(ls@) == lines(out@),
        decreases ls.len() - i,
    {
        let line = &ls[i];
        let ghost rest = views(ls@).skip(i as int);
        assert(rest[0] == line@);
        assert(rest.drop_first() == views(ls@).skip(i + 1));
        let wanted = if ci {
            contains_seq(&to_ascii_lower(line), &pat)
        } else {
            contains_seq(line, &pat)
        };
        if wanted {
            match digest_in(line) {
                Some(d) => {
                    return Some(string_of(&d));
                },
                None => {},
            }
        }
        i = i + 1;
    }
    None
}

/// The digest listed by `docker buildx imagetools inspect`: from the first line holding
/// `digest:` (any letter case) that names one; none when the command failed.
pub fn digest_from_listing(code: i32, stdout: &str) -> (r: Option<String>)
    ensures
        opt_view(r) == if code == 0 {
            first_line_digest(lines(stdout@), true)
        } else {
            None
        },
{
    if code != 0 {
        return None;
    }
    line_digest_scan(stdout, true)
}

/// The remote digest from `docker buildx imagetools`, once `inspect --raw` succeeded with
/// `raw_stdout`: the digest line of the plain listing (when that succeeded), else a digest
/// in the raw manifest; none sends the search on to `docker manifest inspect`.
pub fn buildx_digest(raw_stdout: &str, listing_code: i32, listing_stdout: &str) -> (r: Option<String>)
    ensures
        opt_view(r) == match (if listing_code == 0 {
            first_line_digest(lines(listing_stdout@), true)
        } else {
            None
        }) {
            Some(d) => Some(d),
            None => spec_extract_digest(raw_stdout@),
        },
{
    match digest_from_listing(listing_code, listing_stdout) {
        Some(d) => Some(d),
        None => extract_digest(raw_stdout),
    }
}

pub open spec fn manifest_unavailable_message(stderr: Seq<char>) -> Seq<char> {
    "无法获取远端镜像 digest: "@ + brief(stderr, 300)
}

pub open spec fn manifest_unparsed_message(stdout: Seq<char>) -> Seq<char> {
    "无法从 manifest 输出解析 digest: "@ + brief(stdout, 300)
}

/// The remote digest from `docker manifest inspect`: the first `"digest": "sha256:..."`
/// value, else the digest of the first line holding `sha256:`.
pub fn manifest_digest(code: i32, stdout: &str, stderr: &str) -> (r: Result<String, String>)
    ensures
        code != 0 ==> (r matches Err(m) && m@ == manifest_unavailable_message(stderr@)),
        code == 0 ==> match json_digest_from(stdout@, 0) {
            Some(d) => r matches Ok(v) && v@ == d,
            None => match first_line_digest(lines(stdout@), false) {
                Some(d) => r matches Ok(v) && v@ == d,
                None => r matches Err(m) && m@ == manifest_unparsed_message(stdout@),
            },
        },
{
    if code != 0 {
        let mut m: Vec<char> = Vec::new();
        push_str(&mut m, "无法获取远端镜像 digest: ");
        append(&mut m, &brief_of(&chars_of(stderr), 300));
        return Err(string_of(&m));
    }
    if let Ok(v) = serde_json_lite_digest(stdout) {
        return Ok(v);
    }
    if let Some(d) = line_digest_scan(stdout, false) {
        return Ok(d);
    }
    let mut m: Vec<char> = Vec::new();
    push_str(&mut m, "无法从 manifest 输出解析 digest: ");
    append(&mut m, &brief_of(&chars_of(stdout), 300));
    Err(string_of(&m))
}

/// Standard output and standard error on two lines, as the error messages quote them.
/// What `manifest_digest` gives, as one value.
pub open spec fn manifest_result(code: i32, stdout: Seq<char>, stderr: Seq<char>) -> Result<
    Seq<char>,
    Seq<char>,
> {
    if code != 0 {
        Err(manifest_unavailable_message(stderr))
    } else {
        match json_digest_from(stdout, 0) {
            Some(d) => Ok(d),
            None => match first_line_digest(lines(stdout), false) {
                Some(d) => Ok(d),
                None => Err(manifest_unparsed_message(stdout)),
            },
        }
    }
}

/// What `buildx_digest` gives.
pub open spec fn buildx_result(raw_stdout: Seq<char>, listing_code: i32, listing_stdout: Seq<char>) -> Option<
    Seq<char>,
> {
    match (if listing_code == 0 {
        first_line_digest(lines(listing_stdout), true)
    } else {
        None
    }) {
        Some(d) => Some(d),
        None => spec_extract_digest(raw_stdout),
    }
}

pub open spec fn text_result(r: Result<String, String>) -> Result<Seq<char>, Seq<char>> {
    match r {
        Ok(v) => Ok(v@),
        Err(m) => Err(m@),
    }
}

/// The docker commands that the remote digest search may still run.
#[derive(Debug, Clone, Copy, PartialEq, Eq, Structural)]
pub enum DigestProbe {
    /// `docker buildx imagetools inspect IMAGE`, the plain listing.
    BuildxListing,
    /// `docker manifest inspect IMAGE`.
    Manifest,
}

/// The next step of the remote digest search.
#[derive(Debug, PartialEq, Eq)]
pub enum RemoteDigestStep {
    /// Run this command, then ask again with its output.
    Run(DigestProbe),
    /// The search is over: the digest, or why there is none.
    Answer(Result<String, String>),
}

/// After buildx gave no digest: run `manifest inspect`, or answer with its outcome.
pub open spec fn manifest_next(manifest: Option<(i32, String, String)>, r: RemoteDigestStep) -> bool {
    match manifest {
        None => r == RemoteDigestStep::Run(DigestProbe::Manifest),
        Some((c, o, e)) => r matches RemoteDigestStep::Answer(x) && text_result(x) == manifest_result(
            c,
            o@,
            e@,
        ),
    }
}

/// The remote digest search, from what is known so far: `buildx imagetools inspect --raw`
/// exited with `raw_code`; `listing` and `manifest` are the outputs of the plain listing and
/// of `manifest inspect` once they were run. Buildx comes first: when its raw inspection
/// succeeded, the listing is run and a digest it (or the raw output) names is the answer.
/// Only when buildx gives no digest is `manifest inspect` run, and its outcome is the answer.
pub fn remote_digest_step(
    raw_code: i32,
    raw_stdout: &str,
    listing: &Option<(i32, String)>,
    manifest: &Option<(i32, String, String)>,
) -> (r: RemoteDigestStep)
    ensures
        raw_code == 0 ==> match *listing {
            None => r == RemoteDigestStep::Run(DigestProbe::BuildxListing),
            Some((c, o)) => match buildx_result(raw_stdout@, c, o@) {
                Some(d) => r matches RemoteDigestStep::Answer(Ok(v)) && v@ == d,
                None => manifest_next(*manifest, r),
            },
        },
        raw_code != 0 ==> manifest_next(*manifest, r),
{
    if raw_code == 0 {
        match listing {
            None => {
                return RemoteDigestStep::Run(DigestProbe::BuildxListing);
            },
            Some((c, o)) => {
                if let Some(d) = buildx_digest(raw_stdout, *c, o.as_str()) {
                    return RemoteDigestStep::Answer(Ok(d));
                }
            },
        }
    }
    match manifest {
        None => RemoteDigestStep::Run(DigestProbe::Manifest),
        Some((c, o, e)) => RemoteDigestStep::Answer(manifest_digest(*c, o.as_str(), e.as_str())),
    }
}

pub open spec fn both_outputs(stdout: Seq<char>, stderr: Seq<char>) -> Seq<char> {
    stdout + "\n"@ + stderr
}

fn both_outputs_of(stdout: &str, stderr: &str) -> (r: Vec<char>)
    ensures
        r@ == both_outputs(stdout@, stderr@),
{
    let mut v = chars_of(stdout);
    push_str(&mut v, "\n");
    push_str(&mut v, stderr);
    v
}

pub open spec fn pull_failure_message(code: i32, stdout: Seq<char>, stderr: Seq<char>) -> Seq<
    char,
> {
    "docker pull 失败 (exit "@ + decimal_int(code as int) + "): "@ + brief(
        both_outputs(stdout, stderr),
        400,
    )
}

/// The outcome of `docker pull`.
pub fn pull_outcome(code: i32, stdout: &str, stderr: &str) -> (r: Result<(), String>)
    ensures
        code == 0 ==> r is Ok,
        code != 0 ==> (r matches Err(m) && m@ == pull_failure_message(code, stdout@, stderr@)),
{
    if code == 0 {
        return Ok(());
    }
    let mut m: Vec<char> = Vec::new();
    push_str(&mut m, "docker pull 失败 (exit ");
    append(&mut m, &i64_decimal(code as i64));
    push_str(&mut m, "): ");
    append(&mut m, &brief_of(&both_outputs_of(stdout, stderr), 400));
    Err(string_of(&m))
}

pub open spec fn tag_failure_message(src: Seq<char>, dst: Seq<char>, stderr: Seq<char>) -> Seq<
    char,
> {
    "docker tag "@ + src + " -> "@ + dst + " 失败: "@ + brief(stderr, 300)
}

/// The outcome of `docker tag src dst`.
pub fn tag_outcome(code: i32, src: &str, dst: &str, stderr: &str) -> (r: Result<(), String>)
    ensures
        code == 0 ==> r is Ok,
        code != 0 ==> (r matches Err(m) && m@ == tag_failure_message(src@, dst@, stderr@)),
{
    if code == 0 {
        return Ok(());
    }
    let mut m: Vec<char> = Vec::new();
    push_str(&mut m, "docker tag ");
    push_str(&mut m, src);
    push_str(&mut m, " -> ");
    push_str(&mut m, dst);
    push_str(&mut m, " 失败: ");
    append(&mut m, &brief_of(&chars_of(stderr), 300));
    Err(string_of(&m))
}

/// The message of a failed `docker <verb> <name>`: `start`, `stop` or `rm`.
pub open spec fn verb_failure_message(verb: Seq<char>, name: Seq<char>, stderr: Seq<char>) -> Seq<
    char,
> {
    "docker "@ + verb + " "@ + name + " 失败: "@ + brief(stderr, 300)
}

fn verb_failure(verb: &str, name: &str, stderr: &str) -> (r: String)
    ensures
        r@ == verb_failure_message(verb@, name@, stderr@),
{
    let mut m: Vec<char> = Vec::new();
    push_str(&mut m, "docker ");
    push_str(&mut m, verb);
    push_str(&mut m, " ");
    push_str(&mut m, name);
    push_str(&mut m, " 失败: ");
    append(&mut m, &brief_of(&chars_of(stderr), 300));
    string_of(&m)
}

/// The outcome of `docker start name`.
pub fn start_outcome(code: i32, name: &str, stderr: &str) -> (r: Result<(), String>)
    ensures
        code == 0 ==> r is Ok,
        code != 0 ==> (r matches Err(m) && m@ == verb_failure_message("start"@, name@, stderr@)),
{
    if code == 0 {
        Ok(())
    } else {
        Err(verb_failure("start", name, stderr))
    }
}

/// The outcome of `docker stop name`: a container that does not exist counts as stopped.
pub fn stop_outcome(code: i32, name: &str, stderr: &str) -> (r: Result<(), String>)
    ensures
        (code == 0 || occurs_from(stderr@, "No such container"@, 0)) ==> r is Ok,
        !(code == 0 || occurs_from(stderr@, "No such container"@, 0)) ==> (r matches Err(m) && m@
            == verb_failure_message("stop"@, name@, stderr@)),
{
    if code == 0 || contains_str(stderr, "No such container") {
        Ok(())
    } else {
        Err(verb_failure("stop", name, stderr))
    }
}

/// The outcome of `docker rm name` after a stop: a container that does not exist counts as
/// removed.
pub fn remove_outcome(code: i32, name: &str, stderr: &str) -> (r: Result<(), String>)
    ensures
        (code == 0 || occurs_from(stderr@, "No such container"@, 0)) ==> r is Ok,
        !(code == 0 || occurs_from(stderr@, "No such container"@, 0)) ==> (r matches Err(m) && m@
            == verb_failure_message("rm"@, name@, stderr@)),
{
    if code == 0 || contains_str(stderr, "No such container") {
        Ok(())
    } else {
        Err(verb_failure("rm", name, stderr))
    }
}

pub open spec fn image_id_failure_message(image: Seq<char>, stderr: Seq<char>) -> Seq<char> {
    "无法获取镜像 "@ + image + " 的 ID: "@ + brief(stderr, 300)
}

/// The image ID printed by `docker image inspect --format {{.Id}} image`, trimmed.
pub fn image_id_outcome(code: i32, image: &str, stdout: &str, stderr: &str) -> (r: Result<
    String,
    String,
>)
    ensures
        code == 0 ==> (r matches Ok(id) && id@ == trim(stdout@, CharClass::Whitespace)),
        code != 0 ==> (r matches Err(m) && m@ == image_id_failure_message(image@, stderr@)),
{
    if code == 0 {
        return Ok(string_of(&trim_class(&chars_of(stdout), CharClass::Whitespace)));
    }
    let mut m: Vec<char> = Vec::new();
    push_str(&mut m, "无法获取镜像 ");
    push_str(&mut m, image);
    push_str(&mut m, " 的 ID: ");
    append(&mut m, &brief_of(&chars_of(stderr), 300));
    Err(string_of(&m))
}

pub open spec fn run_failure_message(stdout: Seq<char>, stderr: Seq<char>) -> Seq<char> {
    "docker run 失败: "@ + brief(both_outputs(stdout, stderr), 400)
}

/// The outcome of `docker run -d`: the container ID it printed, trimmed.
pub fn run_outcome(code: i32, stdout: &str, stderr: &str) -> (r: Result<String, String>)
    ensures
        code == 0 ==> (r matches Ok(id) && id@ == trim(stdout@, CharClass::Whitespace)),
        code != 0 ==> (r matches Err(m) && m@ == run_failure_message(stdout@, stderr@)),
{
    if code == 0 {
        return Ok(string_of(&trim_class(&chars_of(stdout), CharClass::Whitespace)));
    }
    let mut m: Vec<char> = Vec::new();
    push_str(&mut m, "docker run 失败: ");
    append(&mut m, &brief_of(&both_outputs_of(stdout, stderr), 400));
    Err(string_of(&m))
}

pub open spec fn string_views(v: Seq<String>) -> Seq<Seq<char>> {
    v.map_values(|s: String| s@)
}

/// The arguments of `docker` that start a slot's container: detached, named after the slot,
/// publishing its host port on its container port, with the common arguments, then the image.
pub open spec fn run_arguments(slot: SlotConfig, common: Seq<Seq<char>>, image: Seq<char>) -> Seq<
    Seq<char>,
> {
    seq!["run"@, "-d"@, "--name"@, slot.name@, "-p"@,
        decimal(slot.host_port as nat) + ":"@ + decimal(slot.container_port as nat),
    ] + common + seq![image]
}

/// The `docker` arguments of `run_container`.
pub fn run_args(slot: &SlotConfig, common_args: &Vec<String>, image: &str) -> (r: Vec<String>)
    ensures
        string_views(r@) == run_arguments(*slot, string_views(common_args@), image@),
{
    let mut port_map = u64_decimal(slot.host_port as u64);
    push_str(&mut port_map, ":");
    append(&mut port_map, &u64_decimal(slot.container_port as u64));
    let mut r: Vec<String> = Vec::new();
    r.push(string_of(&chars_of("run")));
    r.push(string_of(&chars_of("-d")));
    r.push(string_of(&chars_of("--name")));
    r.push(slot.name.clone());
    r.push(string_of(&chars_of("-p")));
    r.push(string_of(&port_map));
    let ghost head = string_views(r@);
    assert(head =~= seq!["run"@, "-d"@, "--name"@, slot.name@, "-p"@, port_map@]);
    let mut i: usize = 0;
    while i < common_args.len()
        invariant
            i <= common_args.len(),
            string_views(r@) == head + string_views(common_args@).take(i as int),
        decreases common_args.len() - i,
    {
        let ghost old_r = r@;
        let a = common_args[i].clone();
        assert(a@ == common_args@[i as int]@);
        r.push(a);
        assert(string_views(r@) =~= string_views(old_r).push(a@));
        i = i + 1;
        assert(string_views(common_args@).take(i as int) == string_views(common_args@).take(
            i - 1,
        ).push(common_args@[i - 1]@));
    }
    assert(string_views(common_args@).take(common_args.len() as int) == string_views(
        common_args@,
    ));
    let ghost old_r = r@;
    let last = string_of(&chars_of(image));
    r.push(last);
    assert(string_views(r@) =~= string_views(old_r).push(image@));
    r
}

} // verus!
