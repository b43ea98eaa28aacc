//! The requests to the feedback back end: their addresses, whether a status change is
//! needed, and when the access token is renewed.

use vstd::prelude::*;
use crate::data_client::entities::{code_of_status, ordinal_of_status, FeedbackStatus};
use crate::text::{append, chars_of, decimal, decimal_int, i64_decimal, push_str, string_of, u64_decimal};

verus! {

/// The code by which a list query names a status: 0 unconfirmed, 1 confirmed, 3 resolved,
/// the back end's own codes.
pub open spec fn status_query_code(status: FeedbackStatus) -> int {
    match status {
        FeedbackStatus::Unconfirmed => 0,
        FeedbackStatus::Confirmed => 1,
        FeedbackStatus::Resolved => 3,
    }
}

/// `{base}/feedback?status={code}&page={page}&pageSize={page_size}`, with the status by its
/// back-end code.
pub open spec fn list_url(base: Seq<char>, status: FeedbackStatus, page: u32, page_size: u32) -> Seq<char> {
    base + "/feedback?status="@ + decimal_int(status_query_code(status)) + "&page="@
        + decimal(page as nat) + "&pageSize="@ + decimal(page_size as nat)
}

/// The address of a page of feedback with a status.
pub fn feedback_list_url(base: &str, status: FeedbackStatus, page: u32, page_size: u32) -> (r: String)
    ensures
        r@ == list_url(base@, status, page, page_size),
{
    let mut m = chars_of(base);
    push_str(&mut m, "/feedback?status=");
    let code = status.code();
    assert(code as int == status_query_code(status) && code == code_of_status(status));
    append(&mut m, &i64_decimal(code as i64));
    push_str(&mut m, "&page=");
    append(&mut m, &u64_decimal(page as u64));
    push_str(&mut m, "&pageSize=");
    append(&mut m, &u64_decimal(page_size as u64));
    string_of(&m)
}

/// The address that counts the feedback with a status: page 1 of size 0.
pub fn feedback_count_url(base: &str, status: FeedbackStatus) -> (r: String)
    ensures
        r@ == list_url(base@, status, 1, 0),
{
    feedback_list_url(base, status, 1, 0)
}

/// `{base}/feedback/{id}`: a feedback item.
pub open spec fn item_url(base: Seq<char>, id: u32) -> Seq<char> {
    base + "/feedback/"@ + decimal(id as nat)
}

/// The address of a feedback item.
pub fn feedback_url(base: &str, id: u32) -> (r: String)
    ensures
        r@ == item_url(base@, id),
{
    let mut m = chars_of(base);
    push_str(&mut m, "/feedback/");
    append(&mut m, &u64_decimal(id as u64));
    string_of(&m)
}

/// The address of the messages of a feedback item.
pub fn feedback_msg_url(base: &str, id: u32) -> (r: String)
    ensures
        r@ == item_url(base@, id) + "/msg"@,
{
    let mut m = chars_of(base);
    push_str(&mut m, "/feedback/");
    append(&mut m, &u64_decimal(id as u64));
    push_str(&mut m, "/msg");
    string_of(&m)
}

/// Whether setting status `target` on an item with status `current` sends a request: only
/// when their positions among the variants differ.
pub fn status_update_needed(current: FeedbackStatus, target: FeedbackStatus) -> (r: bool)
    ensures
        r == (ordinal_of_status(current) != ordinal_of_status(target)),
{
    current.ordinal() != target.ordinal()
}

/// Seconds that a fresh access token stays valid: eight hours.
pub open spec fn token_lifetime() -> u64 {
    28800
}

/// The expiry written into a token made at `now` (seconds since the epoch).
pub fn token_expiry(now: u64) -> (r: u64)
    requires
        now + token_lifetime() <= u64::MAX,
    ensures
        r == now + token_lifetime(),
{
    now + 28800
}

/// The claims of an access token: the account it is made for and its expiry in seconds
/// since the epoch.
pub struct TokenClaims {
    pub id: u32,
    pub exp: u64,
}

/// The claims of a token made for account `uid` at `now`: it expires eight hours later.
pub fn token_claims(uid: u32, now: u64) -> (r: TokenClaims)
    requires
        now + token_lifetime() <= u64::MAX,
    ensures
        r.id == uid,
        r.exp == now + token_lifetime(),
{
    TokenClaims { id: uid, exp: token_expiry(now) }
}

/// Whether a cached token is still used at `now`: it decoded with an expiry more than an hour
/// ahead; otherwise a new one is made.
pub fn token_fresh(expiry: Option<u64>, now: u64) -> (r: bool)
    ensures
        r == (expiry matches Some(e) && e > now + 3600),
{
    match expiry {
        Some(e) => e > 3600 && e - 3600 > now,
        None => false,
    }
}

} // verus!
