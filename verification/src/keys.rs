//! The object keys of a scan: where submissions live and from which key
//! on a listing is asked for.
//!
//! Submissions are stored under `<prefix>/submissions/<date>/<time>/...`
//! with the date as `YYYY-MM-DD` and the time in RFC 3339 at second
//! precision, in UTC, ending in `Z`. Keys written that way sort by time,
//! so a listing that starts at the key of an instant returns what was
//! written since.

use chrono::{DateTime, SecondsFormat};
use object_store::path::Path;
use vstd::prelude::*;
use vstd::string::StringExecFns;

verus! {

/// How far back a scan looks, in seconds: twenty minutes.
pub const LOOKBACK_SECONDS: i64 = 1200;

/// Whether chrono can represent the instant `secs` seconds after the Unix
/// epoch: whether `DateTime::from_timestamp(secs, 0)` is `Some`.
pub uninterp spec fn utc_representable(secs: int) -> bool;

/// The text that chrono's `DateTime::<Utc>::to_rfc3339_opts` gives, with
/// `SecondsFormat::Secs` and `use_z`, for the instant `secs` seconds after
/// the Unix epoch.
pub uninterp spec fn utc_rfc3339_text(secs: int) -> Seq<char>;

/// The text that chrono's `DateTime::<Utc>::format` gives, with the
/// format `%Y-%m-%d`, for the instant `secs` seconds after the Unix epoch.
pub uninterp spec fn utc_date_text(secs: int) -> Seq<char>;

/// The text of the path that object_store's `Path::from` makes of a key:
/// the key's non-empty segments, each percent-encoded, joined by `/`.
pub uninterp spec fn store_path_text(key: Seq<char>) -> Seq<char>;

/// Calls chrono's `DateTime::<Utc>::to_rfc3339_opts(SecondsFormat::Secs,
/// true)` on the instant that `DateTime::from_timestamp(secs, 0)` makes.
/// The contract claims that the result is `None` exactly where chrono
/// cannot represent the instant, and otherwise the text that chrono
/// gives, which depends on `secs` alone.
#[verifier::external_body]
fn rfc3339_seconds(secs: i64) -> (text: Option<String>)
    ensures
        text is Some <==> utc_representable(secs as int),
        text matches Some(t) ==> t@ == utc_rfc3339_text(secs as int),
{
    match DateTime::from_timestamp(secs, 0) {
        Some(t) => Some(t.to_rfc3339_opts(SecondsFormat::Secs, true)),
        None => None,
    }
}

/// Calls chrono's `DateTime::<Utc>::format("%Y-%m-%d")` on the instant
/// that `DateTime::from_timestamp(secs, 0)` makes, and writes the result
/// out. The contract claims that the result is `None` exactly where
/// chrono cannot represent the instant, and otherwise the text that
/// chrono gives, which depends on `secs` alone.
#[verifier::external_body]
fn calendar_date(secs: i64) -> (text: Option<String>)
    ensures
        text is Some <==> utc_representable(secs as int),
        text matches Some(t) ==> t@ == utc_date_text(secs as int),
{
    match DateTime::from_timestamp(secs, 0) {
        Some(t) => Some(t.format("%Y-%m-%d").to_string()),
        None => None,
    }
}

/// Calls object_store's `Path::from` on the key and hands back the text
/// of the path. The contract claims only that this text depends on the
/// key alone.
#[verifier::external_body]
fn store_path(key: &str) -> (text: String)
    ensures
        text@ == store_path_text(key@),
{
    String::from(Path::from(key))
}

/// The key under `prefix_str` that belongs to the instant `t`:
/// `<prefix_str>/<date of t>/<t in RFC 3339>`.
pub open spec fn offset_key(prefix_str: Seq<char>, t: int) -> Seq<char> {
    prefix_str + "/"@ + utc_date_text(t) + "/"@ + utc_rfc3339_text(t)
}

/// The key under which the submissions of `prefix` live:
/// `<prefix>/submissions`.
pub open spec fn submissions_key(prefix: Seq<char>) -> Seq<char> {
    prefix + "/submissions"@
}

/// The instant from which a scan that starts at `now` looks for
/// submissions.
pub open spec fn cutoff(now: int) -> int {
    now - LOOKBACK_SECONDS
}

/// Whether a scan that starts at `now` has a cutoff that can be written
/// as a key.
pub open spec fn cutoff_representable(now: i64) -> bool {
    i64::MIN <= cutoff(now as int) && utc_representable(cutoff(now as int))
}

/// The key of the instant `t` (seconds after the Unix epoch) under
/// `prefix_str`; `None` where `t` is outside the representable
/// instants.
pub fn offset_by_time(prefix_str: String, t: i64) -> (key: Option<String>)
    ensures
        key is Some <==> utc_representable(t as int),
        key matches Some(k) ==> k@ == offset_key(prefix_str@, t as int),
{
    let date = calendar_date(t);
    let time = rfc3339_seconds(t);
    match (date, time) {
        (Some(d), Some(s)) => {
            let mut key = prefix_str;
            key.append("/");
            key.append(d.as_str());
            key.append("/");
            key.append(s.as_str());
            Some(key)
        },
        _ => None,
    }
}

/// What a scan asks the object store to list: every key under `prefix`
/// that sorts at or after `offset`. Both are path texts as the store
/// takes them.
#[derive(Debug, Clone)]
pub struct ListingRequest {
    pub prefix: String,
    pub offset: String,
}

/// The listing of a scan that starts at `now` (seconds after the Unix
/// epoch) over the store prefix `prefix`: everything under
/// `<prefix>/submissions` from the key of twenty minutes before `now`.
/// `None` where that instant cannot be written as a key.
pub fn listing_request(prefix: &str, now: i64) -> (request: Option<ListingRequest>)
    ensures
        request is Some <==> cutoff_representable(now),
        request matches Some(r) ==> {
            &&& r.prefix@ == store_path_text(submissions_key(prefix@))
            &&& r.offset@ == store_path_text(
                offset_key(submissions_key(prefix@), cutoff(now as int)),
            )
        },
{
    let before = match now.checked_sub(LOOKBACK_SECONDS) {
        Some(t) => t,
        None => {
            return None;
        },
    };
    let mut prefix_str = prefix.to_owned();
    prefix_str.append("/submissions");
    let listed = store_path(prefix_str.as_str());
    match offset_by_time(prefix_str, before) {
        Some(key) => Some(ListingRequest { prefix: listed, offset: store_path(key.as_str()) }),
        None => None,
    }
}

/// The key from which a scan that starts at `now` over `prefix` lists is
/// `<prefix>/submissions/<date>/<time>`, with the date and the time of
/// the instant twenty minutes before `now`, the time in RFC 3339 at
/// second precision, in UTC.
pub proof fn lemma_listing_offset_key(prefix: Seq<char>, now: int)
    ensures
        offset_key(submissions_key(prefix), cutoff(now)) == prefix + "/submissions"@ + "/"@
            + utc_date_text(now - 20 * 60) + "/"@ + utc_rfc3339_text(now - 20 * 60),
{
}

} // verus!
