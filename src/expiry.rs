//! How long a new token lives: a lifetime given outright, the time left until
//! an instant given as text, or a configured default.
use vstd::prelude::*;

use crate::text::concat3;

verus! {

/// The Unix seconds of the instant that `s` gives under the chrono format
/// `fmt`, which names an offset; `None` if `s` does not match the format.
pub uninterp spec fn offset_datetime_seconds(s: Seq<char>, fmt: Seq<char>) -> Option<i64>;

/// The Unix seconds of the instant that `s` gives under the chrono format
/// `fmt`, read as UTC; `None` if `s` does not match the format.
pub uninterp spec fn naive_datetime_seconds(s: Seq<char>, fmt: Seq<char>) -> Option<i64>;

/// The Unix seconds of midnight UTC on the date that `s` gives under the
/// chrono format `fmt`; `None` if `s` does not match the format.
pub uninterp spec fn naive_date_seconds(s: Seq<char>, fmt: Seq<char>) -> Option<i64>;

/// Relies on chrono's `DateTime::parse_from_str`, read as Unix seconds.
#[verifier::external_body]
fn parse_offset_datetime(s: &str, fmt: &str) -> (r: Option<i64>)
    ensures
        r == offset_datetime_seconds(s@, fmt@),
{
    chrono::DateTime::parse_from_str(s, fmt).ok().map(|t| t.timestamp())
}

/// Relies on chrono's `NaiveDateTime::parse_from_str`, read as Unix seconds in UTC.
#[verifier::external_body]
fn parse_naive_datetime(s: &str, fmt: &str) -> (r: Option<i64>)
    ensures
        r == naive_datetime_seconds(s@, fmt@),
{
    chrono::NaiveDateTime::parse_from_str(s, fmt).ok().map(|t| t.and_utc().timestamp())
}

/// Relies on chrono's `NaiveDate::parse_from_str`, taken at midnight UTC and
/// read as Unix seconds.
#[verifier::external_body]
fn parse_naive_date(s: &str, fmt: &str) -> (r: Option<i64>)
    ensures
        r == naive_date_seconds(s@, fmt@),
{
    let date = chrono::NaiveDate::parse_from_str(s, fmt).ok()?;
    date.and_hms_opt(0, 0, 0).map(|t| t.and_utc().timestamp())
}

/// Relies on chrono's `Utc::now`: the current time as whole Unix seconds and
/// the nanoseconds past them.
#[verifier::external_body]
fn now_parts() -> (i64, u32) {
    let now = chrono::Utc::now();
    (now.timestamp(), now.timestamp_subsec_nanos())
}

/// The whole seconds from the instant `now_secs` seconds and `now_nanos`
/// nanoseconds after the epoch until the instant `t` (Unix seconds), rounded
/// toward zero, as chrono's `num_seconds` counts a duration.
pub open spec fn whole_seconds_until(t: int, now_secs: int, now_nanos: int) -> int {
    if now_nanos > 0 && t - now_secs > 0 {
        t - now_secs - 1
    } else {
        t - now_secs
    }
}

/// The instant that an expiry text names, in Unix seconds. The forms tried, in
/// order: `YYYY-MM-DD hh:mm:ss` with an offset, `YYYY-MM-DD hh:mm:ss` and
/// `YYYY-MM-DD hh:mm` in UTC, and `YYYY-MM-DD` at midnight UTC.
pub open spec fn instant_of(s: Seq<char>) -> Option<i64> {
    match offset_datetime_seconds(s, "%Y-%m-%d %H:%M:%S %z"@) {
        Some(t) => Some(t),
        None => match naive_datetime_seconds(s, "%Y-%m-%d %H:%M:%S"@) {
            Some(t) => Some(t),
            None => match naive_datetime_seconds(s, "%Y-%m-%d %H:%M"@) {
                Some(t) => Some(t),
                None => naive_date_seconds(s, "%Y-%m-%d"@),
            },
        },
    }
}

pub open spec fn unparsable_expiry_message(s: Seq<char>) -> Seq<char> {
    "Couldnt parse expires_at parameter: "@ + s
}

pub open spec fn instant_out_of_range_message(s: Seq<char>) -> Seq<char> {
    "Couldnt parse expires_at parameter: "@ + s + " is out of range"@
}

pub open spec fn no_expiry_message() -> Seq<char> {
    "Expiration date was not provided and config has no default"@
}

/// The instant that an expiry text names (see [`instant_of`]).
pub fn instant_of_text(s: &str) -> (r: Option<i64>)
    ensures
        r == instant_of(s@),
{
    if let Some(t) = parse_offset_datetime(s, "%Y-%m-%d %H:%M:%S %z") {
        return Some(t);
    }
    if let Some(t) = parse_naive_datetime(s, "%Y-%m-%d %H:%M:%S") {
        return Some(t);
    }
    if let Some(t) = parse_naive_datetime(s, "%Y-%m-%d %H:%M") {
        return Some(t);
    }
    parse_naive_date(s, "%Y-%m-%d")
}

/// What [`extract_expiry_at`] gives at the instant `now_secs` seconds and
/// `now_nanos` nanoseconds after the epoch.
pub open spec fn expiry_outcome(
    expires_in: Option<i64>,
    expires_at: Option<String>,
    default_expires_in: Option<i64>,
    now_secs: int,
    now_nanos: int,
    r: Result<i64, String>,
) -> bool {
    match (expires_in, expires_at) {
        (Some(t), _) => r matches Ok(v) && v == t,
        (None, Some(ts)) => match instant_of(ts@) {
            None => r matches Err(e) && e@ == unparsable_expiry_message(ts@),
            Some(t) => {
                let d = whole_seconds_until(t as int, now_secs, now_nanos);
                if i64::MIN <= d <= i64::MAX {
                    r matches Ok(v) && v == d
                } else {
                    r matches Err(e) && e@ == instant_out_of_range_message(ts@)
                }
            },
        },
        (None, None) => match default_expires_in {
            Some(t) => r matches Ok(v) && v == t,
            None => r matches Err(e) && e@ == no_expiry_message(),
        },
    }
}

/// The lifetime of a new token in seconds, at the instant `now_secs` seconds
/// and `now_nanos` nanoseconds after the epoch: `expires_in` if given; else
/// the whole seconds left until the instant `expires_at` names; else the
/// default.
pub fn extract_expiry_at(
    expires_in: &Option<i64>,
    expires_at: &Option<String>,
    default_expires_in: Option<i64>,
    now_secs: i64,
    now_nanos: u32,
) -> (r: Result<i64, String>)
    ensures
        expiry_outcome(
            *expires_in,
            *expires_at,
            default_expires_in,
            now_secs as int,
            now_nanos as int,
            r,
        ),
{
    if let Some(t) = expires_in {
        return Ok(*t);
    }
    if let Some(ts) = expires_at {
        proof {
            reveal_strlit("");
            assert(unparsable_expiry_message(ts@) =~= "Couldnt parse expires_at parameter: "@ + ts@ + ""@);
        }
        return match instant_of_text(ts.as_str()) {
            None => Err(concat3("Couldnt parse expires_at parameter: ", ts.as_str(), "")),
            Some(t) => {
                let mut d: i128 = t as i128 - now_secs as i128;
                if now_nanos > 0 && d > 0 {
                    d = d - 1;
                }
                if i64::MIN as i128 <= d && d <= i64::MAX as i128 {
                    Ok(d as i64)
                } else {
                    Err(concat3("Couldnt parse expires_at parameter: ", ts.as_str(), " is out of range"))
                }
            },
        };
    }
    if let Some(t) = default_expires_in {
        return Ok(t);
    }
    Err(String::from_str("Expiration date was not provided and config has no default"))
}

/// The lifetime of a new token in seconds, at the current time (see
/// [`extract_expiry_at`]).
pub fn extract_expiry(
    expires_in: &Option<i64>,
    expires_at: &Option<String>,
    default_expires_in: Option<i64>,
) -> (r: Result<i64, String>)
    ensures
        exists|now_secs: i64, now_nanos: u32|
            #[trigger] expiry_outcome(
                *expires_in,
                *expires_at,
                default_expires_in,
                now_secs as int,
                now_nanos as int,
                r,
            ),
{
    let (now_secs, now_nanos) = now_parts();
    extract_expiry_at(expires_in, expires_at, default_expires_in, now_secs, now_nanos)
}

} // verus!
