//! The exchange's clock: reading its answer and writing the instant as UTC text.

use vstd::prelude::*;
use chrono::TimeZone;

verus! {

/// The text that chrono writes for the instant `ms` milliseconds after the Unix
/// epoch, in UTC, under the pattern `%Y-%m-%d %H:%M:%S`; `None` where chrono
/// has no such instant.
pub uninterp spec fn utc_millis_text(ms: int) -> Option<Seq<char>>;

/// The integer field `serverTime` of the JSON object in `body`, as serde_json
/// reads it; `None` when the body is not JSON or the field is not an `i64`.
pub uninterp spec fn json_server_time(body: Seq<u8>) -> Option<i64>;

/// Calls `chrono::Utc.timestamp_millis_opt(ms).single()`, then `format` with
/// `%Y-%m-%d %H:%M:%S` and `to_string`. Trusted: the result is the named text of
/// `ms`, and it is absent exactly when the named text is.
#[verifier::external_body]
fn format_utc_millis(ms: i64) -> (text: Option<String>)
    ensures
        text matches Some(t) ==> utc_millis_text(ms as int) == Some(t@),
        text is None <==> utc_millis_text(ms as int) is None,
{
    match chrono::Utc.timestamp_millis_opt(ms).single() {
        Some(date) => Some(date.format("%Y-%m-%d %H:%M:%S").to_string()),
        None => None,
    }
}

/// Calls `serde_json::from_slice::<serde_json::Value>` on the body, then reads
/// `["serverTime"].as_i64()`. Trusted: the result is the named field of the body.
#[verifier::external_body]
fn read_server_time(body: &[u8]) -> (ms: Option<i64>)
    ensures
        ms == json_server_time(body@),
{
    match serde_json::from_slice::<serde_json::Value>(body) {
        Ok(value) => value["serverTime"].as_i64(),
        Err(_) => None,
    }
}

/// The exchange's time, `server_ms` milliseconds after the epoch, as UTC text
/// `YYYY-MM-DD HH:MM:SS`; `None` when the instant is out of chrono's range.
pub fn server_time_text(server_ms: i64) -> (text: Option<String>)
    ensures
        text matches Some(t) ==> utc_millis_text(server_ms as int) == Some(t@),
        text is None <==> utc_millis_text(server_ms as int) is None,
{
    format_utc_millis(server_ms)
}

/// The server time carried by a response body of the time endpoint, as UTC
/// text; `None` when the body holds no integer `serverTime` or the instant is
/// out of range.
pub fn server_time_from_body(body: &[u8]) -> (text: Option<String>)
    ensures
        json_server_time(body@) is None ==> text is None,
        json_server_time(body@) matches Some(ms) ==> {
            &&& text matches Some(t) ==> utc_millis_text(ms as int) == Some(t@)
            &&& text is None <==> utc_millis_text(ms as int) is None
        },
{
    match read_server_time(body) {
        Some(ms) => server_time_text(ms),
        None => None,
    }
}

} // verus!
