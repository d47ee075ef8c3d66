//! Timestamp handling: parsing the wire format `YYYY-MM-DD HH:MM:SS +-HHMM`
//! into an absolute instant normalized to the reference timezone, reading
//! the clock, and rendering an instant for display.
//!
//! An instant is carried as whole seconds since the Unix epoch; the
//! normalization to the reference timezone happens while parsing, so every
//! stored instant is in the same frame.

use vstd::prelude::*;

verus! {

/// The instant, in seconds since the Unix epoch, that the timestamp wire
/// format denotes for a given string, or `None` when the string does not
/// follow the format; it depends on the string alone.
pub uninterp spec fn parsed_instant(s: Seq<char>) -> Option<i64>;

/// Relies on chrono's `DateTime::parse_from_str` with the fixed layout
/// `%Y-%m-%d %H:%M:%S %z`, which accepts exactly the strings in the wire
/// format and returns the instant they denote, and on chrono-tz's Jakarta
/// timezone for normalization; which strings parse, and to which instant,
/// depends on the string alone. On failure the parser's own message is
/// handed back.
#[verifier::external_body]
pub(crate) fn parse_timestamp(s: &str) -> (r: Result<i64, String>)
    ensures
        r is Ok <==> parsed_instant(s@) is Some,
        r matches Ok(v) ==> parsed_instant(s@) == Some(v),
{
    match chrono::DateTime::parse_from_str(s, "%Y-%m-%d %H:%M:%S %z") {
        Ok(dt) => Ok(dt.with_timezone(&chrono_tz::Asia::Jakarta).timestamp()),
        Err(e) => Err(e.to_string()),
    }
}

/// Relies on chrono's `Utc::now` for the current instant. The value depends
/// on the clock, so nothing is promised of it.
#[verifier::external_body]
pub(crate) fn now_epoch() -> i64 {
    chrono::Utc::now().timestamp()
}

/// Relies on chrono's `DateTime::from_timestamp` and the `Local` timezone's
/// rendering. The result depends on the machine's timezone, so nothing is
/// promised of it; it is display-only and never parsed back.
#[verifier::external_body]
pub(crate) fn format_local(epoch: i64) -> String {
    match chrono::DateTime::from_timestamp(epoch, 0) {
        Some(dt) => dt.with_timezone(&chrono::Local).to_string(),
        None => String::new(),
    }
}

} // verus!
