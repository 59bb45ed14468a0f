//! Timestamps at the wire boundary. The protocol exchanges instants as
//! RFC 3339 text, normalized to UTC; inside the engine they are plain
//! milliseconds since the Unix epoch. chrono does the rendering and the
//! parsing; the engine validates and converts around it.

use vstd::prelude::*;

use crate::model::{SyncError, TS_MAX_MS, TS_MIN_MS, ts_in_range};

verus! {

/// The RFC 3339 text chrono renders for the UTC instant `ms` milliseconds
/// after the Unix epoch; a function of `ms` alone.
pub uninterp spec fn rfc3339_of(ms: i64) -> Seq<char>;

/// What chrono's RFC 3339 parser makes of the text `s`: the parsed instant
/// normalized to UTC, in milliseconds since the Unix epoch, or nothing when
/// the text does not parse; a function of `s` alone.
pub uninterp spec fn parsed_ms_of(s: Seq<char>) -> Option<i64>;

/// Relies on chrono's `DateTime::<Utc>::from_timestamp_millis`, which per its
/// documentation fails only on an out-of-range number of milliseconds (the
/// supported range spans roughly 262,000 years either side of the common
/// era, well beyond `ts_in_range`), and on `DateTime::to_rfc3339`, whose
/// output depends on the instant alone.
#[verifier::external_body]
fn rfc3339_render(ms: i64) -> (r: Option<String>)
    ensures
        r matches Some(t) ==> t@ == rfc3339_of(ms),
        ts_in_range(ms) ==> r is Some,
{
    match chrono::DateTime::<chrono::Utc>::from_timestamp_millis(ms) {
        Some(dt) => Some(dt.to_rfc3339()),
        None => None,
    }
}

/// Relies on chrono's `DateTime::parse_from_rfc3339`, whose outcome depends
/// on the text alone, and on `DateTime::with_timezone` plus
/// `DateTime::timestamp_millis`, which together turn the parsed instant into
/// UTC milliseconds.
#[verifier::external_body]
fn rfc3339_scan(s: &str) -> (r: Option<i64>)
    ensures
        r == parsed_ms_of(s@),
{
    match chrono::DateTime::parse_from_rfc3339(s) {
        Ok(dt) => Some(dt.with_timezone(&chrono::Utc).timestamp_millis()),
        Err(_) => None,
    }
}

/// Renders the cursor for the outgoing request. An unset cursor (first-ever
/// sync) stays absent on the wire.
pub fn cursor_wire_text(cursor: Option<i64>) -> (r: Option<String>)
    requires
        cursor matches Some(ms) ==> ts_in_range(ms),
    ensures
        r is Some <==> cursor is Some,
        r matches Some(t) ==> cursor matches Some(ms) && t@ == rfc3339_of(ms),
{
    match cursor {
        None => None,
        Some(ms) => match rfc3339_render(ms) {
            Some(t) => Some(t),
            None => vstd::pervasive::unreached(),
        },
    }
}

/// Reads the server-current timestamp from the wire. Text that does not
/// parse as RFC 3339, or an instant outside the range the engine accepts, is
/// a malformed payload and therefore a communication failure.
pub fn parse_server_timestamp(s: &str) -> (r: Result<i64, SyncError>)
    ensures
        r is Ok <==> (parsed_ms_of(s@) matches Some(ms) && ts_in_range(ms)),
        r matches Ok(ms) ==> parsed_ms_of(s@) == Some(ms),
        r matches Err(e) ==> e == SyncError::Communication,
{
    match rfc3339_scan(s) {
        Some(ms) => {
            if TS_MIN_MS <= ms && ms <= TS_MAX_MS {
                Ok(ms)
            } else {
                Err(SyncError::Communication)
            }
        },
        None => Err(SyncError::Communication),
    }
}

} // verus!
