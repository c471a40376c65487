//! Temporal values: epoch seconds, their normalization into the store's
//! range, and the day filter of the query surface.
//!
//! The node reports block timestamps as whole seconds since the epoch. The
//! store's temporal type holds only instants within the calendar range of
//! the date library; a block timestamp outside that range is dropped (the
//! record keeps no stamp), exactly as the source pipeline behaves.

use vstd::prelude::*;

verus! {

/// The smallest epoch-seconds value the date library can represent
/// (midnight of its earliest calendar day).
pub const MIN_EPOCH_SECONDS: i64 = -8334601228800;

/// The largest epoch-seconds value the date library can represent
/// (the last second of its latest calendar day).
pub const MAX_EPOCH_SECONDS: i64 = 8210266876799;

/// Whether a block timestamp fits the store's temporal type.
pub open spec fn representable_seconds(secs: i64) -> bool {
    MIN_EPOCH_SECONDS <= secs <= MAX_EPOCH_SECONDS
}

/// The stamp a record receives from its block: the block's timestamp when
/// present and representable, nothing otherwise.
pub open spec fn normalized_time(block_time: Option<i64>) -> Option<i64> {
    match block_time {
        Some(secs) => if representable_seconds(secs) {
            Some(secs)
        } else {
            None
        },
        None => None,
    }
}

/// Relies on `chrono::DateTime::<Utc>::from_timestamp` (with zero
/// nanoseconds): it returns `Some` exactly when the seconds value lies
/// between the timestamps of the library's first and last representable
/// instants, the bounds stated by `representable_seconds`.
#[verifier::external_body]
fn seconds_to_instant(secs: i64) -> (r: Option<i64>)
    ensures
        r == (if representable_seconds(secs) {
            Some(secs)
        } else {
            None::<i64>
        }),
{
    chrono::DateTime::<chrono::Utc>::from_timestamp(secs, 0).map(|_| secs)
}

/// Normalizes a block's reported timestamp into the store's temporal range:
/// the timestamp itself when the store can hold it, nothing otherwise or
/// when the block carries none.
pub fn normalize_block_time(block_time: Option<i64>) -> (r: Option<i64>)
    ensures
        r == normalized_time(block_time),
{
    match block_time {
        Some(secs) => seconds_to_instant(secs),
        None => None,
    }
}

/// The epoch seconds of the UTC midnight that opens the day a query names
/// in day/month/year form, when the text is a valid date; what the date
/// library's parser accepts and returns, a function of the text alone.
pub uninterp spec fn day_start_of(day: Seq<char>) -> Option<i64>;

/// Relies on `chrono::NaiveDate::parse_from_str` with the `%d/%m/%Y`
/// format, `NaiveDate::and_hms_opt(0, 0, 0)` (midnight always exists),
/// `NaiveDateTime::and_utc` and `DateTime::timestamp`: together they give
/// the epoch seconds of the named day's UTC midnight, depending on the text
/// alone; any such midnight lies within the representable range.
#[verifier::external_body]
pub(crate) fn parse_query_day(day: &str) -> (r: Option<i64>)
    ensures
        r == day_start_of(day@),
        r matches Some(secs) ==> representable_seconds(secs),
{
    let date = chrono::NaiveDate::parse_from_str(day, "%d/%m/%Y").ok()?;
    let midnight = date.and_hms_opt(0, 0, 0)?;
    Some(midnight.and_utc().timestamp())
}

} // verus!
