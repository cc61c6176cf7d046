//! The system clock and the id generator, the nondeterministic inputs of the
//! application.

use vstd::prelude::*;
use crate::model::{Date, Timestamp, DATE_MIN_DAYS, DATE_MAX_DAYS};
use chrono::Datelike;

verus! {

/// The version nibble of a UUID held as its big-endian 128-bit value is 7.
pub open spec fn is_uuid_v7(id: u128) -> bool {
    (id >> 76u128) & 0xfu128 == 7
}

/// Reads `chrono::Utc::now()` and returns it as seconds and nanoseconds since
/// the Unix epoch (`timestamp`, `timestamp_subsec_nanos`). The contract claims
/// that the pair is one that `DateTime::from_timestamp` accepts, which chrono
/// documents as a round trip for every `DateTime<Utc>`, and, as chrono's
/// `Utc::now` builds it from `SystemTime::now().duration_since(UNIX_EPOCH)`,
/// that it is not before the epoch and carries no leap second. Which instant
/// is read is the clock's: nothing more is claimed of it. Like `Utc::now`,
/// it panics when the system clock reads a time before the Unix epoch, a
/// state of the machine that no `requires` can rule out.
#[verifier::external_body]
pub(crate) fn utc_now() -> (r: Timestamp)
    ensures
        r.valid(),
        r.secs >= 0,
        r.nanos < 1_000_000_000,
{
    let now = chrono::Utc::now();
    Timestamp { secs: now.timestamp(), nanos: now.timestamp_subsec_nanos() }
}

/// Reads today's date in the local time zone, `chrono::Local::now().date_naive()`,
/// as its day number from the common era (`Datelike::num_days_from_ce`). The
/// contract claims only that the result is the day number of a representable
/// date, as every `NaiveDate` is. `Local::now` reads `Utc::now`, so it too
/// panics when the system clock reads a time before the Unix epoch.
#[verifier::external_body]
fn local_today_days() -> (r: i32)
    ensures
        DATE_MIN_DAYS <= r <= DATE_MAX_DAYS,
{
    chrono::Local::now().date_naive().num_days_from_ce()
}

/// Today's date in the local time zone.
pub fn local_today() -> (r: Date)
    ensures
        r.valid(),
{
    Date::of_days(local_today_days())
}

/// Generates an id with `uuid::Uuid::now_v7()` and returns its 128-bit value
/// (`as_u128`). The contract claims only that it is a version 7 UUID, as the
/// uuid documentation states. uuid reads the system clock and panics when it
/// reads a time before the Unix epoch, a state of the machine that no
/// `requires` can rule out.
#[verifier::external_body]
pub(crate) fn new_uuid_v7() -> (r: u128)
    ensures
        is_uuid_v7(r),
{
    uuid::Uuid::now_v7().as_u128()
}

} // verus!
