//! The system clock.

use crate::resource::MicroTime;
use vstd::prelude::*;

verus! {

/// Reads the system clock with `std::time::SystemTime::now` and converts the
/// reading with chrono's `From<SystemTime> for DateTime<Utc>`. The result is
/// handed out as the seconds and nanoseconds that `DateTime::timestamp` and
/// `DateTime::timestamp_subsec_nanos` give.
///
/// Trusted, not proved: the nanosecond part is below two thousand million,
/// the range in which chrono keeps it. Nothing is claimed about which
/// instant comes back.
///
/// The conversion takes a reading before 1970 as well as one after it, and
/// consults neither the time zone nor any file. It panics only on a reading
/// outside the years that chrono can hold, some 262,000 either side of
/// year 0.
#[verifier::external_body]
pub(crate) fn wall_clock() -> (now: MicroTime)
    ensures
        now.well_formed(),
{
    let now = chrono::DateTime::<chrono::Utc>::from(std::time::SystemTime::now());
    MicroTime { secs: now.timestamp(), nanos: now.timestamp_subsec_nanos() }
}

} // verus!
