//! The system's wall clock, in Unix milliseconds.
use vstd::prelude::*;

verus! {

/// A reading of the system clock (`std::time::SystemTime`), opaque.
#[verifier::external_type_specification]
#[verifier::external_body]
pub struct ExSystemTime(std::time::SystemTime);

/// The failure of a reading that lies before the other
/// (`std::time::SystemTimeError`), opaque.
#[verifier::external_type_specification]
#[verifier::external_body]
pub struct ExSystemTimeError(std::time::SystemTimeError);

/// Reads the system clock (`std::time::SystemTime::now`). What it says is the
/// machine's affair.
#[verifier::external_body]
fn read_clock() -> (t: std::time::SystemTime) {
    std::time::SystemTime::now()
}

/// How far a reading lies after the Unix epoch (`duration_since` of
/// `std::time::SystemTime`), or an error where it lies before.
#[verifier::external_body]
fn since_epoch(t: &std::time::SystemTime) -> (r: Result<
    std::time::Duration,
    std::time::SystemTimeError,
>) {
    t.duration_since(std::time::UNIX_EPOCH)
}

/// The whole milliseconds of a span (`std::time::Duration::as_millis`), of an
/// opaque length.
pub assume_specification[ std::time::Duration::as_millis ](d: &std::time::Duration) -> (millis:
    u128);

/// The Unix milliseconds that a clock reports for the time since the epoch: none
/// where it is set before the epoch counts as the epoch itself, and what does not
/// fit saturates.
pub open spec fn reported_millis(since_epoch: Option<u128>) -> int {
    match since_epoch {
        Some(millis) => if millis > i64::MAX {
            i64::MAX as int
        } else {
            millis as int
        },
        None => 0,
    }
}

/// Computes [`reported_millis`].
pub fn to_unix_millis(since_epoch: Option<u128>) -> (millis: i64)
    ensures
        millis == reported_millis(since_epoch),
        millis >= 0,
{
    match since_epoch {
        Some(millis) => if millis > i64::MAX as u128 {
            i64::MAX
        } else {
            millis as i64
        },
        None => 0,
    }
}

/// Whether Unix milliseconds are what a reading of the system clock comes to.
pub closed spec fn is_reading(millis: i64) -> bool {
    exists|t: std::time::SystemTime, since: Option<u128>|
        #![trigger reading_since(t, since)]
        {
            &&& call_ensures(read_clock, (), t)
            &&& reading_since(t, since)
            &&& millis == reported_millis(since)
        }
}

/// Whether a reading lies this many whole milliseconds after the epoch, or before it.
closed spec fn reading_since(t: std::time::SystemTime, since: Option<u128>) -> bool {
    match since {
        Some(millis) => exists|d: std::time::Duration| #[trigger]
            call_ensures(since_epoch, (&t,), Ok(d)) && call_ensures(
                std::time::Duration::as_millis,
                (&d,),
                millis,
            ),
        None => exists|e: std::time::SystemTimeError| #[trigger]
            call_ensures(since_epoch, (&t,), Err(e)),
    }
}

/// The current Unix milliseconds. A clock set before the epoch reads as the epoch.
pub(crate) fn unix_millis_now() -> (millis: i64)
    ensures
        is_reading(millis),
        millis >= 0,
{
    let now = read_clock();
    match since_epoch(&now) {
        Ok(d) => {
            let millis: u128 = d.as_millis();
            proof {
                assert(reading_since(now, Some(millis)));
            }
            to_unix_millis(Some(millis))
        },
        Err(e) => {
            proof {
                assert(reading_since(now, None));
            }
            to_unix_millis(None)
        },
    }
}

/// A later clock never reports an earlier time, a time that fits is reported as it is, and
/// a clock before the epoch reports what one at the epoch does.
pub proof fn a_clock_reports_the_time_that_fits(
    earlier: u128,
    later: u128,
    r: i64,
    s: i64,
    before_epoch: i64,
    at_epoch: i64,
)
    requires
        earlier <= later,
        call_ensures(to_unix_millis, (Some(earlier),), r),
        call_ensures(to_unix_millis, (Some(later),), s),
        call_ensures(to_unix_millis, (None,), before_epoch),
        call_ensures(to_unix_millis, (Some(0u128),), at_epoch),
    ensures
        0 <= r <= s,
        earlier <= i64::MAX ==> r == earlier,
        earlier > i64::MAX ==> r == i64::MAX,
        before_epoch == at_epoch,
{
}

} // verus!
