//! The clock, and which instants the calendar library can represent.
use vstd::prelude::*;

verus! {

/// The first second chrono can represent (the start of its earliest date,
/// `DateTime::<Utc>::MIN_UTC`), in seconds since the Unix epoch.
pub open spec fn first_representable_second() -> int {
    -8334601228800
}

/// The last whole second chrono can represent (the last second of its
/// latest date, `DateTime::<Utc>::MAX_UTC`), in seconds since the Unix epoch.
pub open spec fn last_representable_second() -> int {
    8210266876799
}

/// Whether `chrono::DateTime::from_timestamp(secs, 0)` gives a date: `secs`
/// lies within chrono's range of dates.
pub open spec fn representable_timestamp(secs: i64) -> bool {
    first_representable_second() <= secs <= last_representable_second()
}

/// `chrono::DateTime::<Utc>::from_timestamp(secs, 0)`, telling only whether
/// it gave a date. Claimed: it does exactly for the seconds between chrono's
/// first and last representable second.
#[verifier::external_body]
pub(crate) fn timestamp_representable(secs: i64) -> (r: bool)
    ensures
        r == representable_timestamp(secs),
{
    chrono::DateTime::<chrono::Utc>::from_timestamp(secs, 0).is_some()
}

#[verifier::external_type_specification]
#[verifier::external_body]
pub struct ExSystemTime(std::time::SystemTime);

#[verifier::external_type_specification]
#[verifier::external_body]
pub struct ExSystemTimeError(std::time::SystemTimeError);

/// `std::time::SystemTime::now`: the reading of the system clock. Nothing is
/// claimed about which instant is read.
pub assume_specification[ std::time::SystemTime::now ]() -> (r: std::time::SystemTime);

/// `std::time::SystemTime::duration_since`: how long after `earlier` the
/// instant `t` lies, or an error when it lies before. Nothing is claimed of
/// the two instants, which Verus does not see.
pub assume_specification[ std::time::SystemTime::duration_since ](
    t: &std::time::SystemTime,
    earlier: std::time::SystemTime,
) -> (r: Result<core::time::Duration, std::time::SystemTimeError>);

/// `core::time::Duration::as_secs`: the whole seconds of a duration, which
/// Verus does not see.
pub assume_specification[ core::time::Duration::as_secs ](d: &core::time::Duration) -> (r: u64);

/// `core::time::Duration::subsec_nanos`: the nanoseconds past the whole
/// seconds of a duration. Claimed: as documented, they are below one billion.
pub assume_specification[ core::time::Duration::subsec_nanos ](d: &core::time::Duration) -> (r:
    u32)
    ensures
        r < 1_000_000_000,
;

/// `std::time::UNIX_EPOCH`, the instant 1970-01-01 00:00:00 UTC, which
/// Verus does not see.
#[verifier::external_body]
fn unix_epoch() -> (r: std::time::SystemTime) {
    std::time::UNIX_EPOCH
}

/// The system clock's reading as seconds and nanoseconds since 1970, or
/// `None` when it reads before 1970.
fn system_time() -> (r: Option<(u64, u32)>)
    ensures
        r matches Some(t) ==> t.1 < 1_000_000_000,
{
    let t = std::time::SystemTime::now();
    match t.duration_since(unix_epoch()) {
        Ok(d) => Some((d.as_secs(), d.subsec_nanos())),
        Err(_) => None,
    }
}

/// The current time as seconds since the Unix epoch and nanoseconds past
/// that second, or `None` when the clock cannot be read as such (it reads
/// before 1970, or too far ahead for 64-bit signed seconds).
pub(crate) fn now() -> (r: Option<(i64, u32)>)
    ensures
        r matches Some(t) ==> t.0 >= 0 && t.1 < 1_000_000_000,
{
    match system_time() {
        Some((secs, nanos)) => {
            if secs > i64::MAX as u64 {
                None
            } else {
                Some((secs as i64, nanos))
            }
        },
        None => None,
    }
}

} // verus!
