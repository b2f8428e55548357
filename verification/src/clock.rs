//! Reading the clocks of the machine, and lengths of time.
use std::time::{Duration, Instant, SystemTime};
use vstd::prelude::*;

verus! {

/// The type `std::time::SystemTime`. Nothing is assumed of its representation.
#[verifier::external_type_specification]
#[verifier::external_body]
pub struct ExSystemTime(SystemTime);

/// The type `std::time::Instant`. Nothing is assumed of its representation.
#[verifier::external_type_specification]
#[verifier::external_body]
pub struct ExInstant(Instant);

/// The duration of some whole seconds.
pub uninterp spec fn seconds(secs: u64) -> Duration;

/// The whole seconds of a duration.
pub uninterp spec fn whole_seconds(duration: Duration) -> u64;

/// `SystemTime::now`: what the machine's clock shows. Nothing is promised of it.
pub assume_specification[ SystemTime::now ]() -> (now: SystemTime)
;

/// `Instant::now`: the present moment. Nothing is promised of it.
pub assume_specification[ Instant::now ]() -> (now: Instant)
;

/// `Duration::from_secs`: the duration of that many seconds, always the same one.
pub assume_specification[ Duration::from_secs ](secs: u64) -> (duration: Duration)
    ensures
        duration == seconds(secs),
        whole_seconds(duration) == secs,
;

/// `Duration::as_secs`: the whole seconds of the duration.
pub assume_specification[ Duration::as_secs ](duration: &Duration) -> (secs: u64)
    ensures
        secs == whole_seconds(*duration),
;

/// `SystemTime::duration_since` the start of 1970: how long after it the time is, or `None`
/// for a time before it. That depends on what the clock showed, and nothing is promised of
/// it.
#[verifier::external_body]
fn since_epoch(time: SystemTime) -> (elapsed: Option<Duration>) {
    time.duration_since(SystemTime::UNIX_EPOCH).ok()
}

/// The moment is one that the machine gave as the present one.
pub open spec fn was_present(moment: Instant) -> bool {
    call_ensures(Instant::now, (), moment)
}

/// The machine's clock was read and showed a moment with this timestamp: its whole seconds
/// since the start of 1970, or 0 where it is before that.
pub closed spec fn clock_shows(secs: u64) -> bool {
    exists|now: SystemTime, elapsed: Option<Duration>| #[trigger]
        call_ensures(SystemTime::now, (), now) && #[trigger] call_ensures(
            since_epoch,
            (now,),
            elapsed,
        ) && secs == match elapsed {
            Some(duration) => whole_seconds(duration),
            None => 0,
        }
}

/// The timestamp of a moment this long after the start of 1970. `None` is a moment before
/// it, which counts as the start itself.
pub fn timestamp_after(elapsed: Option<Duration>) -> (secs: u64)
    ensures
        elapsed matches Some(duration) ==> secs == whole_seconds(duration),
        elapsed is None ==> secs == 0,
{
    match elapsed {
        Some(duration) => duration.as_secs(),
        None => 0,
    }
}

/// The timestamp of this moment by the machine's clock.
pub(crate) fn unix_time() -> (secs: u64)
    ensures
        clock_shows(secs),
{
    timestamp_after(since_epoch(SystemTime::now()))
}

/// A timestamp that the clock shows comes of reading the clock: it is the whole seconds from
/// the start of 1970 to the moment that was read, or 0 where that moment is before it.
proof fn law_the_clock_is_read(secs: u64)
    requires
        clock_shows(secs) || call_ensures(unix_time, (), secs),
    ensures
        exists|now: SystemTime, elapsed: Option<Duration>| #[trigger]
            call_ensures(SystemTime::now, (), now) && #[trigger] call_ensures(
                since_epoch,
                (now,),
                elapsed,
            ) && (elapsed matches Some(duration) ==> secs == whole_seconds(duration)) && (
            elapsed is None ==> secs == 0),
{
}

} // verus!
