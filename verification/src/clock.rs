//! Points in time, the system clock, and deadlines turned into wake-ups.

use vstd::prelude::*;

verus! {

/// Microseconds in one second.
pub const MICROS_PER_SECOND: u64 = 1_000_000;

/// A point in time: microseconds since the Unix epoch.
#[derive(Clone, Copy, Debug, PartialEq, Eq, Structural)]
pub struct Timestamp {
    pub micros: i64,
}

/// The sum `micros + delay`, held at `i64::MAX` where it would leave the
/// range of a `Timestamp`.
pub open spec fn clamped_sum(micros: int, delay: int) -> int {
    if micros + delay > i64::MAX {
        i64::MAX as int
    } else {
        micros + delay
    }
}

impl Timestamp {
    /// The point in time `delay` microseconds after `self`. A result past the
    /// last representable point is that last point.
    pub fn plus(self, delay: u64) -> (later: Timestamp)
        ensures
            later.micros == clamped_sum(self.micros as int, delay as int),
            later.micros >= self.micros,
    {
        let sum: i128 = self.micros as i128 + delay as i128;
        if sum > i64::MAX as i128 {
            Timestamp { micros: i64::MAX }
        } else {
            Timestamp { micros: sum as i64 }
        }
    }
}

/// Reads the system clock: `std::time::SystemTime::now`, turned into a
/// `chrono::DateTime<Utc>` by chrono's `From<SystemTime>` and into
/// microseconds by `DateTime::timestamp_micros`. The conversion takes a
/// clock that stands before 1970 as a time before the epoch, which comes
/// out as a negative number; it gives up only on a clock beyond the years
/// that chrono can hold, some 260,000 from now. Nothing is promised of the
/// value: two calls may even go backwards when the clock is set.
#[verifier::external_body]
pub(crate) fn now() -> Timestamp {
    let clock = std::time::SystemTime::now();
    Timestamp { micros: chrono::DateTime::<chrono::Utc>::from(clock).timestamp_micros() }
}

/// How a deadline shows up in a multi-way wait.
#[derive(Clone, Copy, Debug, PartialEq, Eq, Structural)]
pub enum Alarm {
    /// Never becomes ready: there is no deadline.
    Never,
    /// Ready at once: the deadline is now or has passed.
    Immediately,
    /// Ready after this many microseconds.
    After(u64),
}

/// The alarm that stands for `deadline` when the time is `now`.
pub open spec fn alarm_for(now: Timestamp, deadline: Option<Timestamp>) -> Alarm {
    match deadline {
        None => Alarm::Never,
        Some(at) => if at.micros <= now.micros {
            Alarm::Immediately
        } else {
            Alarm::After((at.micros - now.micros) as u64)
        },
    }
}

/// Turns an optional deadline into the alarm to wait on. Building the alarm
/// never blocks.
pub fn deadline_to_alarm_clock(now: Timestamp, deadline: Option<Timestamp>) -> (alarm: Alarm)
    ensures
        alarm == alarm_for(now, deadline),
        deadline is None <==> alarm is Never,
        alarm matches Alarm::After(delay) ==> delay > 0 && now.micros + delay == deadline->0.micros,
{
    match deadline {
        None => Alarm::Never,
        Some(at) => {
            if at.micros <= now.micros {
                Alarm::Immediately
            } else {
                let remaining: i128 = at.micros as i128 - now.micros as i128;
                Alarm::After(remaining as u64)
            }
        },
    }
}

} // verus!
