use vstd::prelude::*;

use crate::timer::Status;

verus! {

/// The user's timer settings: the length of each kind of interval in
/// milliseconds, and how many work intervals make up one cycle.
#[derive(Clone, Copy, Debug, PartialEq, Eq, Structural)]
pub struct Settings {
    pub pomodoro_duration: i64,
    pub short_break_duration: i64,
    pub long_break_duration: i64,
    pub pomodoros_in_cycle: i32,
}

impl Settings {
    /// How long an interval of the given kind lasts.  A stopped timer runs
    /// no interval, so its length is zero.
    pub open spec fn interval_of(self, status: Status) -> i64 {
        match status {
            Status::Stopped => 0,
            Status::Work => self.pomodoro_duration,
            Status::Break => self.short_break_duration,
            Status::LongBreak => self.long_break_duration,
        }
    }

    /// The length in milliseconds of an interval of the kind `status`.
    pub fn interval_duration(&self, status: Status) -> (d: i64)
        ensures
            d == self.interval_of(status),
    {
        match status {
            Status::Stopped => 0,
            Status::Work => self.pomodoro_duration,
            Status::Break => self.short_break_duration,
            Status::LongBreak => self.long_break_duration,
        }
    }
}

/// The debug durations: every interval is a few seconds long (work 5 s,
/// short break 3 s, long break 4 s) so that a full cycle can be watched
/// quickly; the cycle length is kept.
pub open spec fn debug_settings(s: Settings) -> Settings {
    Settings {
        pomodoro_duration: 5000,
        short_break_duration: 3000,
        long_break_duration: 4000,
        pomodoros_in_cycle: s.pomodoros_in_cycle,
    }
}

/// When debug durations were asked for (the application asks when the
/// `DEBUG_DURATIONS` environment variable is set), shortens every interval
/// to the debug durations; otherwise leaves the settings as they are.
pub fn apply_debug_durations(settings: &mut Settings, requested: bool)
    ensures
        *final(settings) == (if requested {
            debug_settings(*old(settings))
        } else {
            *old(settings)
        }),
{
    if requested {
        settings.pomodoro_duration = 5000;
        settings.short_break_duration = 3000;
        settings.long_break_duration = 4000;
    }
}

} // verus!
