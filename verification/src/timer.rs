use vstd::prelude::*;

use crate::settings::Settings;

verus! {

/// Which interval the timer is running.
#[derive(Clone, Copy, Debug, PartialEq, Eq, Structural)]
pub enum Status {
    Stopped,
    Work,
    Break,
    LongBreak,
}

/// Where the timer loop stands: counting down the current interval, showing
/// the end-of-work notice, or waiting for the user to continue after a break.
#[derive(Clone, Copy, Debug, PartialEq, Eq, Structural)]
pub enum Phase {
    Counting,
    RestNotice,
    AwaitingContinue,
}

/// What a tick of the timer loop asks its driver to do next.
#[derive(Clone, Copy, Debug, PartialEq, Eq, Structural)]
pub enum Alarm {
    /// Nothing is due: sleep, then tick again.
    Quiet,
    /// The work interval is over: announce the rest, ring, then report back
    /// with `finish_work`.
    WorkOver,
    /// The break is over: ring, ask the user to continue, wait for the
    /// waiter to be released, then report back with `resume`.
    BreakOver,
}

/// The state that the timer shares between its loop and the controls.
#[derive(Clone, Copy, Debug, PartialEq, Eq, Structural)]
pub struct TimerState {
    pub status: Status,
    pub paused: bool,
    pub timer_start_time: i64,
    pub current_time: i64,
    pub pomodoros_completed: i32,
    pub settings: Settings,
    pub quit_app: bool,
    pub phase: Phase,
}

/// Whether the `completed`-th finished work interval closes a cycle of
/// `cycle` intervals, and so is followed by a long break.
pub open spec fn closes_cycle(completed: int, cycle: int) -> bool {
    completed % cycle == 0
}

impl TimerState {
    /// The state's own consistency: the timer is paused exactly while it
    /// waits for the user to continue, and a paused timer is never in a work
    /// interval.
    pub open spec fn wf(self) -> bool {
        &&& self.paused <==> self.phase == Phase::AwaitingContinue
        &&& self.paused ==> self.status != Status::Work
    }

    /// The moment the running interval ends.
    pub open spec fn deadline(self) -> int {
        self.timer_start_time + self.settings.interval_of(self.status)
    }

    /// Whether the running interval is over at time `now`.
    pub open spec fn expired_at(self, now: i64) -> bool {
        self.status != Status::Stopped && now > self.deadline()
    }

    /// The state that a fresh timer starts from.
    pub open spec fn initial(settings: Settings) -> TimerState {
        TimerState {
            status: Status::Stopped,
            paused: false,
            timer_start_time: 0,
            current_time: 0,
            pomodoros_completed: 0,
            settings,
            quit_app: false,
            phase: Phase::Counting,
        }
    }

    /// A stopped timer with nothing completed.
    pub fn new(settings: Settings) -> (s: TimerState)
        ensures
            s == TimerState::initial(settings),
            s.wf(),
    {
        TimerState {
            status: Status::Stopped,
            paused: false,
            timer_start_time: 0,
            current_time: 0,
            pomodoros_completed: 0,
            settings,
            quit_app: false,
            phase: Phase::Counting,
        }
    }

    /// The state after the start control is used at time `now`.
    pub open spec fn started(self, now: i64) -> TimerState {
        if self.paused {
            self
        } else {
            TimerState { status: Status::Work, timer_start_time: now, current_time: now, ..self }
        }
    }

    /// The start control.  While the timer waits for the user after a break,
    /// it only releases the waiter (the result is `true`: the caller must
    /// release it) and changes nothing; otherwise it begins a work interval
    /// at `now`.
    pub fn start_timer(&mut self, now: i64) -> (release: bool)
        ensures
            release == old(self).paused,
            *final(self) == old(self).started(now),
    {
        if self.paused {
            true
        } else {
            self.status = Status::Work;
            self.timer_start_time = now;
            self.current_time = now;
            false
        }
    }

    /// The state after the stop control is used.
    pub open spec fn stopped(self) -> TimerState {
        TimerState { status: Status::Stopped, ..self }
    }

    /// The stop control: the timer stops, and the caller must always release
    /// the waiter, so that a loop waiting after a break sees the stop.
    pub fn stop_timer(&mut self)
        ensures
            *final(self) == old(self).stopped(),
    {
        self.status = Status::Stopped;
    }

    /// What a tick of the loop must not overflow on: the deadline of a
    /// running interval fits in an `i64`.
    pub open spec fn tick_fits(self) -> bool {
        self.status != Status::Stopped ==> i64::MIN <= self.deadline() <= i64::MAX
    }

    /// The state after a tick of the loop at time `now`.
    pub open spec fn ticked(self, now: i64) -> TimerState {
        let s = TimerState { current_time: now, ..self };
        if self.expired_at(now) {
            match self.status {
                Status::Work => TimerState { phase: Phase::RestNotice, ..s },
                _ => TimerState { paused: true, phase: Phase::AwaitingContinue, ..s },
            }
        } else {
            s
        }
    }

    /// The alarm that a tick of the loop at time `now` raises.
    pub open spec fn tick_alarm(self, now: i64) -> Alarm {
        if self.expired_at(now) {
            match self.status {
                Status::Work => Alarm::WorkOver,
                _ => Alarm::BreakOver,
            }
        } else {
            Alarm::Quiet
        }
    }

    /// One tick of the timer loop at time `now`: the shown time becomes
    /// `now`; when the running interval is over, a work interval moves to
    /// its end-of-work notice and a break pauses the timer to wait for the
    /// user.
    pub fn tick(&mut self, now: i64) -> (alarm: Alarm)
        requires
            old(self).phase == Phase::Counting,
            old(self).tick_fits(),
        ensures
            alarm == old(self).tick_alarm(now),
            *final(self) == old(self).ticked(now),
    {
        self.current_time = now;
        if self.status == Status::Stopped {
            return Alarm::Quiet;
        }
        let end: i64 = self.timer_start_time + self.settings.interval_duration(self.status);
        if now > end {
            match self.status {
                Status::Work => {
                    self.phase = Phase::RestNotice;
                    Alarm::WorkOver
                },
                _ => {
                    self.paused = true;
                    self.phase = Phase::AwaitingContinue;
                    Alarm::BreakOver
                },
            }
        } else {
            Alarm::Quiet
        }
    }

    /// What finishing a work interval must not overflow or divide by zero on.
    pub open spec fn finish_fits(self) -> bool {
        self.pomodoros_completed < i32::MAX && self.settings.pomodoros_in_cycle != 0
    }

    /// The state once the end-of-work notice has been shown, at time `now`.
    pub open spec fn work_finished(self, now: i64) -> TimerState {
        let done: int = self.pomodoros_completed + 1;
        TimerState {
            pomodoros_completed: done as i32,
            status: if closes_cycle(done, self.settings.pomodoros_in_cycle as int) {
                Status::LongBreak
            } else {
                Status::Break
            },
            timer_start_time: now,
            phase: Phase::Counting,
            ..self
        }
    }

    /// Called once the end-of-work notice has been shown: one more work
    /// interval is counted, and a break starts at `now`, a long one when the
    /// count closes a cycle.
    pub fn finish_work(&mut self, now: i64)
        requires
            old(self).phase == Phase::RestNotice,
            old(self).finish_fits(),
        ensures
            *final(self) == old(self).work_finished(now),
    {
        let done: i32 = self.pomodoros_completed + 1;
        let rem: Option<i32> = done.checked_rem(self.settings.pomodoros_in_cycle);
        proof {
            lemma_rem_zero(done, self.settings.pomodoros_in_cycle);
        }
        self.pomodoros_completed = done;
        if rem == Some(0i32) {
            self.status = Status::LongBreak;
        } else {
            self.status = Status::Break;
        }
        self.timer_start_time = now;
        self.phase = Phase::Counting;
    }

    /// The state once the waiter has been released at time `now`.
    pub open spec fn resumed(self, now: i64) -> TimerState {
        let s = TimerState { paused: false, phase: Phase::Counting, ..self };
        if self.status == Status::Stopped {
            s
        } else {
            TimerState { status: Status::Work, timer_start_time: now, ..s }
        }
    }

    /// Called when the loop's wait after a break ends at time `now`: the
    /// timer is no longer paused; unless it was stopped meanwhile, a new
    /// work interval starts at `now`.  The result tells whether work resumed
    /// (the loop then sleeps before its next tick) or the timer was stopped
    /// (the loop ticks again at once).
    pub fn resume(&mut self, now: i64) -> (working: bool)
        requires
            old(self).phase == Phase::AwaitingContinue,
        ensures
            working == (old(self).status != Status::Stopped),
            *final(self) == old(self).resumed(now),
    {
        self.paused = false;
        self.phase = Phase::Counting;
        if self.status == Status::Stopped {
            false
        } else {
            self.status = Status::Work;
            self.timer_start_time = now;
            true
        }
    }
}

/// `checked_rem` reports a zero remainder exactly when the divisor divides
/// the dividend.
proof fn lemma_rem_zero(x: i32, d: i32)
    requires
        d != 0,
        x != i32::MIN,
    ensures
        (x.checked_rem(d) == Some(0i32)) == closes_cycle(x as int, d as int),
{
    let xi: int = x as int;
    let di: int = d as int;
    if xi == 0 {
        lemma_multiple_mod(0, di);
    } else if xi < 0 && di > 0 {
        lemma_neg_divides(xi, di);
        assert(xi * -1 == -xi);
    } else if xi > 0 && di < 0 {
        lemma_divides_neg(xi, di);
        assert(di * -1 == -di);
    } else if xi < 0 && di < 0 {
        lemma_neg_divides(xi, di);
        lemma_divides_neg(-xi, di);
        assert(xi * -1 == -xi);
        assert(di * -1 == -di);
    }
}

proof fn lemma_neg_divides(x: int, d: int)
    requires
        d != 0,
    ensures
        (x % d == 0) == ((-x) % d == 0),
{
    lemma_divides_iff_multiple(x, d);
    lemma_divides_iff_multiple(-x, d);
    if x % d == 0 {
        let q: int = x / d;
        assert(-x == (-q) * d) by (nonlinear_arith) requires x == q * d;
    }
    if (-x) % d == 0 {
        let q: int = (-x) / d;
        assert(x == (-q) * d) by (nonlinear_arith) requires -x == q * d;
    }
}

proof fn lemma_divides_neg(x: int, d: int)
    requires
        d != 0,
    ensures
        (x % d == 0) == (x % (-d) == 0),
{
    lemma_divides_iff_multiple(x, d);
    lemma_divides_iff_multiple(x, -d);
    if x % d == 0 {
        let q: int = x / d;
        assert(x == (-q) * (-d)) by (nonlinear_arith) requires x == q * d;
    }
    if x % (-d) == 0 {
        let q: int = x / (-d);
        assert(x == (-q) * d) by (nonlinear_arith) requires x == q * (-d);
    }
}

/// `d` divides `x` exactly when `x` is a whole multiple of `d`.
proof fn lemma_divides_iff_multiple(x: int, d: int)
    requires
        d != 0,
    ensures
        x % d == 0 ==> x == (x / d) * d,
        forall|q: int| x == q * d ==> #[trigger] (q * d) % d == 0,
{
    vstd::arithmetic::div_mod::lemma_fundamental_div_mod(x, d);
    assert(x % d == 0 ==> x == (x / d) * d) by (nonlinear_arith)
        requires x == d * (x / d) + (x % d);
    assert forall|q: int| x == q * d implies #[trigger] (q * d) % d == 0 by {
        lemma_multiple_mod(q, d);
    }
}

proof fn lemma_multiple_mod(q: int, d: int)
    requires
        d != 0,
    ensures
        (q * d) % d == 0,
{
    if d > 0 {
        vstd::arithmetic::div_mod::lemma_mod_multiples_basic(q, d);
    } else {
        assert((q * d) % d == 0) by (nonlinear_arith) requires d < 0;
    }
}

} // verus!
