use vstd::prelude::*;

use crate::settings::{debug_settings, Settings};
use crate::timer::{Alarm, Phase, Status, TimerState};
use crate::tray::{TrayAction, TrayEffect};
use crate::utils::{argb_of, ascii_upper, capitalized, filled};

verus! {

/// Everything that can happen to the timer: a control is used, the loop
/// ticks or reports back, or a tray entry is chosen; each with the time it
/// happens at where that matters.
#[derive(Clone, Copy, Debug, PartialEq, Eq, Structural)]
pub enum TimerEvent {
    StartTimer(i64),
    StopTimer,
    Tick(i64),
    FinishWork(i64),
    Resume(i64),
    Tray(TrayAction, i64),
}

impl TimerState {
    /// Whether the event may happen in this state: the loop only reports
    /// back from the step it announced, and its arithmetic must fit.
    pub open spec fn can_take(self, e: TimerEvent) -> bool {
        match e {
            TimerEvent::Tick(_) => self.phase == Phase::Counting && self.tick_fits(),
            TimerEvent::FinishWork(_) => self.phase == Phase::RestNotice && self.finish_fits(),
            TimerEvent::Resume(_) => self.phase == Phase::AwaitingContinue,
            _ => true,
        }
    }

    /// The state after the event.
    pub open spec fn after(self, e: TimerEvent) -> TimerState {
        match e {
            TimerEvent::StartTimer(now) => self.started(now),
            TimerEvent::StopTimer => self.stopped(),
            TimerEvent::Tick(now) => self.ticked(now),
            TimerEvent::FinishWork(now) => self.work_finished(now),
            TimerEvent::Resume(now) => self.resumed(now),
            TimerEvent::Tray(a, now) => self.after_tray(a, now),
        }
    }
}

/// Every event keeps the timer consistent: it is paused exactly while it
/// waits for the user after a break, and never paused during work.
pub proof fn law_events_keep_consistency(s: TimerState, e: TimerEvent)
    requires
        s.wf(),
        s.can_take(e),
    ensures
        s.after(e).wf(),
{
}

/// There is no pause button: the timer becomes paused only when a tick
/// finds that a break is over.
pub proof fn law_pause_only_when_break_over(s: TimerState, e: TimerEvent)
    requires
        s.can_take(e),
        !s.paused,
        s.after(e).paused,
    ensures
        e matches TimerEvent::Tick(now) && (s.status == Status::Break || s.status
            == Status::LongBreak) && s.expired_at(now),
{
}

/// A work interval cannot be skipped: it ends only by the stop control (or
/// its tray entry), or by the end-of-work step that follows the notice of
/// its end.
pub proof fn law_work_ends_only_when_over_or_stopped(s: TimerState, e: TimerEvent)
    requires
        s.can_take(e),
        s.status == Status::Work,
        s.after(e).status != Status::Work,
    ensures
        (s.after(e).status == Status::Stopped && (e == TimerEvent::StopTimer || e matches TimerEvent::Tray(
            TrayAction::StopTimer,
            _,
        ))) || (e matches TimerEvent::FinishWork(_) && s.phase == Phase::RestNotice),
{
}

/// The end-of-work notice is reached only by a tick that finds the work
/// interval over.
pub proof fn law_rest_notice_only_when_work_over(s: TimerState, e: TimerEvent)
    requires
        s.can_take(e),
        s.phase != Phase::RestNotice,
        s.after(e).phase == Phase::RestNotice,
    ensures
        e matches TimerEvent::Tick(now) && s.status == Status::Work && s.expired_at(now),
{
}

/// The tray cannot cut a running break short: "Start timer" changes
/// nothing while a break is being counted down.
pub proof fn law_tray_start_keeps_running_break(s: TimerState, now: i64)
    requires
        s.status == Status::Break || s.status == Status::LongBreak,
        !s.paused,
    ensures
        s.after(TimerEvent::Tray(TrayAction::StartTimer, now)) == s,
{
}

/// The count of completed work intervals goes up by one exactly at each
/// end-of-work step and never changes otherwise; no event changes the
/// settings.
pub proof fn law_completed_counts_finished_work(s: TimerState, e: TimerEvent)
    requires
        s.can_take(e),
    ensures
        s.after(e).pomodoros_completed == (if e matches TimerEvent::FinishWork(_) {
            s.pomodoros_completed + 1
        } else {
            s.pomodoros_completed as int
        }),
        s.after(e).settings == s.settings,
{
}

/// Stopping twice is the same as stopping once.
pub proof fn law_stop_is_idempotent(s: TimerState)
    ensures
        s.after(TimerEvent::StopTimer).after(TimerEvent::StopTimer) == s.after(TimerEvent::StopTimer),
{
}

/// A stop while the loop waits after a break wins: when the wait ends the
/// timer stays stopped and is no longer paused.
pub proof fn law_stop_during_wait_stays_stopped(s: TimerState, now: i64)
    requires
        s.phase == Phase::AwaitingContinue,
    ensures
        s.after(TimerEvent::StopTimer).after(TimerEvent::Resume(now)).status == Status::Stopped,
        !s.after(TimerEvent::StopTimer).after(TimerEvent::Resume(now)).paused,
{
}


/// The state after the tray entries `actions`, each with the time it was
/// chosen at, were handled one after another.
pub open spec fn after_tray_entries(s: TimerState, actions: Seq<(TrayAction, i64)>) -> TimerState
    decreases actions.len(),
{
    if actions.len() == 0 {
        s
    } else {
        after_tray_entries(
            s.after(TimerEvent::Tray(actions[0].0, actions[0].1)),
            actions.drop_first(),
        )
    }
}

/// Once "Quit" has been handled, the tray is no longer listened to: any
/// number of entries chosen afterwards change nothing and ask for nothing.
pub proof fn law_tray_ignored_after_quit(s: TimerState, now: i64, actions: Seq<(TrayAction, i64)>)
    ensures
        s.after(TimerEvent::Tray(TrayAction::Quit, now)).quit_app,
        after_tray_entries(s.after(TimerEvent::Tray(TrayAction::Quit, now)), actions) == s.after(
            TimerEvent::Tray(TrayAction::Quit, now),
        ),
        forall|a: TrayAction|
            #[trigger] s.after(TimerEvent::Tray(TrayAction::Quit, now)).tray_effect(a)
                == TrayEffect::Nothing,
    decreases actions.len(),
{
    let q = s.after(TimerEvent::Tray(TrayAction::Quit, now));
    if actions.len() > 0 {
        assert(q.after(TimerEvent::Tray(actions[0].0, actions[0].1)) == q);
        law_tray_ignored_after_quit(s, now, actions.drop_first());
    }
}

/// A new timer is stopped, not paused, counting, with nothing completed,
/// not quitting, and keeps the settings it was given.
pub proof fn law_initial_state(settings: Settings)
    ensures
        TimerState::initial(settings).status == Status::Stopped,
        !TimerState::initial(settings).paused,
        TimerState::initial(settings).phase == Phase::Counting,
        TimerState::initial(settings).pomodoros_completed == 0,
        !TimerState::initial(settings).quit_app,
        TimerState::initial(settings).settings == settings,
{
}

/// The length of each interval is the one the settings give for it.
pub proof fn law_interval_lengths(s: Settings)
    ensures
        s.interval_of(Status::Work) == s.pomodoro_duration,
        s.interval_of(Status::Break) == s.short_break_duration,
        s.interval_of(Status::LongBreak) == s.long_break_duration,
        s.interval_of(Status::Stopped) == 0,
{
}

/// The debug durations are 5 s of work, 3 s of short break and 4 s of long
/// break, whatever the settings were, and keep the cycle length.
pub proof fn law_debug_durations(s: Settings)
    ensures
        debug_settings(s).pomodoro_duration == 5000,
        debug_settings(s).short_break_duration == 3000,
        debug_settings(s).long_break_duration == 4000,
        debug_settings(s).pomodoros_in_cycle == s.pomodoros_in_cycle,
{
}

/// The start control while not paused begins a work interval at `now`,
/// whatever ran before; while paused it changes nothing.
pub proof fn law_start_begins_work(s: TimerState, now: i64)
    ensures
        !s.paused ==> s.after(TimerEvent::StartTimer(now)) == (TimerState {
            status: Status::Work,
            timer_start_time: now,
            current_time: now,
            ..s
        }),
        s.paused ==> s.after(TimerEvent::StartTimer(now)) == s,
{
}

/// The stop control stops the timer from every state, and changes nothing
/// else.
pub proof fn law_stop_stops_from_every_state(s: TimerState)
    ensures
        s.after(TimerEvent::StopTimer) == (TimerState { status: Status::Stopped, ..s }),
        s.after(TimerEvent::StopTimer).status == Status::Stopped,
{
}

/// A tick at `now` always shows `now`.  When the running interval's
/// deadline (its start plus the length the settings give it) has passed, a
/// work interval moves to its end-of-work notice with `WorkOver`, and a
/// short or long break pauses the timer to wait for the user with
/// `BreakOver`; otherwise, or when the timer is stopped, nothing but the
/// shown time changes and the tick is `Quiet`.
pub proof fn law_tick_ends_what_is_over(s: TimerState, now: i64)
    requires
        s.phase == Phase::Counting,
    ensures
        s.after(TimerEvent::Tick(now)).current_time == now,
        s.status == Status::Work && now > s.timer_start_time + s.settings.pomodoro_duration ==> {
            &&& s.tick_alarm(now) == Alarm::WorkOver
            &&& s.after(TimerEvent::Tick(now)) == (TimerState {
                current_time: now,
                phase: Phase::RestNotice,
                ..s
            })
        },
        s.status == Status::Break && now > s.timer_start_time + s.settings.short_break_duration ==> {
            &&& s.tick_alarm(now) == Alarm::BreakOver
            &&& s.after(TimerEvent::Tick(now)) == (TimerState {
                current_time: now,
                paused: true,
                phase: Phase::AwaitingContinue,
                ..s
            })
        },
        s.status == Status::LongBreak && now > s.timer_start_time + s.settings.long_break_duration
            ==> {
            &&& s.tick_alarm(now) == Alarm::BreakOver
            &&& s.after(TimerEvent::Tick(now)) == (TimerState {
                current_time: now,
                paused: true,
                phase: Phase::AwaitingContinue,
                ..s
            })
        },
        (s.status == Status::Stopped || (s.status == Status::Work && now <= s.timer_start_time
            + s.settings.pomodoro_duration) || (s.status == Status::Break && now
            <= s.timer_start_time + s.settings.short_break_duration) || (s.status
            == Status::LongBreak && now <= s.timer_start_time + s.settings.long_break_duration))
            ==> {
            &&& s.tick_alarm(now) == Alarm::Quiet
            &&& s.after(TimerEvent::Tick(now)) == (TimerState { current_time: now, ..s })
        },
{
}

/// The end-of-work step counts one more completed work interval, starts a
/// break at `now`, and makes it a long break exactly when the new count is a
/// multiple of the cycle length (as Rust's `%` gives zero), a short one
/// otherwise.
pub proof fn law_finish_work_starts_the_right_break(s: TimerState, now: i64)
    requires
        s.phase == Phase::RestNotice,
        s.finish_fits(),
    ensures
        s.after(TimerEvent::FinishWork(now)).pomodoros_completed == s.pomodoros_completed + 1,
        s.after(TimerEvent::FinishWork(now)).timer_start_time == now,
        s.after(TimerEvent::FinishWork(now)).phase == Phase::Counting,
        s.after(TimerEvent::FinishWork(now)).paused == s.paused,
        s.after(TimerEvent::FinishWork(now)).settings == s.settings,
        ((s.pomodoros_completed + 1) % (s.settings.pomodoros_in_cycle as int) == 0)
            ==> s.after(TimerEvent::FinishWork(now)).status == Status::LongBreak,
        ((s.pomodoros_completed + 1) % (s.settings.pomodoros_in_cycle as int) != 0)
            ==> s.after(TimerEvent::FinishWork(now)).status == Status::Break,
{
}

/// In a cycle of `c > 0` work intervals counted from zero, the `k`-th
/// finished interval is followed by a long break exactly when `k` is a
/// multiple of `c`: every `c`-th break is long, in every cycle.
pub proof fn law_every_cycle_ends_in_a_long_break(s: TimerState, now: i64, k: int)
    requires
        s.phase == Phase::RestNotice,
        s.finish_fits(),
        s.settings.pomodoros_in_cycle > 0,
        s.pomodoros_completed == k - 1,
    ensures
        s.after(TimerEvent::FinishWork(now)).status == Status::LongBreak <==> exists|m: int|
            #[trigger] times(m, s.settings.pomodoros_in_cycle as int) == k,
{
    let c: int = s.settings.pomodoros_in_cycle as int;
    if k % c == 0 {
        vstd::arithmetic::div_mod::lemma_fundamental_div_mod(k, c);
        assert(k == (k / c) * c) by (nonlinear_arith)
            requires k == c * (k / c) + k % c, k % c == 0;
        assert(times(k / c, c) == k);
    } else {
        assert forall|m: int| #[trigger] times(m, c) != k by {
            vstd::arithmetic::div_mod::lemma_mod_multiples_basic(m, c);
        }
    }
}

/// `m` times `c`.
pub open spec fn times(m: int, c: int) -> int {
    m * c
}

/// Once the wait after a break ends, the timer is no longer paused and
/// counts again; unless it was stopped meanwhile, a work interval starts at
/// `now` and the loop is told that work resumed, whichever break was waited
/// out; a stopped timer stays stopped.
pub proof fn law_resume_returns_to_work(s: TimerState, now: i64)
    requires
        s.phase == Phase::AwaitingContinue,
    ensures
        !s.after(TimerEvent::Resume(now)).paused,
        s.after(TimerEvent::Resume(now)).phase == Phase::Counting,
        s.status != Status::Stopped ==> s.after(TimerEvent::Resume(now)) == (TimerState {
            status: Status::Work,
            timer_start_time: now,
            paused: false,
            phase: Phase::Counting,
            ..s
        }),
        s.status == Status::Stopped ==> s.after(TimerEvent::Resume(now)) == (TimerState {
            paused: false,
            phase: Phase::Counting,
            ..s
        }),
{
}

/// The tray's entries before "Quit": "Start timer" on a stopped timer that
/// is not paused begins work at `now`; on a paused timer it only asks for
/// the waiter to be released; "Stop timer" on a running timer stops it and
/// asks for the waiter to be released; "Quit" marks the application as
/// quitting and asks for the window to close.
pub proof fn law_tray_entries(s: TimerState, now: i64)
    requires
        !s.quit_app,
    ensures
        s.status == Status::Stopped && !s.paused ==> {
            &&& s.after(TimerEvent::Tray(TrayAction::StartTimer, now)).status == Status::Work
            &&& s.after(TimerEvent::Tray(TrayAction::StartTimer, now)).timer_start_time == now
            &&& s.tray_effect(TrayAction::StartTimer) == TrayEffect::Nothing
        },
        s.paused ==> {
            &&& s.after(TimerEvent::Tray(TrayAction::StartTimer, now)) == s
            &&& s.tray_effect(TrayAction::StartTimer) == TrayEffect::ReleaseWaiter
        },
        s.status != Status::Stopped ==> {
            &&& s.after(TimerEvent::Tray(TrayAction::StopTimer, now)) == (TimerState {
                status: Status::Stopped,
                ..s
            })
            &&& s.tray_effect(TrayAction::StopTimer) == TrayEffect::ReleaseWaiter
        },
        s.status == Status::Stopped ==> s.after(TimerEvent::Tray(TrayAction::StopTimer, now)) == s,
        s.after(TimerEvent::Tray(TrayAction::Quit, now)) == (TimerState { quit_app: true, ..s }),
        s.tray_effect(TrayAction::Quit) == TrayEffect::CloseWindow,
{
}

/// Reordering RGBA into ARGB keeps the length; in every whole 4-byte pixel
/// at offset `k` the alpha byte comes first and red, green and blue follow,
/// whatever the bytes hold; bytes after the last whole pixel stay put.
pub proof fn law_argb_moves_alpha_to_front(p: Seq<u8>)
    ensures
        argb_of(p).len() == p.len(),
        forall|k: int|
            0 <= k && k + 4 <= p.len() && k % 4 == 0 ==> {
                &&& #[trigger] argb_of(p)[k] == p[k + 3]
                &&& argb_of(p)[k + 1] == p[k]
                &&& argb_of(p)[k + 2] == p[k + 1]
                &&& argb_of(p)[k + 3] == p[k + 2]
            },
        forall|i: int| p.len() - p.len() % 4 <= i < p.len() ==> #[trigger] argb_of(p)[i] == p[i],
{
    assert forall|k: int| 0 <= k && k + 4 <= p.len() && k % 4 == 0 implies {
        &&& #[trigger] argb_of(p)[k] == p[k + 3]
        &&& argb_of(p)[k + 1] == p[k]
        &&& argb_of(p)[k + 2] == p[k + 1]
        &&& argb_of(p)[k + 3] == p[k + 2]
    } by {
        assert(k + 3 < p.len() - p.len() % 4);
        assert((k + 1) % 4 == 1 && (k + 2) % 4 == 2 && (k + 3) % 4 == 3);
    }
}

/// A template without any `{` comes back unchanged, and `{}` alone becomes
/// the executable's path.
pub proof fn law_desktop_entry_without_placeholder(t: Seq<char>, exe: Seq<char>)
    ensures
        (forall|i: int| 0 <= i < t.len() ==> t[i] != '{') ==> filled(t, exe) == t,
        filled(seq!['{', '}'], exe) == exe,
    decreases t.len(),
{
    if t.len() > 0 && (forall|i: int| 0 <= i < t.len() ==> t[i] != '{') {
        law_desktop_entry_without_placeholder(t.skip(1), exe);
        assert(forall|i: int| 0 <= i < t.skip(1).len() ==> t.skip(1)[i] == t[i + 1]);
        assert(filled(t, exe) =~= t);
    }
    let pair: Seq<char> = seq!['{', '}'];
    assert(pair.len() == 2 && pair[0] == '{' && pair[1] == '}');
    assert(pair.skip(2) =~= Seq::<char>::empty());
    assert(filled(Seq::<char>::empty(), exe) == Seq::<char>::empty());
    assert(filled(pair, exe) == exe + filled(pair.skip(2), exe));
    assert(filled(pair, exe) =~= exe);
}

/// Filling a template goes from left to right: text without `{` is copied
/// as it is, a `{}` becomes the executable's path, and a `{` not followed by
/// `}` is copied; each time the rest of the template is filled the same way.
pub proof fn law_desktop_entry_left_to_right(t: Seq<char>, r: Seq<char>, exe: Seq<char>)
    ensures
        (forall|i: int| 0 <= i < t.len() ==> t[i] != '{') ==> filled(t + r, exe) == t + filled(
            r,
            exe,
        ),
        filled(seq!['{', '}'] + r, exe) == exe + filled(r, exe),
        (r.len() == 0 || r[0] != '}') ==> filled(seq!['{'] + r, exe) == seq!['{'] + filled(
            r,
            exe,
        ),
    decreases t.len(),
{
    if t.len() > 0 && (forall|i: int| 0 <= i < t.len() ==> t[i] != '{') {
        law_desktop_entry_left_to_right(t.skip(1), r, exe);
        assert(forall|i: int| 0 <= i < t.skip(1).len() ==> t.skip(1)[i] == t[i + 1]);
        assert((t + r)[0] == t[0]);
        assert((t + r).skip(1) =~= t.skip(1) + r);
        assert(filled(t + r, exe) =~= t + filled(r, exe));
    }
    if t.len() == 0 {
        assert(t + r =~= r);
    }
    let pr: Seq<char> = seq!['{', '}'] + r;
    assert(pr[0] == '{' && pr[1] == '}');
    assert(pr.skip(2) =~= r);
    let br: Seq<char> = seq!['{'] + r;
    assert(br[0] == '{');
    assert(br.skip(1) =~= r);
    if r.len() == 0 || r[0] != '}' {
        assert(br.len() < 2 || br[1] != '}');
        assert(filled(br, exe) =~= seq!['{'] + filled(r, exe));
    }
}

/// Capitalizing keeps the length of the text and every character after
/// the first, and capitalizing again changes nothing.
pub proof fn law_capitalize_is_idempotent(s: Seq<char>)
    ensures
        capitalized(s).len() == s.len(),
        forall|i: int| 1 <= i < s.len() ==> #[trigger] capitalized(s)[i] == s[i],
        capitalized(capitalized(s)) == capitalized(s),
        s.len() > 0 && 'a' <= s[0] && s[0] <= 'z' ==> capitalized(s)[0] as u32 == (s[0] as u32) - 32,
        s.len() > 0 && !('a' <= s[0] && s[0] <= 'z') ==> capitalized(s)[0] == s[0],
{
    if s.len() > 0 {
        let c = s[0];
        let u = ascii_upper(c);
        if 'a' <= c && c <= 'z' {
            assert((((c as u32) - 32) as char) as u32 == (c as u32) - 32);
        }
        assert(ascii_upper(u) == u);
        assert(capitalized(capitalized(s)) =~= capitalized(s));
    }
}

} // verus!
