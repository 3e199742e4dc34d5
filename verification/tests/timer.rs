use dispute::settings::Settings;
use dispute::timer::{Alarm, Phase, Status, TimerState};
use dispute::tray::{TrayAction, TrayEffect};

fn settings(cycle: i32) -> Settings {
    Settings {
        pomodoro_duration: 1000,
        short_break_duration: 300,
        long_break_duration: 900,
        pomodoros_in_cycle: cycle,
    }
}

fn working_at(start: i64) -> TimerState {
    let mut t = TimerState::new(settings(4));
    assert!(!t.start_timer(start));
    t
}

#[test]
fn a_new_timer_is_stopped() {
    let t = TimerState::new(settings(4));
    assert_eq!(t.status, Status::Stopped);
    assert!(!t.paused);
    assert_eq!(t.pomodoros_completed, 0);
    assert_eq!(t.phase, Phase::Counting);
    assert!(!t.quit_app);
}

#[test]
fn start_begins_work_now() {
    let t = working_at(10_000);
    assert_eq!(t.status, Status::Work);
    assert_eq!(t.timer_start_time, 10_000);
    assert_eq!(t.current_time, 10_000);
}

#[test]
fn tick_before_deadline_only_shows_time() {
    let mut t = working_at(10_000);
    assert_eq!(t.tick(11_000), Alarm::Quiet);
    assert_eq!(t.current_time, 11_000);
    assert_eq!(t.status, Status::Work);
    assert_eq!(t.phase, Phase::Counting);
}

#[test]
fn tick_after_work_announces_rest() {
    let mut t = working_at(10_000);
    assert_eq!(t.tick(11_001), Alarm::WorkOver);
    assert_eq!(t.phase, Phase::RestNotice);
    assert_eq!(t.status, Status::Work);
    t.finish_work(11_050);
    assert_eq!(t.pomodoros_completed, 1);
    assert_eq!(t.status, Status::Break);
    assert_eq!(t.timer_start_time, 11_050);
    assert_eq!(t.phase, Phase::Counting);
}

#[test]
fn fourth_work_interval_earns_a_long_break() {
    let mut t = working_at(0);
    t.pomodoros_completed = 3;
    assert_eq!(t.tick(1001), Alarm::WorkOver);
    t.finish_work(1002);
    assert_eq!(t.pomodoros_completed, 4);
    assert_eq!(t.status, Status::LongBreak);
}

#[test]
fn negative_cycle_length_divides_like_rust() {
    let mut t = TimerState::new(settings(-3));
    t.start_timer(0);
    t.pomodoros_completed = 2;
    assert_eq!(t.tick(1001), Alarm::WorkOver);
    t.finish_work(1002);
    assert_eq!(t.pomodoros_completed, 3);
    assert_eq!(t.status, Status::LongBreak);
}

#[test]
fn tick_after_break_pauses_and_resume_restarts_work() {
    let mut t = working_at(0);
    t.tick(1001);
    t.finish_work(1001);
    assert_eq!(t.tick(1301), Alarm::Quiet);
    assert_eq!(t.tick(1302), Alarm::BreakOver);
    assert!(t.paused);
    assert_eq!(t.phase, Phase::AwaitingContinue);
    assert!(t.start_timer(1400));
    assert_eq!(t.status, Status::Break);
    assert!(t.resume(1500));
    assert!(!t.paused);
    assert_eq!(t.status, Status::Work);
    assert_eq!(t.timer_start_time, 1500);
    assert_eq!(t.phase, Phase::Counting);
}

#[test]
fn stop_during_wait_stays_stopped() {
    let mut t = working_at(0);
    t.tick(1001);
    t.finish_work(1001);
    t.tick(1302);
    t.stop_timer();
    assert_eq!(t.status, Status::Stopped);
    assert!(!t.resume(1400));
    assert_eq!(t.status, Status::Stopped);
    assert!(!t.paused);
}

#[test]
fn stop_is_idempotent() {
    let mut t = working_at(0);
    t.stop_timer();
    let once = t;
    t.stop_timer();
    assert_eq!(t, once);
    assert_eq!(t.status, Status::Stopped);
}

#[test]
fn stopped_timer_never_alarms() {
    let mut t = TimerState::new(settings(4));
    t.timer_start_time = i64::MAX;
    assert_eq!(t.tick(i64::MAX), Alarm::Quiet);
    assert_eq!(t.current_time, i64::MAX);
}

#[test]
fn no_pause_without_a_finished_break() {
    let mut t = working_at(0);
    t.start_timer(5);
    assert!(!t.paused);
    assert_eq!(t.tick(1005), Alarm::Quiet);
    assert_eq!(t.tick(1006), Alarm::WorkOver);
    assert!(!t.paused);
}

#[test]
fn count_grows_only_by_finished_work() {
    let mut t = working_at(0);
    t.stop_timer();
    t.start_timer(10);
    t.tick(20);
    assert_eq!(t.pomodoros_completed, 0);
    t.tick(2000);
    t.finish_work(2000);
    assert_eq!(t.pomodoros_completed, 1);
    assert_eq!(t.settings, settings(4));
}

#[test]
fn tray_start_only_when_stopped_or_paused() {
    let mut t = TimerState::new(settings(4));
    assert_eq!(t.tray_command(TrayAction::StartTimer, 100), TrayEffect::Nothing);
    assert_eq!(t.status, Status::Work);
    assert_eq!(t.timer_start_time, 100);
    assert_eq!(t.tray_command(TrayAction::StartTimer, 200), TrayEffect::Nothing);
    assert_eq!(t.timer_start_time, 100);
}

#[test]
fn tray_start_keeps_running_break() {
    let mut t = working_at(0);
    t.tick(1001);
    t.finish_work(1001);
    let before = t;
    assert_eq!(t.tray_command(TrayAction::StartTimer, 1100), TrayEffect::Nothing);
    assert_eq!(t, before);
}

#[test]
fn tray_start_while_paused_releases_waiter() {
    let mut t = working_at(0);
    t.tick(1001);
    t.finish_work(1001);
    t.tick(1400);
    let before = t;
    assert_eq!(t.tray_command(TrayAction::StartTimer, 1500), TrayEffect::ReleaseWaiter);
    assert_eq!(t, before);
}

#[test]
fn tray_stop_only_when_running() {
    let mut t = TimerState::new(settings(4));
    assert_eq!(t.tray_command(TrayAction::StopTimer, 0), TrayEffect::Nothing);
    t.start_timer(0);
    assert_eq!(t.tray_command(TrayAction::StopTimer, 0), TrayEffect::ReleaseWaiter);
    assert_eq!(t.status, Status::Stopped);
}

#[test]
fn tray_quit_closes_window() {
    let mut t = TimerState::new(settings(4));
    assert_eq!(t.tray_command(TrayAction::Quit, 0), TrayEffect::CloseWindow);
    assert!(t.quit_app);
}

#[test]
fn tray_entries_after_quit_are_ignored() {
    let mut t = TimerState::new(settings(4));
    assert_eq!(t.tray_command(TrayAction::Quit, 0), TrayEffect::CloseWindow);
    let after_quit = t;
    assert_eq!(t.tray_command(TrayAction::StartTimer, 10), TrayEffect::Nothing);
    assert_eq!(t.tray_command(TrayAction::StopTimer, 20), TrayEffect::Nothing);
    assert_eq!(t.tray_command(TrayAction::Quit, 30), TrayEffect::Nothing);
    assert_eq!(t, after_quit);
    assert_eq!(t.status, Status::Stopped);
}
