# dispute

The logic of a strict pomodoro timer, verified with Verus.

- `src/timer.rs`: the timer's shared state and the steps of its loop and
  controls (start, stop, tick, end of work, resume after a break).
- `src/tray.rs`: tray menu commands, the choice of tray icon and the
  preparation of its pixels.
- `src/laws.rs`: the events of the timer and the properties that every
  event keeps.
- `src/settings.rs`, `src/utils.rs`, `src/instance.rs`: settings and
  interval lengths, text and pixel helpers, the clock, and the single-instance
  guard's decisions.
- `app/`: the program around the library: files, notifications, sound,
  tray, lock file and the asynchronous loop that drives the timer.
