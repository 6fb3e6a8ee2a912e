use alt_tab::monitor::config::MonitorConfig;
use alt_tab::monitor::geometry::Rect;
use alt_tab::monitor::interval::Interval;
use alt_tab::monitor::platform::{HostOs, PlatformQueries};
use alt_tab::monitor::poll_loop::{PollAction, PollLoop};
use alt_tab::monitor::state::InputState;
use alt_tab::monitor::tracker::{
    poll_tick, poll_tick_with, resolve_monitors, resolve_monitors_with, MonitorTracker, TickResult,
};
use std::sync::atomic::{AtomicUsize, Ordering};
use std::sync::Mutex;

const SECOND: u64 = 1_000_000_000;
const NOW: u64 = 100 * SECOND;

fn mon(x: i32, y: i32, w: i32, h: i32) -> Rect {
    Rect::new(x, y, w, h)
}

struct FakePlatform {
    cursor: Mutex<Option<(i32, i32)>>,
    focus: Mutex<Option<Rect>>,
    monitors: Vec<Rect>,
    background_safe: bool,
    cursor_calls: AtomicUsize,
    focus_calls: AtomicUsize,
    monitor_calls: AtomicUsize,
}

impl FakePlatform {
    fn new(cursor: Option<(i32, i32)>, focus: Option<Rect>, monitors: Vec<Rect>) -> Self {
        FakePlatform {
            cursor: Mutex::new(cursor),
            focus: Mutex::new(focus),
            monitors,
            background_safe: true,
            cursor_calls: AtomicUsize::new(0),
            focus_calls: AtomicUsize::new(0),
            monitor_calls: AtomicUsize::new(0),
        }
    }
}

impl PlatformQueries for FakePlatform {
    fn cursor_position(&self) -> Option<(i32, i32)> {
        self.cursor_calls.fetch_add(1, Ordering::SeqCst);
        *self.cursor.lock().unwrap()
    }
    fn focused_window_bounds(&self) -> Option<Rect> {
        self.focus_calls.fetch_add(1, Ordering::SeqCst);
        *self.focus.lock().unwrap()
    }
    fn physical_monitors(&self) -> Vec<Rect> {
        self.monitor_calls.fetch_add(1, Ordering::SeqCst);
        self.monitors.clone()
    }
    fn poll_focused_window(&self) -> bool {
        self.background_safe
    }
}

struct DefaultSafety;

impl PlatformQueries for DefaultSafety {
    fn cursor_position(&self) -> Option<(i32, i32)> {
        None
    }
    fn focused_window_bounds(&self) -> Option<Rect> {
        None
    }
    fn physical_monitors(&self) -> Vec<Rect> {
        Vec::new()
    }
}

#[test]
fn snapshot_returns_none_when_no_monitors() {
    let platform = FakePlatform::new(None, None, vec![]);
    let tracker = MonitorTracker::new(vec![]);
    assert!(tracker.snapshot(&platform, NOW, false).is_none());
}

#[test]
fn snapshot_returns_single_monitor() {
    let m = mon(0, 0, 1920, 1080);
    let platform = FakePlatform::new(None, None, vec![m]);
    let tracker = MonitorTracker::new(vec![m]);
    let result = tracker.snapshot(&platform, NOW, false).unwrap();
    assert_eq!(*result.bounds(), m);
}

#[test]
fn snapshot_uses_fresh_cursor_query() {
    let m_a = mon(0, 0, 1920, 1080);
    let m_b = mon(1920, 0, 2560, 1440);
    let platform = FakePlatform::new(Some((2000, 500)), None, vec![m_a, m_b]);
    let tracker = MonitorTracker::new(vec![m_a, m_b]);
    let result = tracker.snapshot(&platform, NOW, false).unwrap();
    assert_eq!(*result.bounds(), m_b);
}

#[test]
fn snapshot_ignores_platform_focus_query() {
    // The platform reports a focused window on m_a, but a snapshot does
    // not ask for it, so the pointer on m_b wins.
    let m_a = mon(0, 0, 1920, 1080);
    let m_b = mon(1920, 0, 2560, 1440);
    let window_on_a = mon(100, 100, 800, 600);
    let platform = FakePlatform::new(Some((2000, 500)), Some(window_on_a), vec![m_a, m_b]);
    let tracker = MonitorTracker::new(vec![m_a, m_b]);
    let result = tracker.snapshot(&platform, NOW, false).unwrap();
    assert_eq!(*result.bounds(), m_b);
}

#[test]
fn snapshot_never_calls_the_focus_query() {
    let m_a = mon(0, 0, 1920, 1080);
    let m_b = mon(1920, 0, 2560, 1440);
    let window_on_a = mon(100, 100, 800, 600);
    let platform = FakePlatform::new(Some((2000, 500)), Some(window_on_a), vec![m_a, m_b]);
    let tracker = MonitorTracker::new(vec![m_a, m_b]);
    for round in 0..5 {
        tracker.snapshot(&platform, NOW + round, round % 2 == 0);
    }
    assert_eq!(platform.focus_calls.load(Ordering::SeqCst), 0);
    assert_eq!(platform.cursor_calls.load(Ordering::SeqCst), 5);
    // A snapshot leaves the stored state alone as well.
    assert!(tracker.state.cursor.is_none());
    assert!(tracker.state.focus.is_none());
}

#[test]
fn snapshot_with_one_monitor_consults_no_signal() {
    let m = mon(0, 0, 1920, 1080);
    let elsewhere = mon(5000, 5000, 100, 100);
    let platform = FakePlatform::new(Some((5050, 5050)), Some(elsewhere), vec![m]);
    let mut tracker = MonitorTracker::new(vec![m]);
    tracker.state.update_cursor(elsewhere, 1, true);
    tracker.state.update_focus(Some(elsewhere), 2);
    let result = tracker.snapshot(&platform, NOW, false).unwrap();
    assert_eq!(*result.bounds(), m);
    assert_eq!(platform.cursor_calls.load(Ordering::SeqCst), 0);
    assert_eq!(platform.focus_calls.load(Ordering::SeqCst), 0);
}

#[test]
fn snapshot_uses_background_polled_focus() {
    let m_a = mon(0, 0, 1920, 1080);
    let m_b = mon(1920, 0, 2560, 1440);
    let platform = FakePlatform::new(Some((2000, 500)), None, vec![m_a, m_b]);
    let mut tracker = MonitorTracker::new(vec![m_a, m_b]);

    // The background loop has stored the pointer on m_b first, then the
    // focus on m_a more recently.
    tracker.state.update_cursor(m_b, NOW - 2 * SECOND, true);
    tracker.state.update_focus(Some(m_a), NOW - SECOND);

    let result = tracker.snapshot(&platform, NOW, false).unwrap();
    // The pointer is still on m_b, so its timestamp is kept, and the
    // focus on m_a is newer.
    assert_eq!(*result.bounds(), m_a);
}

#[test]
fn snapshot_cursor_move_overrides_stale_focus() {
    let m_a = mon(0, 0, 1920, 1080);
    let m_b = mon(1920, 0, 2560, 1440);
    let platform = FakePlatform::new(Some((2000, 500)), None, vec![m_a, m_b]);
    let mut tracker = MonitorTracker::new(vec![m_a, m_b]);

    tracker.state.update_focus(Some(m_a), NOW - 5 * SECOND);

    let result = tracker.snapshot(&platform, NOW, false).unwrap();
    assert_eq!(*result.bounds(), m_b);
}

#[test]
fn snapshot_prefers_cursor_when_launcher_is_visible() {
    let m_a = mon(0, 0, 1920, 1080);
    let m_b = mon(1920, 0, 2560, 1440);
    let platform = FakePlatform::new(Some((2000, 500)), None, vec![m_a, m_b]);
    let mut tracker = MonitorTracker::new(vec![m_a, m_b]);

    tracker.state.update_cursor(m_b, NOW - 5 * SECOND, true);
    tracker.state.update_focus(Some(m_a), NOW - SECOND);

    let result = tracker.snapshot(&platform, NOW, true).unwrap();
    assert_eq!(*result.bounds(), m_b);
    // The same state with the overlay hidden lets the newer focus win.
    let result = tracker.snapshot(&platform, NOW, false).unwrap();
    assert_eq!(*result.bounds(), m_a);
}

#[test]
fn snapshot_falls_back_to_first_monitor() {
    let m_a = mon(0, 0, 1920, 1080);
    let m_b = mon(1920, 0, 2560, 1440);
    let platform = FakePlatform::new(None, None, vec![m_a, m_b]);
    let tracker = MonitorTracker::new(vec![m_a, m_b]);
    let result = tracker.snapshot(&platform, NOW, false).unwrap();
    assert_eq!(*result.bounds(), m_a);
}

#[test]
fn snapshot_with_pointer_off_every_monitor_keeps_stored_signal() {
    let m_a = mon(0, 0, 1920, 1080);
    let m_b = mon(1920, 0, 2560, 1440);
    let mut tracker = MonitorTracker::new(vec![m_a, m_b]);
    tracker.state.update_cursor(m_b, 5, true);
    let result = tracker.snapshot_with(Some((-10, -10)), NOW, false).unwrap();
    assert_eq!(*result.bounds(), m_b);
}

#[test]
fn force_focus_update_records_the_window_monitor() {
    let m_a = mon(0, 0, 1920, 1080);
    let m_b = mon(1920, 0, 2560, 1440);
    let window_on_b = mon(2000, 100, 800, 600);
    let platform = FakePlatform::new(Some((10, 10)), Some(window_on_b), vec![m_a, m_b]);
    let mut tracker = MonitorTracker::new(vec![m_a, m_b]);
    tracker.state.update_cursor(m_a, NOW - SECOND, true);

    tracker.force_focus_update(&platform, NOW);
    assert_eq!(platform.focus_calls.load(Ordering::SeqCst), 1);
    let focus = tracker.state.focus.unwrap();
    assert_eq!(*focus.monitor.bounds(), m_b);
    assert_eq!(focus.at, NOW);
    // The next snapshot reflects it: the pointer is still on m_a with its
    // older stamp.
    let result = tracker.snapshot(&platform, NOW + 1, false).unwrap();
    assert_eq!(*result.bounds(), m_b);

    // No focused window clears the signal.
    *platform.focus.lock().unwrap() = None;
    tracker.force_focus_update(&platform, NOW + 2);
    assert!(tracker.state.focus.is_none());
    // A window that lies on no monitor clears it too.
    tracker.force_focus_update_with(Some(window_on_b), NOW + 3);
    tracker.force_focus_update_with(Some(mon(9000, 9000, 5, 5)), NOW + 4);
    assert!(tracker.state.focus.is_none());
}

#[test]
fn poll_tick_reports_activity_and_signal_changes() {
    let m_a = mon(0, 0, 1920, 1080);
    let m_b = mon(1920, 0, 2560, 1440);
    let monitors = vec![m_a, m_b];
    let mut state = InputState::default();
    let mut last = None;

    // First sample: the pointer appears on m_a, committed.
    let tick = poll_tick_with(&mut state, &monitors, Some((10, 10)), None, true, true, 1, &mut last);
    assert_eq!(tick, TickResult { activity: true, signal_changed: true });
    assert_eq!(last, Some((10, 10)));
    assert_eq!(state.cursor.unwrap().at, 1);

    // The pointer rests: one pixel of jitter is no activity.
    let tick = poll_tick_with(&mut state, &monitors, Some((11, 9)), None, true, true, 2, &mut last);
    assert_eq!(tick, TickResult { activity: false, signal_changed: false });

    // The pointer moves within the monitor: activity without a change.
    let tick = poll_tick_with(&mut state, &monitors, Some((13, 9)), None, true, true, 3, &mut last);
    assert_eq!(tick, TickResult { activity: true, signal_changed: false });
    assert_eq!(state.cursor.unwrap().at, 1);

    // The pointer crosses to m_b while uncommitted: activity, state kept.
    let tick = poll_tick_with(&mut state, &monitors, Some((2000, 9)), None, false, true, 4, &mut last);
    assert_eq!(tick, TickResult { activity: true, signal_changed: false });
    assert_eq!(*state.cursor.unwrap().monitor.bounds(), m_a);

    // It stays there and the observation commits.
    let tick = poll_tick_with(&mut state, &monitors, Some((2000, 9)), None, true, true, 5, &mut last);
    assert_eq!(tick, TickResult { activity: true, signal_changed: true });
    assert_eq!(*state.cursor.unwrap().monitor.bounds(), m_b);
    assert_eq!(state.cursor.unwrap().at, 5);

    // A focused window shows up on m_a.
    let window = mon(100, 100, 800, 600);
    let tick = poll_tick_with(&mut state, &monitors, Some((2000, 9)), Some(window), true, true, 6, &mut last);
    assert_eq!(tick, TickResult { activity: true, signal_changed: true });
    assert_eq!(*state.focus.unwrap().monitor.bounds(), m_a);

    // Without the focus query the focus signal is cleared.
    let tick = poll_tick_with(&mut state, &monitors, Some((2000, 9)), Some(window), true, false, 7, &mut last);
    assert_eq!(tick, TickResult { activity: true, signal_changed: true });
    assert!(state.focus.is_none());

    // The pointer vanishes: no activity, and the last position is forgotten.
    let tick = poll_tick_with(&mut state, &monitors, None, None, true, false, 8, &mut last);
    assert_eq!(tick, TickResult { activity: false, signal_changed: false });
    assert_eq!(last, None);
}

#[test]
fn poll_tick_asks_for_focus_only_when_allowed() {
    let m_a = mon(0, 0, 1920, 1080);
    let m_b = mon(1920, 0, 2560, 1440);
    let monitors = vec![m_a, m_b];
    let platform = FakePlatform::new(Some((10, 10)), Some(mon(2000, 0, 100, 100)), monitors.clone());
    let mut state = InputState::default();
    let mut last = None;

    poll_tick(&platform, &mut state, &monitors, true, false, 1, &mut last);
    assert_eq!(platform.focus_calls.load(Ordering::SeqCst), 0);
    assert!(state.focus.is_none());

    poll_tick(&platform, &mut state, &monitors, true, true, 2, &mut last);
    assert_eq!(platform.focus_calls.load(Ordering::SeqCst), 1);
    assert_eq!(*state.focus.unwrap().monitor.bounds(), m_b);
    assert_eq!(platform.cursor_calls.load(Ordering::SeqCst), 2);
}

#[test]
fn resolve_monitors_prefers_native_list_with_several_displays() {
    let a = mon(0, 0, 1920, 1080);
    let b = mon(1920, 0, 2560, 1440);
    let c = mon(0, 0, 1000, 1000);
    let one = vec![c];
    let two = vec![a, b];
    let other_two = vec![b, a];

    // macOS: the native list wins when it has several displays.
    assert_eq!(resolve_monitors_with(HostOs::MacOs, two.clone(), other_two.clone()), two);
    assert_eq!(resolve_monitors_with(HostOs::MacOs, one.clone(), other_two.clone()), other_two);
    assert_eq!(resolve_monitors_with(HostOs::MacOs, vec![], one.clone()), one);
    // Linux: the generic list wins when it has several displays.
    assert_eq!(resolve_monitors_with(HostOs::Linux, two.clone(), other_two.clone()), other_two);
    assert_eq!(resolve_monitors_with(HostOs::Linux, two.clone(), one.clone()), two);
    assert_eq!(resolve_monitors_with(HostOs::Linux, one.clone(), vec![]), Vec::<Rect>::new());
    // Elsewhere the native list is never used.
    assert_eq!(resolve_monitors_with(HostOs::Other, two.clone(), one.clone()), one);
    assert_eq!(resolve_monitors_with(HostOs::Other, two.clone(), vec![]), Vec::<Rect>::new());
}

#[test]
fn resolve_monitors_asks_the_platform_only_where_needed() {
    let a = mon(0, 0, 1920, 1080);
    let b = mon(1920, 0, 2560, 1440);
    let platform = FakePlatform::new(None, None, vec![a, b]);

    assert_eq!(resolve_monitors(&platform, HostOs::Linux, vec![b, a]), vec![b, a]);
    assert_eq!(platform.monitor_calls.load(Ordering::SeqCst), 0);
    assert_eq!(resolve_monitors(&platform, HostOs::Other, vec![b]), vec![b]);
    assert_eq!(platform.monitor_calls.load(Ordering::SeqCst), 0);
    assert_eq!(resolve_monitors(&platform, HostOs::Linux, vec![b]), vec![a, b]);
    assert_eq!(platform.monitor_calls.load(Ordering::SeqCst), 1);
    assert_eq!(resolve_monitors(&platform, HostOs::MacOs, vec![b, a]), vec![a, b]);
    assert_eq!(platform.monitor_calls.load(Ordering::SeqCst), 2);
}

#[test]
fn platform_is_safe_to_poll_unless_it_says_otherwise() {
    assert!(DefaultSafety.poll_focused_window());
    let mut fake = FakePlatform::new(None, None, vec![]);
    fake.background_safe = false;
    assert!(!fake.poll_focused_window());
}

fn config(min: u64, max: u64, commit: u64, strategy: &str) -> MonitorConfig {
    MonitorConfig {
        poll_min_ms: min,
        poll_max_ms: max,
        commit_threshold_ms: commit,
        strategy: strategy.to_string(),
    }
}

#[test]
fn poll_loop_plans_by_interval_and_visibility() {
    let l = PollLoop::new(config(16, 500, 128, "basic"), 0);
    assert_eq!(l.current_interval(), Interval::from_millis(500));
    assert_eq!(
        l.plan(0, true, false),
        PollAction::WaitForMonitors { delay: Interval::from_secs(1) }
    );
    // At the upper bound the loop is slow enough to commit.
    assert_eq!(l.plan(2, true, true), PollAction::Sample { committed: true, poll_focus: true });
    assert_eq!(l.plan(2, false, true), PollAction::Sample { committed: true, poll_focus: false });
    assert_eq!(l.plan(2, false, false), PollAction::Sample { committed: true, poll_focus: true });
}

#[test]
fn poll_loop_commits_only_at_or_above_the_threshold() {
    let mut l = PollLoop::new(config(16, 512, 128, "basic"), 0);
    let busy = TickResult { activity: true, signal_changed: false };
    assert_eq!(l.finish(busy, None), Interval::from_millis(256));
    assert_eq!(l.plan(1, true, false), PollAction::Sample { committed: true, poll_focus: true });
    assert_eq!(l.finish(busy, None), Interval::from_millis(128));
    assert_eq!(l.plan(1, true, false), PollAction::Sample { committed: true, poll_focus: true });
    assert_eq!(l.finish(busy, None), Interval::from_millis(64));
    assert_eq!(l.plan(1, true, false), PollAction::Sample { committed: false, poll_focus: true });
}

#[test]
fn poll_loop_reads_config_once_a_second() {
    let l = PollLoop::new(config(16, 500, 128, "basic"), 5 * SECOND);
    assert!(!l.config_due(5 * SECOND));
    assert!(!l.config_due(6 * SECOND - 1));
    assert!(l.config_due(6 * SECOND));
    assert!(l.config_due(60 * SECOND));
    // A clock that ran backwards never makes the reading due.
    assert!(!l.config_due(0));
}

#[test]
fn poll_loop_applies_changed_config_without_resetting_interval() {
    let mut l = PollLoop::new(config(16, 500, 128, "basic"), 0);
    let busy = TickResult { activity: true, signal_changed: false };
    assert_eq!(l.finish(busy, Some((1, 1))), Interval::from_millis(250));

    // The same configuration only moves the time of the last reading.
    l.apply_config(config(16, 500, 128, "basic"), 2 * SECOND);
    assert_eq!(l.current_interval(), Interval::from_millis(250));
    assert!(!l.config_due(2 * SECOND + 1));
    assert!(l.config_due(3 * SECOND));

    // New bounds that still hold the interval keep it.
    l.apply_config(config(100, 1000, 300, "momentum"), 3 * SECOND);
    assert_eq!(l.current_interval(), Interval::from_millis(250));
    assert_eq!(l.config().poll_max_ms, 1000);
    assert_eq!(l.config().strategy, "momentum");
    assert_eq!(l.plan(1, true, false), PollAction::Sample { committed: false, poll_focus: true });

    // Bounds that lie below it pull it down to the new upper bound.
    l.apply_config(config(10, 200, 300, "momentum"), 4 * SECOND);
    assert_eq!(l.current_interval(), Interval::from_millis(200));

    // Crossed bounds and a blank strategy are repaired before use.
    l.apply_config(config(900, 100, 64, "   "), 5 * SECOND);
    assert_eq!(*l.config(), config(16, 500, 64, "basic"));
    assert_eq!(l.current_interval(), Interval::from_millis(200));
}

#[test]
fn poll_loop_starts_from_normalized_config() {
    let l = PollLoop::new(config(700, 100, 128, ""), 0);
    assert_eq!(*l.config(), MonitorConfig::default());
    assert_eq!(l.current_interval(), Interval::from_millis(500));
}

#[test]
fn poll_once_waits_a_second_without_monitors() {
    let platform = FakePlatform::new(Some((1, 1)), Some(mon(0, 0, 5, 5)), vec![]);
    let mut l = PollLoop::new(config(16, 500, 128, "basic"), 0);
    let mut state = InputState::default();
    let sleep = l.poll_once(&platform, &mut state, &[], false, SECOND);
    assert_eq!(sleep, Interval::from_secs(1));
    assert_eq!(l.current_interval(), Interval::from_millis(500));
    assert_eq!(platform.cursor_calls.load(Ordering::SeqCst), 0);
    assert_eq!(platform.focus_calls.load(Ordering::SeqCst), 0);
    assert!(state.cursor.is_none());
}

#[test]
fn poll_once_never_asks_for_focus_while_unsafe_and_visible() {
    let m_a = mon(0, 0, 1920, 1080);
    let m_b = mon(1920, 0, 2560, 1440);
    let monitors = vec![m_a, m_b];
    let mut platform = FakePlatform::new(Some((10, 10)), Some(mon(2000, 0, 100, 100)), monitors.clone());
    platform.background_safe = false;
    let mut l = PollLoop::new(config(16, 500, 128, "basic"), 0);
    let mut state = InputState::default();

    // Hidden overlay: the focus may be asked for.
    let sleep = l.poll_once(&platform, &mut state, &monitors, false, SECOND);
    assert_eq!(platform.focus_calls.load(Ordering::SeqCst), 1);
    assert_eq!(*state.focus.unwrap().monitor.bounds(), m_b);
    assert_eq!(*state.cursor.unwrap().monitor.bounds(), m_a);
    assert_eq!(sleep, Interval::from_millis(250));

    // Visible overlay: no query, and the focus signal is cleared.
    let sleep = l.poll_once(&platform, &mut state, &monitors, true, 2 * SECOND);
    assert_eq!(platform.focus_calls.load(Ordering::SeqCst), 1);
    assert!(state.focus.is_none());
    assert_eq!(sleep, Interval::from_millis(125));

    // Nothing happens any more: the loop slows down again.
    let sleep = l.poll_once(&platform, &mut state, &monitors, true, 3 * SECOND);
    assert_eq!(sleep, Interval::from_millis(250));
    let sleep = l.poll_once(&platform, &mut state, &monitors, true, 4 * SECOND);
    assert_eq!(sleep, Interval::from_millis(500));
}

#[test]
fn poll_once_gates_pointer_commits_by_the_interval() {
    let m_a = mon(0, 0, 1920, 1080);
    let m_b = mon(1920, 0, 2560, 1440);
    let monitors = vec![m_a, m_b];
    let platform = FakePlatform::new(Some((10, 10)), None, monitors.clone());
    let mut l = PollLoop::new(config(16, 500, 128, "basic"), 0);
    let mut state = InputState::default();

    // 500 ms: committed. The pointer lands on m_a.
    l.poll_once(&platform, &mut state, &monitors, false, 1);
    assert_eq!(*state.cursor.unwrap().monitor.bounds(), m_a);
    // Keep the pointer moving so that the loop speeds up: 250, 125, 62.5 ms.
    for (step, x) in [(2u64, 20), (3, 30), (4, 40)] {
        *platform.cursor.lock().unwrap() = Some((x, 10));
        l.poll_once(&platform, &mut state, &monitors, false, step);
    }
    assert_eq!(l.current_interval().as_nanos(), 31_250_000);
    // Now the pointer passes over m_b: too fast to commit.
    *platform.cursor.lock().unwrap() = Some((2000, 10));
    l.poll_once(&platform, &mut state, &monitors, false, 5);
    assert_eq!(*state.cursor.unwrap().monitor.bounds(), m_a);
    assert_eq!(state.cursor.unwrap().at, 1);
}
