//! The decisions of the background loop. The loop itself, which sleeps
//! and reads the configuration, belongs to the caller: it asks this
//! module what to do next and reports back what it found.

use vstd::prelude::*;
use crate::monitor::config::{strategy_from_name, strategy_named, MonitorConfig, MonitorConfigView};
use crate::monitor::geometry::Rect;
use crate::monitor::interval::{Interval, NANOS_PER_MILLI, NANOS_PER_SEC};
use crate::monitor::platform::{HostOs, PlatformQueries};
use crate::monitor::poller::{AdaptivePoller, PollStrategy, PollerModel};
use crate::monitor::state::{InputState, InputStateView, Timestamp};
use crate::monitor::tracker::{
    cursor_moved,
    poll_tick_with,
    resolve_monitors,
    resolved_monitors,
    sampled,
    signal_changed,
    MonitorTracker,
    TickResult,
};

verus! {

/// The nanoseconds between two readings of the configuration.
pub const CONFIG_REFRESH_NANOS: u64 = 1_000_000_000;

/// What the loop does in an iteration.
#[derive(Clone, Copy, Debug, PartialEq, Eq, Structural)]
pub enum PollAction {
    /// No monitor is known: sleep for `delay` and look again.
    WaitForMonitors { delay: Interval },
    /// Sample the pointer, and the focused window if `poll_focus` is set.
    Sample { committed: bool, poll_focus: bool },
}

/// What the background loop keeps from one iteration to the next.
pub struct PollLoop {
    active_config: MonitorConfig,
    poller: AdaptivePoller,
    commit_threshold: Interval,
    last_config_refresh: Timestamp,
    last_cursor_pos: Option<(i32, i32)>,
}

/// The loop's state, intervals in nanoseconds.
pub struct PollLoopView {
    pub config: MonitorConfigView,
    pub poller: PollerModel,
    pub commit_threshold: int,
    pub last_config_refresh: Timestamp,
    pub last_cursor_pos: Option<(i32, i32)>,
}

/// The nanoseconds in a number of milliseconds.
pub open spec fn millis(ms: u64) -> int {
    ms * NANOS_PER_MILLI
}

impl PollLoopView {
    /// The state that a loop starts in: the configuration is normalized,
    /// the poller is at its upper bound and runs the named strategy.
    pub open spec fn start(config: MonitorConfigView, now: Timestamp) -> PollLoopView {
        let active = config.normalized();
        PollLoopView {
            config: active,
            poller: PollerModel {
                strategy: strategy_named(active.strategy),
                current: millis(active.poll_max_ms),
                min: millis(active.poll_min_ms),
                max: millis(active.poll_max_ms),
            },
            commit_threshold: millis(active.commit_threshold_ms),
            last_config_refresh: now,
            last_cursor_pos: None,
        }
    }

    /// The poller keeps its interval within its bounds.
    pub open spec fn wf(self) -> bool {
        self.poller.wf()
    }

    /// A second or more has passed since the configuration was read.
    pub open spec fn config_due(self, now: Timestamp) -> bool {
        now - self.last_config_refresh >= CONFIG_REFRESH_NANOS
    }

    /// The state after the configuration was read again at `now`. A
    /// configuration that, once normalized, differs from the active one
    /// takes its place: the poller gets the new bounds and a fresh
    /// strategy and keeps its interval as far as the bounds allow.
    pub open spec fn reloaded(self, latest: MonitorConfigView, now: Timestamp) -> PollLoopView {
        let next = latest.normalized();
        if next == self.config {
            PollLoopView { last_config_refresh: now, ..self }
        } else {
            PollLoopView {
                config: next,
                poller: self.poller.reconfigure(
                    millis(next.poll_min_ms),
                    millis(next.poll_max_ms),
                    strategy_named(next.strategy),
                ),
                commit_threshold: millis(next.commit_threshold_ms),
                last_config_refresh: now,
                last_cursor_pos: self.last_cursor_pos,
            }
        }
    }

    /// Pointer transitions may commit: the loop has slowed down to the
    /// commit threshold or beyond.
    pub open spec fn committed(self) -> bool {
        self.poller.current >= self.commit_threshold
    }

    /// The state after a sample was fed in and the poller advanced.
    pub open spec fn ticked(self, activity: bool, cursor_pos: Option<(i32, i32)>) -> PollLoopView {
        PollLoopView { poller: self.poller.tick(activity), last_cursor_pos: cursor_pos, ..self }
    }
}

/// Whether the focused window may be asked for in this iteration: always
/// where the platform allows it from the background, else only while no
/// window of the program is visible.
pub open spec fn may_poll_focus(poll_focus_safe: bool, any_visible: bool) -> bool {
    poll_focus_safe || !any_visible
}

/// The input state that an iteration leaves behind, given what the
/// platform answered. Without monitors nothing changes.
pub open spec fn iteration_state(
    before: PollLoopView,
    state: InputStateView,
    monitors: Seq<Rect>,
    cursor_pos: Option<(i32, i32)>,
    window: Option<Rect>,
    poll_focus_safe: bool,
    any_visible: bool,
    now: Timestamp,
) -> InputStateView {
    if monitors.len() == 0 {
        state
    } else {
        sampled(
            state,
            monitors,
            cursor_pos,
            window,
            before.committed(),
            may_poll_focus(poll_focus_safe, any_visible),
            now,
        )
    }
}

/// The loop's state after an iteration. Without monitors nothing changes.
pub open spec fn iteration_loop(
    before: PollLoopView,
    state: InputStateView,
    monitors: Seq<Rect>,
    cursor_pos: Option<(i32, i32)>,
    window: Option<Rect>,
    poll_focus_safe: bool,
    any_visible: bool,
    now: Timestamp,
) -> PollLoopView {
    if monitors.len() == 0 {
        before
    } else {
        let after = iteration_state(
            before,
            state,
            monitors,
            cursor_pos,
            window,
            poll_focus_safe,
            any_visible,
            now,
        );
        before.ticked(
            cursor_moved(cursor_pos, before.last_cursor_pos) || signal_changed(state, after),
            cursor_pos,
        )
    }
}

/// How long the loop sleeps after an iteration, in nanoseconds: a second
/// without monitors, else the poller's new interval.
pub open spec fn iteration_sleep(after: PollLoopView, monitors: Seq<Rect>) -> int {
    if monitors.len() == 0 {
        NANOS_PER_SEC as int
    } else {
        after.poller.current
    }
}

impl View for PollLoop {
    type V = PollLoopView;

    closed spec fn view(&self) -> PollLoopView {
        PollLoopView {
            config: self.active_config@,
            poller: self.poller@,
            commit_threshold: self.commit_threshold@ as int,
            last_config_refresh: self.last_config_refresh,
            last_cursor_pos: self.last_cursor_pos,
        }
    }
}

impl PollLoop {
    /// The loop's state at its start.
    pub fn new(config: MonitorConfig, now: Timestamp) -> (l: PollLoop)
        ensures
            l@ == PollLoopView::start(config@, now),
            l@.wf(),
    {
        let active = config.normalized();
        let strategy = strategy_from_name(active.strategy.as_str());
        let poller = AdaptivePoller::new(
            Interval::from_millis(active.poll_min_ms),
            Interval::from_millis(active.poll_max_ms),
            strategy,
        );
        let commit_threshold = Interval::from_millis(active.commit_threshold_ms);
        PollLoop {
            active_config: active,
            poller,
            commit_threshold,
            last_config_refresh: now,
            last_cursor_pos: None,
        }
    }

    /// The configuration in force.
    pub fn config(&self) -> (config: &MonitorConfig)
        ensures
            config@ == self@.config,
    {
        &self.active_config
    }

    /// The interval that the loop last chose.
    pub fn current_interval(&self) -> (current: Interval)
        ensures
            current@ == self@.poller.current,
    {
        self.poller.current()
    }

    /// Where the pointer was at the last sample.
    pub fn last_cursor_pos(&self) -> (pos: Option<(i32, i32)>)
        ensures
            pos == self@.last_cursor_pos,
    {
        self.last_cursor_pos
    }

    /// Whether it is time to read the configuration again.
    pub fn config_due(&self, now: Timestamp) -> (due: bool)
        ensures
            due == self@.config_due(now),
    {
        now >= self.last_config_refresh && now - self.last_config_refresh >= CONFIG_REFRESH_NANOS
    }

    /// Takes in the configuration that was just read.
    pub fn apply_config(&mut self, latest: MonitorConfig, now: Timestamp)
        requires
            old(self)@.wf(),
        ensures
            final(self)@ == old(self)@.reloaded(latest@, now),
            final(self)@.wf(),
    {
        let next = latest.normalized();
        if !next.same_as(&self.active_config) {
            self.commit_threshold = Interval::from_millis(next.commit_threshold_ms);
            self.poller.reconfigure(
                Interval::from_millis(next.poll_min_ms),
                Interval::from_millis(next.poll_max_ms),
                strategy_from_name(next.strategy.as_str()),
            );
            self.active_config = next;
        }
        self.last_config_refresh = now;
    }

    /// What to do in this iteration.
    pub fn plan(
        &self,
        monitor_count: usize,
        poll_focus_safe: bool,
        any_visible: bool,
    ) -> (action: PollAction)
        ensures
            monitor_count == 0 ==> action == (PollAction::WaitForMonitors {
                delay: Interval { nanos: NANOS_PER_SEC },
            }),
            monitor_count != 0 ==> action == (PollAction::Sample {
                committed: self@.committed(),
                poll_focus: may_poll_focus(poll_focus_safe, any_visible),
            }),
    {
        if monitor_count == 0 {
            PollAction::WaitForMonitors { delay: Interval::from_secs(1) }
        } else {
            PollAction::Sample {
                committed: self.poller.current().nanos >= self.commit_threshold.nanos,
                poll_focus: poll_focus_safe || !any_visible,
            }
        }
    }

    /// Feeds in what a sample found, advances the poller and returns the
    /// interval to sleep for.
    pub fn finish(&mut self, tick: TickResult, cursor_pos: Option<(i32, i32)>) -> (sleep: Interval)
        requires
            old(self)@.wf(),
        ensures
            final(self)@ == old(self)@.ticked(tick.activity, cursor_pos),
            final(self)@.wf(),
            sleep@ == final(self)@.poller.current,
    {
        self.last_cursor_pos = cursor_pos;
        self.poller.tick(tick.activity)
    }

    /// One iteration on answers that the caller obtained from the
    /// platform: decides, feeds the sample into the input state, advances
    /// the poller and returns the interval to sleep for.
    pub fn poll_once_with(
        &mut self,
        state: &mut InputState,
        monitors: &[Rect],
        cursor_pos: Option<(i32, i32)>,
        window: Option<Rect>,
        poll_focus_safe: bool,
        any_visible: bool,
        now: Timestamp,
    ) -> (sleep: Interval)
        requires
            old(self)@.wf(),
        ensures
            final(state)@ == iteration_state(
                old(self)@,
                old(state)@,
                monitors@,
                cursor_pos,
                window,
                poll_focus_safe,
                any_visible,
                now,
            ),
            final(self)@ == iteration_loop(
                old(self)@,
                old(state)@,
                monitors@,
                cursor_pos,
                window,
                poll_focus_safe,
                any_visible,
                now,
            ),
            final(self)@.wf(),
            sleep@ == iteration_sleep(final(self)@, monitors@),
    {
        match self.plan(monitors.len(), poll_focus_safe, any_visible) {
            PollAction::WaitForMonitors { delay } => delay,
            PollAction::Sample { committed, poll_focus } => {
                let mut last = self.last_cursor_pos;
                let tick = poll_tick_with(
                    state,
                    monitors,
                    cursor_pos,
                    window,
                    committed,
                    poll_focus,
                    now,
                    &mut last,
                );
                self.finish(tick, cursor_pos)
            },
        }
    }

    /// One iteration of the background loop, short of sleeping and of
    /// reading the configuration. The platform is asked for the pointer,
    /// and for the focused window only where that is safe or no window of
    /// the program is visible.
    pub fn poll_once<P: PlatformQueries>(
        &mut self,
        platform: &P,
        state: &mut InputState,
        monitors: &[Rect],
        any_visible: bool,
        now: Timestamp,
    ) -> (sleep: Interval)
        requires
            old(self)@.wf(),
        ensures
            exists|cursor_pos: Option<(i32, i32)>, window: Option<Rect>, poll_focus_safe: bool|
                {
                    &&& final(state)@ == iteration_state(
                        old(self)@,
                        old(state)@,
                        monitors@,
                        cursor_pos,
                        window,
                        poll_focus_safe,
                        any_visible,
                        now,
                    )
                    &&& final(self)@ == iteration_loop(
                        old(self)@,
                        old(state)@,
                        monitors@,
                        cursor_pos,
                        window,
                        poll_focus_safe,
                        any_visible,
                        now,
                    )
                },
            monitors@.len() == 0 ==> final(state)@ == old(state)@ && final(self)@ == old(self)@,
            final(self)@.wf(),
            sleep@ == iteration_sleep(final(self)@, monitors@),
    {
        if monitors.len() == 0 {
            return self.poll_once_with(state, monitors, None, None, true, any_visible, now);
        }
        let poll_focus_safe = platform.poll_focused_window();
        let cursor_pos = platform.cursor_position();
        let window = if poll_focus_safe || !any_visible {
            platform.focused_window_bounds()
        } else {
            None
        };
        self.poll_once_with(state, monitors, cursor_pos, window, poll_focus_safe, any_visible, now)
    }
}

impl MonitorTracker {
    /// Sets a tracker up: settles the list of monitors, starts with no
    /// signal seen, and hands out the state with which the background
    /// loop begins. Running that loop is the caller's part.
    pub fn start_with_config<P: PlatformQueries>(
        platform: &P,
        os: HostOs,
        displays: Vec<Rect>,
        config: MonitorConfig,
        now: Timestamp,
    ) -> (started: (MonitorTracker, PollLoop))
        ensures
            exists|native: Seq<Rect>|
                started.0.monitors@ == resolved_monitors(os, native, displays@),
            started.0.state.cursor is None,
            started.0.state.focus is None,
            started.1@ == PollLoopView::start(config@, now),
            started.1@.wf(),
    {
        let monitors = resolve_monitors(platform, os, displays);
        (MonitorTracker::new(monitors), PollLoop::new(config, now))
    }
}

} // verus!
