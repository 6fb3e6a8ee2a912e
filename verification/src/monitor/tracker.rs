//! The tracker: what a snapshot answers, what one background tick does to
//! the input state, and which list of monitors the tracker starts with.

use vstd::prelude::*;
use crate::monitor::geometry::{
    bounds_monitor,
    monitor_for_bounds,
    monitor_for_point,
    point_monitor,
    Rect,
};
use crate::monitor::platform::{HostOs, PlatformQueries};
use crate::monitor::state::{
    bounds_of,
    pick_active_monitor,
    signal_bounds,
    ActiveMonitor,
    InputState,
    InputStateView,
    Timestamp,
};

verus! {

/// The monitor under the pointer, if the pointer's position is known and
/// lies on a monitor.
pub open spec fn located(monitors: Seq<Rect>, cursor: Option<(i32, i32)>) -> Option<Rect> {
    match cursor {
        Some(p) => point_monitor(monitors, p.0 as int, p.1 as int),
        None => None,
    }
}

/// The monitor of the focused window, if there is such a window and it
/// lies on a monitor.
pub open spec fn focused(monitors: Seq<Rect>, window: Option<Rect>) -> Option<Rect> {
    match window {
        Some(w) => bounds_monitor(monitors, w),
        None => None,
    }
}

/// The input state once the pointer, where it lies on a monitor, was
/// recorded.
pub open spec fn with_pointer(
    state: InputStateView,
    monitors: Seq<Rect>,
    cursor: Option<(i32, i32)>,
    now: Timestamp,
    committed: bool,
) -> InputStateView {
    match located(monitors, cursor) {
        Some(m) => state.with_cursor(m, now, committed),
        None => state,
    }
}

/// The monitor that a snapshot answers with when there are two monitors
/// or more: the pointer is recorded as committed, the focus signal is left
/// out while the overlay is visible, and the two signals are fused with
/// the first monitor as the fallback.
pub open spec fn snapshot_choice(
    state: InputStateView,
    monitors: Seq<Rect>,
    cursor: Option<(i32, i32)>,
    now: Timestamp,
    launcher_visible: bool,
) -> Rect {
    let seen = with_pointer(state, monitors, cursor, now, true);
    let used = if launcher_visible {
        seen.without_focus()
    } else {
        seen
    };
    used.fuse(monitors[0])
}

/// What a snapshot answers with.
pub open spec fn snapshot_result(
    state: InputStateView,
    monitors: Seq<Rect>,
    cursor: Option<(i32, i32)>,
    now: Timestamp,
    launcher_visible: bool,
) -> Option<Rect> {
    if monitors.len() == 0 {
        None
    } else if monitors.len() == 1 {
        Some(monitors[0])
    } else {
        Some(snapshot_choice(state, monitors, cursor, now, launcher_visible))
    }
}

/// The rectangle of an active monitor, if there is one.
pub open spec fn active_bounds(active: Option<ActiveMonitor>) -> Option<Rect> {
    match active {
        Some(a) => Some(a@),
        None => None,
    }
}

/// Whether the pointer moved by more than a pixel, along either axis,
/// since the last sample. A first position counts as a move, a missing
/// one does not.
pub open spec fn cursor_moved(current: Option<(i32, i32)>, last: Option<(i32, i32)>) -> bool {
    match (current, last) {
        (Some(c), Some(l)) => c.0 - l.0 > 1 || l.0 - c.0 > 1 || c.1 - l.1 > 1 || l.1 - c.1 > 1,
        (Some(_), None) => true,
        _ => false,
    }
}

/// The input state after one background sample. The focus query counts
/// only when it was made: without it the focus signal is cleared.
pub open spec fn sampled(
    state: InputStateView,
    monitors: Seq<Rect>,
    cursor: Option<(i32, i32)>,
    window: Option<Rect>,
    committed: bool,
    poll_focus: bool,
    now: Timestamp,
) -> InputStateView {
    let target = if poll_focus {
        focused(monitors, window)
    } else {
        None
    };
    with_pointer(state, monitors, cursor, now, committed).with_focus(target, now)
}

/// Whether one of the two signals points to another monitor than before.
pub open spec fn signal_changed(before: InputStateView, after: InputStateView) -> bool {
    signal_bounds(before.cursor) != signal_bounds(after.cursor) || signal_bounds(before.focus)
        != signal_bounds(after.focus)
}

/// What one background tick found.
#[derive(Clone, Copy, Debug, PartialEq, Eq, Structural)]
pub struct TickResult {
    /// The pointer moved or a signal changed its monitor.
    pub activity: bool,
    /// A signal changed its monitor.
    pub signal_changed: bool,
}

fn same_bounds(a: Option<Rect>, b: Option<Rect>) -> (same: bool)
    ensures
        same == (a == b),
{
    match (a, b) {
        (Some(x), Some(y)) => x == y,
        (None, None) => true,
        _ => false,
    }
}

fn moved(current: Option<(i32, i32)>, last: Option<(i32, i32)>) -> (m: bool)
    ensures
        m == cursor_moved(current, last),
{
    match (current, last) {
        (Some(c), Some(l)) => {
            let dx: i64 = c.0 as i64 - l.0 as i64;
            let dy: i64 = c.1 as i64 - l.1 as i64;
            dx > 1 || dx < -1 || dy > 1 || dy < -1
        },
        (Some(_), None) => true,
        _ => false,
    }
}

/// Feeds one background sample into the input state: the pointer's
/// position, and the focused window's rectangle where it was asked for.
/// Says afterwards whether anything happened.
pub fn poll_tick_with(
    state: &mut InputState,
    monitors: &[Rect],
    cursor_pos: Option<(i32, i32)>,
    window: Option<Rect>,
    committed: bool,
    poll_focus: bool,
    now: Timestamp,
    last_cursor_pos: &mut Option<(i32, i32)>,
) -> (tick: TickResult)
    ensures
        final(state)@ == sampled(
            old(state)@,
            monitors@,
            cursor_pos,
            window,
            committed,
            poll_focus,
            now,
        ),
        *final(last_cursor_pos) == cursor_pos,
        tick.signal_changed == signal_changed(old(state)@, final(state)@),
        tick.activity == (cursor_moved(cursor_pos, *old(last_cursor_pos)) || tick.signal_changed),
{
    let cursor_moved = moved(cursor_pos, *last_cursor_pos);
    *last_cursor_pos = cursor_pos;

    let cursor_monitor = match cursor_pos {
        Some(p) => monitor_for_point(monitors, p.0, p.1),
        None => None,
    };
    let focus_monitor = if poll_focus {
        match window {
            Some(w) => monitor_for_bounds(monitors, &w),
            None => None,
        }
    } else {
        None
    };

    let cursor_before = bounds_of(&state.cursor);
    let focus_before = bounds_of(&state.focus);
    if let Some(monitor) = cursor_monitor {
        state.update_cursor(monitor, now, committed);
    }
    state.update_focus(focus_monitor, now);
    let changed = !same_bounds(cursor_before, bounds_of(&state.cursor)) || !same_bounds(
        focus_before,
        bounds_of(&state.focus),
    );

    TickResult { activity: cursor_moved || changed, signal_changed: changed }
}

/// One background tick: asks the platform where the pointer is and, only
/// if `poll_focus` allows it, which window is focused, and feeds the
/// answers into the input state.
pub fn poll_tick<P: PlatformQueries>(
    platform: &P,
    state: &mut InputState,
    monitors: &[Rect],
    committed: bool,
    poll_focus: bool,
    now: Timestamp,
    last_cursor_pos: &mut Option<(i32, i32)>,
) -> (tick: TickResult)
    ensures
        exists|cursor_pos: Option<(i32, i32)>, window: Option<Rect>|
            {
                &&& final(state)@ == sampled(
                    old(state)@,
                    monitors@,
                    cursor_pos,
                    window,
                    committed,
                    poll_focus,
                    now,
                )
                &&& *final(last_cursor_pos) == cursor_pos
                &&& tick.activity == (cursor_moved(cursor_pos, *old(last_cursor_pos))
                    || tick.signal_changed)
            },
        tick.signal_changed == signal_changed(old(state)@, final(state)@),
        !poll_focus ==> final(state)@.focus is None,
{
    let cursor_pos = platform.cursor_position();
    let window = if poll_focus {
        platform.focused_window_bounds()
    } else {
        None
    };
    poll_tick_with(state, monitors, cursor_pos, window, committed, poll_focus, now, last_cursor_pos)
}

/// The list of monitors that a tracker starts with: the platform's own
/// list where the platform is the better judge and reports more than one
/// display, else the generic list. On macOS the platform is asked first;
/// on Linux only when the generic list holds at most one display.
pub open spec fn resolved_monitors(os: HostOs, native: Seq<Rect>, generic: Seq<Rect>) -> Seq<Rect> {
    if os == HostOs::MacOs && native.len() > 1 {
        native
    } else if generic.len() > 1 {
        generic
    } else if os == HostOs::Linux && native.len() > 1 {
        native
    } else {
        generic
    }
}

/// Chooses between the platform's list of monitors and the generic one.
pub fn resolve_monitors_with(
    os: HostOs,
    native: Vec<Rect>,
    generic: Vec<Rect>,
) -> (monitors: Vec<Rect>)
    ensures
        monitors@ == resolved_monitors(os, native@, generic@),
{
    if os == HostOs::MacOs && native.len() > 1 {
        native
    } else if generic.len() > 1 {
        generic
    } else if os == HostOs::Linux && native.len() > 1 {
        native
    } else {
        generic
    }
}

/// Settles the list of monitors, asking the platform only where its
/// answer can matter.
pub fn resolve_monitors<P: PlatformQueries>(
    platform: &P,
    os: HostOs,
    generic: Vec<Rect>,
) -> (monitors: Vec<Rect>)
    ensures
        exists|native: Seq<Rect>| monitors@ == resolved_monitors(os, native, generic@),
        os == HostOs::Other ==> monitors@ == generic@,
        os == HostOs::Linux && generic@.len() > 1 ==> monitors@ == generic@,
        monitors@ != generic@ ==> monitors@.len() > 1,
{
    if os == HostOs::MacOs {
        let native = platform.physical_monitors();
        let ghost native_seq = native@;
        let monitors = resolve_monitors_with(os, native, generic);
        assert(monitors@ == resolved_monitors(os, native_seq, generic@));
        monitors
    } else if os == HostOs::Linux && generic.len() <= 1 {
        let native = platform.physical_monitors();
        let ghost native_seq = native@;
        let monitors = resolve_monitors_with(os, native, generic);
        assert(monitors@ == resolved_monitors(os, native_seq, generic@));
        monitors
    } else {
        assert(generic@ == resolved_monitors(os, Seq::<Rect>::empty(), generic@));
        generic
    }
}

/// The monitors and the input state that a tracker shares between its
/// background loop and its callers.
#[derive(Clone, Debug)]
pub struct MonitorTracker {
    pub state: InputState,
    pub monitors: Vec<Rect>,
}

impl MonitorTracker {
    /// A tracker on the given monitors that has seen no signal yet.
    pub fn new(monitors: Vec<Rect>) -> (tracker: MonitorTracker)
        ensures
            tracker.monitors@ == monitors@,
            tracker.state.cursor is None,
            tracker.state.focus is None,
    {
        MonitorTracker { state: InputState { focus: None, cursor: None }, monitors }
    }

    /// The active monitor for a pointer position that the caller has just
    /// read. With no monitor there is no answer, and a single monitor is
    /// the answer whatever the signals say. Otherwise the pointer is
    /// recorded as committed in a copy of the input state, the focus
    /// signal is ignored while the overlay is visible, and the signals
    /// are fused. The tracker itself stays as it is.
    pub fn snapshot_with(
        &self,
        cursor_pos: Option<(i32, i32)>,
        now: Timestamp,
        launcher_visible: bool,
    ) -> (active: Option<ActiveMonitor>)
        ensures
            active_bounds(active) == snapshot_result(
                self.state@,
                self.monitors@,
                cursor_pos,
                now,
                launcher_visible,
            ),
    {
        if self.monitors.len() == 0 {
            return None;
        }
        if self.monitors.len() == 1 {
            return Some(ActiveMonitor::new(self.monitors[0]));
        }
        let mut state = self.state;
        if let Some(p) = cursor_pos {
            if let Some(monitor) = monitor_for_point(self.monitors.as_slice(), p.0, p.1) {
                state.update_cursor(monitor, now, true);
            }
        }
        if launcher_visible {
            state.clear_focus();
        }
        Some(pick_active_monitor(&state, self.monitors[0]))
    }

    /// The active monitor right now. The platform is asked for the
    /// pointer's position, and only where there are two monitors or more;
    /// the focus signal is the one that the background loop stored.
    pub fn snapshot<P: PlatformQueries>(
        &self,
        platform: &P,
        now: Timestamp,
        launcher_visible: bool,
    ) -> (active: Option<ActiveMonitor>)
        ensures
            self.monitors@.len() == 0 ==> active is None,
            self.monitors@.len() == 1 ==> active_bounds(active) == Some(self.monitors@[0]),
            exists|cursor_pos: Option<(i32, i32)>|
                active_bounds(active) == snapshot_result(
                    self.state@,
                    self.monitors@,
                    cursor_pos,
                    now,
                    launcher_visible,
                ),
    {
        if self.monitors.len() <= 1 {
            return self.snapshot_with(None, now, launcher_visible);
        }
        let cursor_pos = platform.cursor_position();
        self.snapshot_with(cursor_pos, now, launcher_visible)
    }

    /// Records the monitor of the window that the caller found focused.
    pub fn force_focus_update_with(&mut self, window: Option<Rect>, now: Timestamp)
        ensures
            final(self).state@ == old(self).state@.with_focus(
                focused(old(self).monitors@, window),
                now,
            ),
            final(self).state.cursor == old(self).state.cursor,
            final(self).monitors@ == old(self).monitors@,
    {
        let focus_monitor = match window {
            Some(w) => monitor_for_bounds(self.monitors.as_slice(), &w),
            None => None,
        };
        self.state.update_focus(focus_monitor, now);
    }

    /// Asks the platform which window is focused and records its monitor
    /// at once, so that the next snapshot knows of a focus change that the
    /// caller has just made.
    pub fn force_focus_update<P: PlatformQueries>(&mut self, platform: &P, now: Timestamp)
        ensures
            exists|window: Option<Rect>|
                final(self).state@ == old(self).state@.with_focus(
                    focused(old(self).monitors@, window),
                    now,
                ),
            final(self).state.cursor == old(self).state.cursor,
            final(self).monitors@ == old(self).monitors@,
    {
        let window = platform.focused_window_bounds();
        self.force_focus_update_with(window, now);
    }
}

/// With one monitor a snapshot answers with it, and with none it has no
/// answer, whatever the signals, the pointer and the overlay say.
pub proof fn lemma_snapshot_without_choice(
    state: InputStateView,
    monitors: Seq<Rect>,
    cursor: Option<(i32, i32)>,
    now: Timestamp,
    launcher_visible: bool,
)
    ensures
        monitors.len() == 0 ==> snapshot_result(state, monitors, cursor, now, launcher_visible)
            is None,
        monitors.len() == 1 ==> snapshot_result(state, monitors, cursor, now, launcher_visible)
            == Some(monitors[0]),
{
}

/// While the overlay is visible a snapshot goes by the pointer alone: it
/// answers with the pointer's monitor, however recent the focus signal
/// is, and with the first monitor when the pointer was never seen on one.
/// What the focus signal holds makes no difference.
pub proof fn lemma_visible_overlay_prefers_cursor(
    state: InputStateView,
    other: InputStateView,
    monitors: Seq<Rect>,
    cursor: Option<(i32, i32)>,
    now: Timestamp,
)
    requires
        state.cursor == other.cursor,
    ensures
        snapshot_choice(state, monitors, cursor, now, true) == match with_pointer(
            state,
            monitors,
            cursor,
            now,
            true,
        ).cursor {
            Some(seen) => seen.0,
            None => monitors[0],
        },
        snapshot_choice(state, monitors, cursor, now, true) == snapshot_choice(
            other,
            monitors,
            cursor,
            now,
            true,
        ),
{
}

/// A snapshot trusts the pointer: where the pointer lies on a monitor
/// other than the stored one, that monitor is stamped with the present
/// and so beats every focus signal that is not from the future.
pub proof fn lemma_snapshot_fresh_pointer_wins(
    state: InputStateView,
    monitors: Seq<Rect>,
    cursor: Option<(i32, i32)>,
    now: Timestamp,
    launcher_visible: bool,
)
    requires
        located(monitors, cursor) is Some,
        located(monitors, cursor) != signal_bounds(state.cursor),
        match state.focus {
            Some(focus) => focus.1 <= now,
            None => true,
        },
    ensures
        Some(snapshot_choice(state, monitors, cursor, now, launcher_visible)) == located(
            monitors,
            cursor,
        ),
{
}

} // verus!
