//! The last known monitor of each input signal and the rule that fuses
//! the two signals into one active monitor.

use vstd::prelude::*;
use crate::monitor::geometry::{div_toward_zero, Rect, Size};

verus! {

/// A point on the monotonic clock, in nanoseconds since an origin that
/// the caller fixes once. Later observations carry larger values.
pub type Timestamp = u64;

/// The display judged to hold the user's attention.
#[derive(Clone, Copy, Debug, PartialEq, Eq, Structural)]
pub struct ActiveMonitor {
    bounds: Rect,
}

impl View for ActiveMonitor {
    type V = Rect;

    closed spec fn view(&self) -> Rect {
        self.bounds
    }
}

/// The nearest value that a coordinate can hold.
pub open spec fn clamp_coord(v: int) -> int {
    if v < i32::MIN {
        i32::MIN as int
    } else if v > i32::MAX {
        i32::MAX as int
    } else {
        v
    }
}

fn div_i64(a: i64, d: i64) -> (q: i64)
    requires
        d > 0,
        a > i64::MIN,
    ensures
        q == div_toward_zero(a as int, d as int),
{
    if a >= 0 {
        ((a as u64) / (d as u64)) as i64
    } else {
        -((((-a) as u64) / (d as u64)) as i64)
    }
}

fn coord_from_i64(v: i64) -> (c: i32)
    ensures
        c == clamp_coord(v as int),
{
    if v < i32::MIN as i64 {
        i32::MIN
    } else if v > i32::MAX as i64 {
        i32::MAX
    } else {
        v as i32
    }
}

impl ActiveMonitor {
    /// The active monitor with the given rectangle.
    pub fn new(bounds: Rect) -> (m: ActiveMonitor)
        ensures
            m@ == bounds,
    {
        ActiveMonitor { bounds }
    }

    /// The monitor's rectangle.
    pub fn bounds(&self) -> (b: &Rect)
        ensures
            *b == self@,
    {
        &self.bounds
    }

    /// Where a window of `win_size` goes on this monitor: centred
    /// horizontally, and with one third of the spare height above it.
    /// A coordinate that leaves the representable range stops at its end.
    pub fn centered_bounds(&self, win_size: Size) -> (r: Rect)
        ensures
            r.width == win_size.width,
            r.height == win_size.height,
            r.x == clamp_coord(self@.x + div_toward_zero(self@.width - win_size.width, 2)),
            r.y == clamp_coord(self@.y + div_toward_zero(self@.height - win_size.height, 3)),
    {
        let spare_w: i64 = self.bounds.width as i64 - win_size.width as i64;
        let spare_h: i64 = self.bounds.height as i64 - win_size.height as i64;
        let x: i64 = self.bounds.x as i64 + div_i64(spare_w, 2);
        let y: i64 = self.bounds.y as i64 + div_i64(spare_h, 3);
        Rect {
            x: coord_from_i64(x),
            y: coord_from_i64(y),
            width: win_size.width,
            height: win_size.height,
        }
    }
}

/// The monitor a signal pointed to, and when it first pointed there.
#[derive(Clone, Copy, Debug, PartialEq, Eq, Structural)]
pub struct Stamped {
    pub monitor: ActiveMonitor,
    pub at: Timestamp,
}

/// The last known monitor of the pointer and of the focused window.
#[derive(Clone, Copy, Debug, PartialEq, Eq, Structural)]
pub struct InputState {
    pub focus: Option<Stamped>,
    pub cursor: Option<Stamped>,
}

impl View for Stamped {
    type V = (Rect, Timestamp);

    open spec fn view(&self) -> (Rect, Timestamp) {
        (self.monitor@, self.at)
    }
}

/// What a stored signal says: the monitor and the time, if the signal is set.
pub open spec fn signal_view(signal: Option<Stamped>) -> Option<(Rect, Timestamp)> {
    match signal {
        Some(s) => Some(s@),
        None => None,
    }
}

/// The monitor that a signal points to, if the signal is set.
pub open spec fn signal_bounds(signal: Option<(Rect, Timestamp)>) -> Option<Rect> {
    match signal {
        Some(s) => Some(s.0),
        None => None,
    }
}

/// A signal after an observation of `monitor` at time `at`: unchanged
/// while the monitor stays the same, replaced when it differs.
pub open spec fn observe(
    signal: Option<(Rect, Timestamp)>,
    monitor: Option<Rect>,
    at: Timestamp,
) -> Option<(Rect, Timestamp)> {
    if signal_bounds(signal) == monitor {
        signal
    } else {
        match monitor {
            Some(m) => Some((m, at)),
            None => None,
        }
    }
}

/// What an input state says: each signal as a monitor and a time.
pub struct InputStateView {
    pub focus: Option<(Rect, Timestamp)>,
    pub cursor: Option<(Rect, Timestamp)>,
}

impl View for InputState {
    type V = InputStateView;

    open spec fn view(&self) -> InputStateView {
        InputStateView { focus: signal_view(self.focus), cursor: signal_view(self.cursor) }
    }
}

impl InputStateView {
    /// The state after the pointer was seen on `monitor`. Only a
    /// committed observation counts.
    pub open spec fn with_cursor(self, monitor: Rect, at: Timestamp, committed: bool) -> InputStateView {
        if committed {
            InputStateView { focus: self.focus, cursor: observe(self.cursor, Some(monitor), at) }
        } else {
            self
        }
    }

    /// The state after the focused window was seen on `monitor`, or
    /// nowhere.
    pub open spec fn with_focus(self, monitor: Option<Rect>, at: Timestamp) -> InputStateView {
        InputStateView { focus: observe(self.focus, monitor, at), cursor: self.cursor }
    }

    /// The state with the focus signal taken out.
    pub open spec fn without_focus(self) -> InputStateView {
        InputStateView { focus: None, cursor: self.cursor }
    }

    /// The winner of the two signals: the more recent one, the pointer on
    /// a tie; the only one that is set; or the fallback when neither is.
    pub open spec fn fuse(self, fallback: Rect) -> Rect {
        match (self.cursor, self.focus) {
            (Some(cursor), Some(focus)) => if cursor.1 >= focus.1 {
                cursor.0
            } else {
                focus.0
            },
            (Some(cursor), None) => cursor.0,
            (None, Some(focus)) => focus.0,
            (None, None) => fallback,
        }
    }
}

impl Default for InputState {
    fn default() -> (s: InputState)
        ensures
            s.focus.is_none(),
            s.cursor.is_none(),
    {
        InputState { focus: None, cursor: None }
    }
}

impl InputState {
    /// Records where the pointer is. An uncommitted observation leaves the
    /// state alone; a committed one replaces the stored signal only when
    /// the monitor differs from the stored one, so the timestamp keeps
    /// marking the moment of the transition.
    pub fn update_cursor(&mut self, monitor: Rect, at: Timestamp, committed: bool)
        ensures
            final(self)@ == old(self)@.with_cursor(monitor, at, committed),
            final(self).focus == old(self).focus,
            !committed || signal_bounds(old(self)@.cursor) == Some(monitor) ==> *final(self) == *old(
                self,
            ),
    {
        if !committed {
            return ;
        }
        let same = match self.cursor {
            Some(c) => c.monitor.bounds == monitor,
            None => false,
        };
        if same {
            return ;
        }
        self.cursor = Some(Stamped { monitor: ActiveMonitor::new(monitor), at });
    }

    /// Records which monitor holds the focused window; `None` says that no
    /// window is focused. The stored signal changes only when the monitor
    /// differs from the stored one, and entering or leaving the state
    /// without focus counts as such a change.
    pub fn update_focus(&mut self, monitor: Option<Rect>, at: Timestamp)
        ensures
            final(self)@ == old(self)@.with_focus(monitor, at),
            final(self).cursor == old(self).cursor,
            signal_bounds(old(self)@.focus) == monitor ==> *final(self) == *old(self),
    {
        match monitor {
            Some(m) => {
                let same = match self.focus {
                    Some(f) => f.monitor.bounds == m,
                    None => false,
                };
                if !same {
                    self.focus = Some(Stamped { monitor: ActiveMonitor::new(m), at });
                }
            },
            None => {
                self.focus = None;
            },
        }
    }

    /// Forgets the focus signal.
    pub fn clear_focus(&mut self)
        ensures
            final(self)@ == old(self)@.without_focus(),
            final(self).cursor == old(self).cursor,
            final(self).focus.is_none(),
    {
        self.focus = None;
    }
}

/// The monitor that a stored signal points to, if the signal is set.
pub fn bounds_of(signal: &Option<Stamped>) -> (bounds: Option<Rect>)
    ensures
        bounds == signal_bounds(signal_view(*signal)),
{
    match signal {
        Some(s) => Some(s.monitor.bounds),
        None => None,
    }
}

/// Chooses the active monitor from the stored signals.
pub fn pick_active_monitor(state: &InputState, fallback: Rect) -> (active: ActiveMonitor)
    ensures
        active@ == state@.fuse(fallback),
{
    match (state.cursor, state.focus) {
        (Some(cursor), Some(focus)) => {
            if cursor.at >= focus.at {
                cursor.monitor
            } else {
                focus.monitor
            }
        },
        (Some(cursor), None) => cursor.monitor,
        (None, Some(focus)) => focus.monitor,
        (None, None) => ActiveMonitor::new(fallback),
    }
}

/// With both signals set, the pointer wins exactly when its timestamp is
/// not older than that of the focus; a single signal always wins; and
/// without signals the fallback is chosen.
pub proof fn lemma_fuse_by_recency(state: InputStateView, fallback: Rect)
    ensures
        match (state.cursor, state.focus) {
            (Some(cursor), Some(focus)) => {
                &&& cursor.1 >= focus.1 ==> state.fuse(fallback) == cursor.0
                &&& cursor.1 < focus.1 ==> state.fuse(fallback) == focus.0
            },
            (Some(cursor), None) => state.fuse(fallback) == cursor.0,
            (None, Some(focus)) => state.fuse(fallback) == focus.0,
            (None, None) => state.fuse(fallback) == fallback,
        },
{
}

/// An uncommitted pointer observation changes nothing, and a committed
/// one of the monitor already stored keeps the stored timestamp.
pub proof fn lemma_cursor_needs_commit(state: InputStateView, monitor: Rect, at: Timestamp)
    ensures
        state.with_cursor(monitor, at, false) == state,
        signal_bounds(state.cursor) == Some(monitor) ==> state.with_cursor(monitor, at, true)
            == state,
        signal_bounds(state.cursor) != Some(monitor) ==> state.with_cursor(monitor, at, true).cursor
            == Some((monitor, at)),
{
}

} // verus!
