//! What the tracker asks of the operating system.

use vstd::prelude::*;
use crate::monitor::geometry::Rect;

verus! {

/// The queries that one operating system answers. None of them fails:
/// what cannot be had is `None` or an empty list.
pub trait PlatformQueries: Send + Sync {
    /// Where the pointer is, in global coordinates.
    fn cursor_position(&self) -> Option<(i32, i32)>;

    /// The rectangle of the focused window, unless that window is the
    /// caller's own or no window is focused.
    fn focused_window_bounds(&self) -> Option<Rect>;

    /// The rectangles of all connected displays.
    fn physical_monitors(&self) -> Vec<Rect>;

    /// Whether `focused_window_bounds` may be called again and again from a
    /// background thread while a window renders: yes, unless overridden.
    fn poll_focused_window(&self) -> (safe: bool)
        default_ensures
            safe,
    {
        true
    }
}

/// The operating system that the program runs on.
#[derive(Clone, Copy, Debug, PartialEq, Eq, Structural)]
pub enum HostOs {
    MacOs,
    Linux,
    Other,
}

} // verus!
