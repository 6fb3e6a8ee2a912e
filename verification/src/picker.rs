//! The decisions of the picker: what a key does, whether a request opens
//! the picker or moves its selection, whether its window can be used
//! again, and which windows still need a preview.

use vstd::prelude::*;
use crate::config::ActionMode;
use crate::delegate::GridDirection;
use crate::platform::WindowInfo;
use crate::text::str_eq;

verus! {

/// What a key asks the picker to do.
#[derive(Clone, Copy, Debug, PartialEq, Eq, Structural)]
pub enum KeyAction {
    /// Hide the picker.
    Dismiss,
    /// Close the selected window.
    CloseWindow,
    /// Quit the application of the selected window.
    QuitApp,
    /// Minimize the selected window.
    MinimizeWindow,
    /// Switch to the selected window.
    Activate,
    SelectNext,
    SelectPrev,
    /// Move the selection through the grid.
    Move(GridDirection),
    /// The key means nothing to the picker.
    Nothing,
}

/// What the key of the given name asks for, with or without shift.
pub open spec fn key_action(key: Seq<char>, shift: bool) -> KeyAction {
    if key == "escape"@ || key == "esc"@ {
        KeyAction::Dismiss
    } else if key == "w"@ {
        KeyAction::CloseWindow
    } else if key == "q"@ {
        KeyAction::QuitApp
    } else if key == "r"@ {
        KeyAction::MinimizeWindow
    } else if key == "enter"@ {
        KeyAction::Activate
    } else if key == "tab"@ {
        if shift {
            KeyAction::SelectPrev
        } else {
            KeyAction::SelectNext
        }
    } else if key == "backtab"@ {
        KeyAction::SelectPrev
    } else if key == "right"@ || key == "arrowright"@ {
        KeyAction::Move(GridDirection::Right)
    } else if key == "left"@ || key == "arrowleft"@ {
        KeyAction::Move(GridDirection::Left)
    } else if key == "down"@ || key == "arrowdown"@ {
        KeyAction::Move(GridDirection::Down)
    } else if key == "up"@ || key == "arrowup"@ {
        KeyAction::Move(GridDirection::Up)
    } else {
        KeyAction::Nothing
    }
}

/// Reads a key.
pub fn action_for_key(key: &str, shift: bool) -> (action: KeyAction)
    ensures
        action == key_action(key@, shift),
{
    if str_eq(key, "escape") || str_eq(key, "esc") {
        KeyAction::Dismiss
    } else if str_eq(key, "w") {
        KeyAction::CloseWindow
    } else if str_eq(key, "q") {
        KeyAction::QuitApp
    } else if str_eq(key, "r") {
        KeyAction::MinimizeWindow
    } else if str_eq(key, "enter") {
        KeyAction::Activate
    } else if str_eq(key, "tab") {
        if shift {
            KeyAction::SelectPrev
        } else {
            KeyAction::SelectNext
        }
    } else if str_eq(key, "backtab") {
        KeyAction::SelectPrev
    } else if str_eq(key, "right") || str_eq(key, "arrowright") {
        KeyAction::Move(GridDirection::Right)
    } else if str_eq(key, "left") || str_eq(key, "arrowleft") {
        KeyAction::Move(GridDirection::Left)
    } else if str_eq(key, "down") || str_eq(key, "arrowdown") {
        KeyAction::Move(GridDirection::Down)
    } else if str_eq(key, "up") || str_eq(key, "arrowup") {
        KeyAction::Move(GridDirection::Up)
    } else {
        KeyAction::Nothing
    }
}

/// What a request to show the picker leads to.
#[derive(Clone, Copy, Debug, PartialEq, Eq, Structural)]
pub enum ShowDecision {
    /// A request to go backwards without a picker: nothing happens.
    Ignore,
    /// The picker is up and the modifier held: the selection moves on, or
    /// back for a request to go backwards.
    Cycle { backwards: bool },
    /// The picker is opened, in its old window where there is one.
    Open,
}

/// What a request to show the picker leads to: a request to go backwards
/// never opens a picker; a picker that waits for the modifier's release
/// and sees it held moves its selection; every other request opens it.
pub open spec fn show_decision(
    reverse: bool,
    picker_exists: bool,
    action_mode: ActionMode,
    release_watched: bool,
    modifier_held: bool,
) -> ShowDecision {
    if reverse && !picker_exists {
        ShowDecision::Ignore
    } else if picker_exists && action_mode == ActionMode::HoldToSwitch && release_watched
        && modifier_held {
        ShowDecision::Cycle { backwards: reverse }
    } else {
        ShowDecision::Open
    }
}

/// Decides what a request to show the picker leads to.
pub fn decide_show(
    reverse: bool,
    picker_exists: bool,
    action_mode: ActionMode,
    release_watched: bool,
    modifier_held: bool,
) -> (decision: ShowDecision)
    ensures
        decision == show_decision(
            reverse,
            picker_exists,
            action_mode,
            release_watched,
            modifier_held,
        ),
{
    if reverse && !picker_exists {
        ShowDecision::Ignore
    } else if picker_exists && action_mode == ActionMode::HoldToSwitch && release_watched
        && modifier_held {
        ShowDecision::Cycle { backwards: reverse }
    } else {
        ShowDecision::Open
    }
}

/// Pixels by which two monitor origins may differ and still be the same.
pub const MONITOR_TOLERANCE_PX: i64 = 6;

/// Whether the picker's window stands on another monitor than the one it
/// should appear on: the origins differ by more than the tolerance along
/// an axis.
pub open spec fn origins_differ(created_on: (i32, i32), target: (i32, i32)) -> bool {
    ||| created_on.0 - target.0 > MONITOR_TOLERANCE_PX
    ||| target.0 - created_on.0 > MONITOR_TOLERANCE_PX
    ||| created_on.1 - target.1 > MONITOR_TOLERANCE_PX
    ||| target.1 - created_on.1 > MONITOR_TOLERANCE_PX
}

/// Tells whether the picker's window has to move to another monitor.
pub fn monitor_changed(created_on: (i32, i32), target: (i32, i32)) -> (changed: bool)
    ensures
        changed == origins_differ(created_on, target),
{
    let dx: i64 = created_on.0 as i64 - target.0 as i64;
    let dy: i64 = created_on.1 as i64 - target.1 as i64;
    dx > MONITOR_TOLERANCE_PX || dx < -MONITOR_TOLERANCE_PX || dy > MONITOR_TOLERANCE_PX || dy
        < -MONITOR_TOLERANCE_PX
}

/// The number of windows that a new picker is sized for: the windows to
/// show or the number seen last, whichever is larger, and one at least.
pub fn estimated_window_count(target_count: usize, last_count: usize) -> (count: usize)
    ensures
        count >= 1,
        count >= target_count,
        count >= last_count,
        count == 1 || count == target_count || count == last_count,
{
    let larger = if target_count >= last_count {
        target_count
    } else {
        last_count
    };
    if larger < 1 {
        1
    } else {
        larger
    }
}

/// The positions and identifiers of the windows that need a preview: all
/// of them for a full refresh, else those without one.
pub open spec fn preview_targets(windows: Seq<WindowInfo>, refresh_all: bool) -> Seq<(usize, u32)>
    decreases windows.len(),
{
    if windows.len() == 0 {
        Seq::<(usize, u32)>::empty()
    } else {
        let rest = preview_targets(windows.drop_last(), refresh_all);
        if refresh_all || windows.last().preview_path is None {
            rest.push(((windows.len() - 1) as usize, windows.last().id))
        } else {
            rest
        }
    }
}

/// Lists the windows that need a preview.
pub fn capture_targets(
    windows: &Vec<WindowInfo>,
    refresh_all: bool,
) -> (targets: Vec<(usize, u32)>)
    ensures
        targets@ == preview_targets(windows@, refresh_all),
{
    let mut targets: Vec<(usize, u32)> = Vec::new();
    let mut i: usize = 0;
    while i < windows.len()
        invariant
            i <= windows@.len(),
            targets@ == preview_targets(windows@.take(i as int), refresh_all),
        decreases windows@.len() - i,
    {
        proof {
            assert(windows@.take(i + 1).drop_last() =~= windows@.take(i as int));
        }
        if refresh_all || windows[i].preview_path.is_none() {
            targets.push((i, windows[i].id));
        }
        i += 1;
    }
    proof {
        assert(windows@.take(i as int) =~= windows@);
    }
    targets
}

/// The window with a new preview path.
pub open spec fn with_preview(window: WindowInfo, path: String) -> WindowInfo {
    WindowInfo { preview_path: Some(path), ..window }
}

/// Gives the window at `index` the preview that was taken of it. A
/// position beyond the list changes nothing.
pub fn apply_captured(windows: &mut Vec<WindowInfo>, index: usize, path: String)
    ensures
        index < old(windows)@.len() ==> final(windows)@ == old(windows)@.update(
            index as int,
            with_preview(old(windows)@[index as int], path),
        ),
        index >= old(windows)@.len() ==> final(windows)@ == old(windows)@,
{
    if index < windows.len() {
        let mut window = windows.remove(index);
        window.preview_path = Some(path);
        windows.insert(index, window);
        assert(windows@ =~= old(windows)@.update(
            index as int,
            with_preview(old(windows)@[index as int], path),
        ));
    }
}

/// The path of the last window with the given identifier that has a
/// preview, if there is one.
pub open spec fn known_preview(cached: Seq<WindowInfo>, id: u32) -> Option<String>
    decreases cached.len(),
{
    if cached.len() == 0 {
        None
    } else if cached.last().id == id && cached.last().preview_path is Some {
        cached.last().preview_path
    } else {
        known_preview(cached.drop_last(), id)
    }
}

/// Looks a window's preview up among the windows seen before.
pub fn cached_path_for(cached: &Vec<WindowInfo>, id: u32) -> (path: Option<String>)
    ensures
        path == known_preview(cached@, id),
{
    let mut i: usize = cached.len();
    proof {
        assert(cached@.take(cached@.len() as int) =~= cached@);
    }
    while i > 0
        invariant
            i <= cached@.len(),
            known_preview(cached@, id) == known_preview(cached@.take(i as int), id),
        decreases i,
    {
        proof {
            assert(cached@.take(i as int).drop_last() =~= cached@.take(i - 1));
        }
        i -= 1;
        if cached[i].id == id {
            if let Some(path) = &cached[i].preview_path {
                return Some(path.clone());
            }
        }
    }
    None
}

} // verus!
