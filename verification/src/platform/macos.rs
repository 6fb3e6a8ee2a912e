//! The parts of the macOS backend that compute on values which the
//! system has already handed over.

use vstd::prelude::*;

verus! {

/// The bit that the event flags carry while an option key is held.
pub const EVENT_FLAG_MASK_ALTERNATE: u64 = 0x0008_0000;

/// The bit that the event flags carry while a shift key is held.
pub const EVENT_FLAG_MASK_SHIFT: u64 = 0x0002_0000;

/// Whether the flags carry all bits of the mask, which holds one bit.
pub open spec fn has_flag(flags: u64, mask: u64) -> bool {
    flags & mask != 0
}

/// Whether the event flags say that the switcher's modifier, the option
/// key, is held.
pub fn is_modifier_held(flags: u64) -> (held: bool)
    ensures
        held == has_flag(flags, EVENT_FLAG_MASK_ALTERNATE),
{
    flags & EVENT_FLAG_MASK_ALTERNATE != 0
}

/// Whether the event flags say that a shift key is held.
pub fn is_shift_held(flags: u64) -> (held: bool)
    ensures
        held == has_flag(flags, EVENT_FLAG_MASK_SHIFT),
{
    flags & EVENT_FLAG_MASK_SHIFT != 0
}

/// Moves the picker's window; says whether it moved. A window of the
/// picker cannot be moved once it exists, so the caller is always told to
/// close it and to open it again on the right monitor.
pub fn move_app_window(_title: &str, _x: i32, _y: i32) -> (moved: bool)
    ensures
        !moved,
{
    false
}

/// How many minimized windows of an application may be listed. While the
/// application has windows on screen, and when nothing is known of it
/// from before, that is the number of windows that the accessibility
/// service reports as minimized; for an application without windows on
/// screen it is the number of its windows known from before, if any are.
pub open spec fn minimized_budget(
    on_screen_count: usize,
    known_count: Option<usize>,
    reported_minimized: usize,
) -> usize {
    if on_screen_count != 0 {
        reported_minimized
    } else {
        match known_count {
            Some(count) => if count > 0 {
                count
            } else {
                reported_minimized
            },
            None => reported_minimized,
        }
    }
}

/// Decides how many minimized windows of an application may be listed.
pub fn allowed_minimized_count(
    on_screen_count: usize,
    known_count: Option<usize>,
    reported_minimized: usize,
) -> (allowed: usize)
    ensures
        allowed == minimized_budget(on_screen_count, known_count, reported_minimized),
{
    if on_screen_count != 0 {
        return reported_minimized;
    }
    if let Some(count) = known_count {
        if count > 0 {
            return count;
        }
    }
    reported_minimized
}

/// The microseconds in a time given as seconds and microseconds, or the
/// largest number where they do not fit.
pub open spec fn micros_of(seconds: u64, micros: u64) -> u64 {
    if seconds * 1_000_000 + micros > u64::MAX {
        u64::MAX
    } else {
        (seconds * 1_000_000 + micros) as u64
    }
}

/// The start time of a process in microseconds, which together with the
/// process's number tells it apart from every other process.
pub fn start_time_micros(seconds: u64, micros: u64) -> (start: u64)
    ensures
        start == micros_of(seconds, micros),
{
    let whole = match seconds.checked_mul(1_000_000) {
        Some(v) => v,
        None => {
            return u64::MAX;
        },
    };
    match whole.checked_add(micros) {
        Some(v) => v,
        None => u64::MAX,
    }
}

} // verus!
