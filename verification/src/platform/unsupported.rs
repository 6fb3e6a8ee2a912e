//! The backend of a platform that the switcher does not support: it
//! knows of no window, captures nothing and sees no key held.

use vstd::prelude::*;
use crate::platform::{RgbaImage, WindowInfo};

verus! {

/// The open windows: none.
pub fn get_open_windows() -> (windows: Vec<WindowInfo>)
    ensures
        windows@.len() == 0,
{
    Vec::new()
}

/// The path of a fresh preview of the window: none can be taken.
pub fn capture_preview(_window_id: u32, _max_w: usize, _max_h: usize) -> (path: Option<String>)
    ensures
        path is None,
{
    None
}

/// Previews of several windows, each with the position it was asked
/// under: none can be taken.
pub fn capture_previews_batch(
    _targets: &[(usize, u32)],
    _max_w: usize,
    _max_h: usize,
) -> (previews: Vec<(usize, Option<String>)>)
    ensures
        previews@.len() == 0,
{
    Vec::new()
}

/// The pixels of a fresh preview of the window: none can be taken.
pub fn capture_preview_rgba(
    _window_id: u32,
    _max_w: usize,
    _max_h: usize,
) -> (image: Option<RgbaImage>)
    ensures
        image is None,
{
    None
}

/// The pixels of previews of several windows: none can be taken.
pub fn capture_previews_batch_rgba(
    _targets: &[(usize, u32)],
    _max_w: usize,
    _max_h: usize,
) -> (previews: Vec<(usize, Option<RgbaImage>)>)
    ensures
        previews@.len() == 0,
{
    Vec::new()
}

/// Brings the window to the front: nothing can be done.
pub fn activate_window(_window_id: u32) {
}

/// Moves the window with the given title; says whether it moved, which
/// it never does here.
pub fn move_app_window(_title: &str, _x: i32, _y: i32) -> (moved: bool)
    ensures
        !moved,
{
    false
}

/// Whether the switcher's modifier key is held: never known to be.
pub fn is_modifier_held() -> (held: bool)
    ensures
        !held,
{
    false
}

/// Whether a shift key is held: never known to be.
pub fn is_shift_held() -> (held: bool)
    ensures
        !held,
{
    false
}

} // verus!
