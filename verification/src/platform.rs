//! What the switcher knows of windows, and the parts of the platform
//! backends that are plain computation.

pub mod accessibility;
pub mod linux;
pub mod macos;
pub mod pixels;
pub mod preview;
pub mod unsupported;

use vstd::prelude::*;
use crate::monitor::geometry::Rect;

verus! {

/// An open window as the picker shows it.
#[derive(Debug, Clone, PartialEq, Eq)]
pub struct WindowInfo {
    pub id: u32,
    pub title: String,
    pub app_name: String,
    pub preview_path: Option<String>,
    pub bounds: Rect,
    pub is_minimized: bool,
}

/// A picture as rows of pixels, four bytes to the pixel: red, green,
/// blue, alpha.
#[derive(Debug, Clone, PartialEq, Eq)]
pub struct RgbaImage {
    pub data: Vec<u8>,
    pub width: usize,
    pub height: usize,
}

} // verus!
