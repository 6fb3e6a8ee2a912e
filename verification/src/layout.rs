//! The shape of the picker's grid: how many columns and rows it has and
//! how much room they take, in whole pixels.

use vstd::prelude::*;
use vstd::math::{max, min};
use vstd::arithmetic::div_mod::lemma_hoist_over_denominator;
use crate::monitor::geometry::Size;

verus! {

/// The room between two cards of the grid.
pub const GRID_GAP: u128 = 14;

/// The room between the grid and the border of the picker.
pub const GRID_PADDING: u128 = 22;

/// The width of a card.
pub const GRID_CARD_WIDTH: u128 = 220;

/// The height of a card.
pub const GRID_CARD_HEIGHT: u128 = 156;

/// The width of a card's preview.
pub const GRID_PREVIEW_WIDTH: u128 = 204;

/// The height of a card's preview.
pub const GRID_PREVIEW_HEIGHT: u128 = 114;

/// The height of the bar above the grid.
pub const HEADER_HEIGHT: u128 = 42;

/// Further room at the side of the grid.
pub const GRID_SIDE_ROOM: u128 = 24;

/// The width of the canvas that previews are scaled onto.
pub const PREVIEW_MAX_WIDTH: usize = 204;

/// The height of the canvas that previews are scaled onto.
pub const PREVIEW_MAX_HEIGHT: usize = 114;

/// The columns of the grid: one for a single window or none; else as
/// many as there are windows, up to the configured limit, which counts as
/// two at least.
pub open spec fn column_count(window_count: int, max_columns: int) -> int {
    let count = max(window_count, 1);
    if count == 1 {
        1
    } else {
        min(count, max(max_columns, 2))
    }
}

/// The rows that the windows fill in a grid of `columns` columns, an
/// empty grid counting as one window and no column as one.
pub open spec fn row_count(window_count: int, columns: int) -> int {
    let count = max(window_count, 1);
    let cols = max(columns, 1);
    (count + cols - 1) / cols
}

/// The width of a grid of `columns` columns with its padding and the
/// room beside it.
pub open spec fn grid_width(columns: int) -> int {
    GRID_PADDING * 2 + columns * GRID_CARD_WIDTH + max(columns - 1, 0) * GRID_GAP
        + GRID_SIDE_ROOM
}

/// The height of a grid of `rows` rows with its header and padding.
pub open spec fn grid_height(rows: int) -> int {
    HEADER_HEIGHT + GRID_PADDING * 2 + rows * GRID_CARD_HEIGHT + max(rows - 1, 0) * GRID_GAP
}

/// How many columns the picker prefers for the given number of windows.
pub fn preferred_column_count(window_count: usize, max_columns: usize) -> (columns: usize)
    ensures
        columns == column_count(window_count as int, max_columns as int),
        1 <= columns,
{
    let count = if window_count < 1 {
        1
    } else {
        window_count
    };
    if count == 1 {
        return 1;
    }
    let max_cols = if max_columns < 2 {
        2
    } else {
        max_columns
    };
    if count < max_cols {
        count
    } else {
        max_cols
    }
}

/// How many rows the windows fill.
pub fn grid_row_count(window_count: usize, columns: usize) -> (rows: usize)
    ensures
        rows == row_count(window_count as int, columns as int),
        1 <= rows,
{
    let count = if window_count < 1 {
        1
    } else {
        window_count
    };
    let cols = if columns < 1 {
        1
    } else {
        columns
    };
    proof {
        lemma_hoist_over_denominator(count - 1, 1, cols as nat);
        assert((count - 1) / (cols as int) >= 0) by (nonlinear_arith)
            requires
                count >= 1,
                cols >= 1,
        ;
        assert((count - 1) / (cols as int) <= count - 1) by (nonlinear_arith)
            requires
                count >= 1,
                cols >= 1,
        ;
    }
    (count - 1) / cols + 1
}

/// The width that the picker takes for the given number of columns,
/// before it is fitted to the monitor.
pub fn picker_width_for(columns: usize) -> (width: u128)
    ensures
        width == grid_width(columns as int),
{
    let cols = columns as u128;
    let gaps = if cols >= 1 {
        cols - 1
    } else {
        0
    };
    GRID_PADDING * 2 + cols * GRID_CARD_WIDTH + gaps * GRID_GAP + GRID_SIDE_ROOM
}

/// The height that the picker takes for the given windows in the given
/// number of columns, before it is fitted to the monitor.
pub fn picker_height_for(window_count: usize, columns: usize) -> (height: u128)
    ensures
        height == grid_height(row_count(window_count as int, columns as int)),
{
    let rows = grid_row_count(window_count, columns) as u128;
    HEADER_HEIGHT + GRID_PADDING * 2 + rows * GRID_CARD_HEIGHT + (rows - 1) * GRID_GAP
}

/// The least width of the picker.
pub const MIN_PICKER_WIDTH: i32 = 720;

/// The least height of the picker.
pub const MIN_PICKER_HEIGHT: i32 = 320;

/// The greatest width of the picker where the monitor is not known.
pub const MAX_PICKER_WIDTH: i32 = 1820;

/// The greatest height of the picker where the monitor is not known.
pub const MAX_PICKER_HEIGHT: i32 = 980;

/// The room that the picker may take: nine tenths of the monitor along
/// each axis, rounded down, or the usual limits where the monitor is not
/// known.
pub open spec fn picker_limits(monitor_size: Option<Size>) -> (int, int) {
    match monitor_size {
        Some(size) => (size.width * 9 / 10, size.height * 9 / 10),
        None => (MAX_PICKER_WIDTH as int, MAX_PICKER_HEIGHT as int),
    }
}

/// `v` moved into the range from `low` to `high`.
pub open spec fn fitted(v: int, low: int, high: int) -> int {
    if v < low {
        low
    } else if v > high {
        high
    } else {
        v
    }
}

/// The size of the picker for the given number of windows: what the grid
/// takes, but no less than the least size and no more than the monitor
/// allows.
pub open spec fn picker_size(
    window_count: int,
    max_columns: int,
    monitor_size: Option<Size>,
) -> (int, int) {
    let count = max(window_count, 1);
    let cols = column_count(count, max_columns);
    let limits = picker_limits(monitor_size);
    (
        fitted(grid_width(cols), MIN_PICKER_WIDTH as int, limits.0),
        fitted(grid_height(row_count(count, cols)), MIN_PICKER_HEIGHT as int, limits.1),
    )
}

/// Whether the monitor has room for the least picker.
pub open spec fn has_room_for_picker(monitor_size: Option<Size>) -> bool {
    MIN_PICKER_WIDTH <= picker_limits(monitor_size).0 && MIN_PICKER_HEIGHT <= picker_limits(
        monitor_size,
    ).1
}

/// Tells whether the monitor has room for the least picker.
pub fn monitor_fits_picker(monitor_size: Option<Size>) -> (fits: bool)
    ensures
        fits == has_room_for_picker(monitor_size),
{
    match monitor_size {
        Some(size) => {
            let w: i64 = size.width as i64 * 9;
            let h: i64 = size.height as i64 * 9;
            w >= MIN_PICKER_WIDTH as i64 * 10 && h >= MIN_PICKER_HEIGHT as i64 * 10
        },
        None => true,
    }
}

fn fit(v: u128, low: i32, high: i32) -> (r: i32)
    requires
        0 <= low <= high,
    ensures
        r == fitted(v as int, low as int, high as int),
{
    if v < low as u128 {
        low
    } else if v > high as u128 {
        high
    } else {
        v as i32
    }
}

/// The size of the picker for the given number of windows on a monitor
/// of the given size.
pub fn picker_dimensions(
    window_count: usize,
    max_columns: usize,
    monitor_size: Option<Size>,
) -> (size: Size)
    requires
        has_room_for_picker(monitor_size),
    ensures
        size.width == picker_size(window_count as int, max_columns as int, monitor_size).0,
        size.height == picker_size(window_count as int, max_columns as int, monitor_size).1,
        MIN_PICKER_WIDTH <= size.width,
        MIN_PICKER_HEIGHT <= size.height,
{
    let count = if window_count < 1 {
        1
    } else {
        window_count
    };
    let cols = preferred_column_count(count, max_columns);
    let width = picker_width_for(cols);
    let height = picker_height_for(count, cols);
    let (max_w, max_h) = match monitor_size {
        Some(size) => (
            ((size.width as i64 * 9) / 10) as i32,
            ((size.height as i64 * 9) / 10) as i32,
        ),
        None => (MAX_PICKER_WIDTH, MAX_PICKER_HEIGHT),
    };
    Size { width: fit(width, MIN_PICKER_WIDTH, max_w), height: fit(height, MIN_PICKER_HEIGHT, max_h) }
}

/// The room that the drawn grid leaves free at its sides, in all.
pub const GRID_RENDER_PADDING_X_TOTAL: i64 = 40;

/// The room between two cards of the drawn grid.
pub const GRID_RENDER_GAP_X: i64 = 12;

/// The columns that fit a picker of the given width: as many cards with
/// their gaps as the width holds beside the padding, one at least, and no
/// more than there are windows.
pub open spec fn columns_in_width(width: int, total_items: int) -> int {
    if total_items <= 1 {
        max(total_items, 1)
    } else {
        let usable = max(width - GRID_RENDER_PADDING_X_TOTAL, GRID_CARD_WIDTH as int);
        let cols = (usable + GRID_RENDER_GAP_X) / (GRID_CARD_WIDTH + GRID_RENDER_GAP_X);
        min(max(cols, 1), total_items)
    }
}

/// Counts the columns that a picker of the given width shows.
pub fn rendered_column_count(width: i32, total_items: usize) -> (columns: usize)
    ensures
        columns == columns_in_width(width as int, total_items as int),
        1 <= columns,
{
    if total_items <= 1 {
        return 1;
    }
    let inner: i64 = width as i64 - GRID_RENDER_PADDING_X_TOTAL;
    let usable: i64 = if inner < GRID_CARD_WIDTH as i64 {
        GRID_CARD_WIDTH as i64
    } else {
        inner
    };
    let cols: i64 = (usable + GRID_RENDER_GAP_X) / (GRID_CARD_WIDTH as i64 + GRID_RENDER_GAP_X);
    let cols: usize = if cols < 1 {
        1
    } else {
        cols as usize
    };
    if cols < total_items {
        cols
    } else {
        total_items
    }
}

} // verus!
