use alt_tab::config::LabelConfig;
use alt_tab::delegate::{GridDirection, WindowDelegate};
use alt_tab::layout::{
    grid_row_count, monitor_fits_picker, picker_dimensions, picker_height_for, picker_width_for,
    preferred_column_count, rendered_column_count, PREVIEW_MAX_HEIGHT, PREVIEW_MAX_WIDTH,
};
use alt_tab::monitor::geometry::{Rect, Size};
use alt_tab::platform::WindowInfo;

fn window(id: u32, app: &str) -> WindowInfo {
    WindowInfo {
        id,
        title: format!("window {id}"),
        app_name: app.to_string(),
        preview_path: None,
        bounds: Rect::new(0, 0, 800, 600),
        is_minimized: false,
    }
}

fn delegate(count: u32) -> WindowDelegate {
    let windows = (0..count).map(|i| window(i, "app")).collect();
    WindowDelegate::new(windows, LabelConfig::default())
}

fn ids(d: &WindowDelegate) -> Vec<u32> {
    d.windows().iter().map(|w| w.id).collect()
}

fn at(count: u32, index: usize) -> WindowDelegate {
    let mut d = delegate(count);
    for _ in 0..index {
        d.select_next();
    }
    assert_eq!(d.selected_index(), Some(index));
    d
}

#[test]
fn new_selects_the_first_window() {
    assert_eq!(delegate(0).selected_index(), None);
    assert!(delegate(0).selected_window().is_none());
    assert_eq!(delegate(3).selected_index(), Some(0));
    assert_eq!(delegate(3).selected_window().unwrap().id, 0);
    assert_eq!(delegate(3).label_config(), LabelConfig::default());
}

#[test]
fn select_next_and_prev_wrap_around() {
    let mut d = delegate(3);
    d.select_next();
    assert_eq!(d.selected_index(), Some(1));
    d.select_next();
    d.select_next();
    assert_eq!(d.selected_index(), Some(0));
    d.select_prev();
    assert_eq!(d.selected_index(), Some(2));
    d.select_prev();
    assert_eq!(d.selected_index(), Some(1));
    let mut empty = delegate(0);
    empty.select_next();
    empty.select_prev();
    assert_eq!(empty.selected_index(), None);
    let mut one = delegate(1);
    one.select_next();
    assert_eq!(one.selected_index(), Some(0));
    one.select_prev();
    assert_eq!(one.selected_index(), Some(0));
}

#[test]
fn grid_moves_sideways_within_the_row() {
    // Seven windows in three columns: 0 1 2 / 3 4 5 / 6.
    let mut d = at(7, 3);
    d.select_left(3);
    assert_eq!(d.selected_index(), Some(3));
    d.select_right(3);
    d.select_right(3);
    assert_eq!(d.selected_index(), Some(5));
    d.select_right(3);
    assert_eq!(d.selected_index(), Some(5));
    let mut last = at(7, 6);
    last.select_right(3);
    assert_eq!(last.selected_index(), Some(6));
    last.select_left(3);
    assert_eq!(last.selected_index(), Some(6));
}

#[test]
fn grid_moves_up_and_down_keeping_the_column() {
    let mut d = at(7, 1);
    d.select_up(3);
    assert_eq!(d.selected_index(), Some(1));
    d.select_down(3);
    assert_eq!(d.selected_index(), Some(4));
    // The last row has one window only: the step ends on it.
    d.select_down(3);
    assert_eq!(d.selected_index(), Some(6));
    d.select_down(3);
    assert_eq!(d.selected_index(), Some(6));
    d.select_up(3);
    assert_eq!(d.selected_index(), Some(3));
    d.select_up(3);
    assert_eq!(d.selected_index(), Some(0));
    let mut e = at(7, 5);
    e.move_in_grid(GridDirection::Down, 3);
    assert_eq!(e.selected_index(), Some(6));
}

#[test]
fn grid_treats_odd_column_counts_sensibly() {
    // No column counts as one: every step up or down moves by one window.
    let mut d = at(4, 1);
    d.select_down(0);
    assert_eq!(d.selected_index(), Some(2));
    d.select_up(0);
    assert_eq!(d.selected_index(), Some(1));
    d.select_left(0);
    assert_eq!(d.selected_index(), Some(1));
    // More columns than windows make a single row.
    d.select_down(usize::MAX);
    assert_eq!(d.selected_index(), Some(1));
    d.select_right(usize::MAX);
    d.select_right(usize::MAX);
    d.select_right(usize::MAX);
    assert_eq!(d.selected_index(), Some(3));
    d.select_up(100);
    assert_eq!(d.selected_index(), Some(3));
    let mut empty = delegate(0);
    empty.select_down(3);
    assert_eq!(empty.selected_index(), None);
}

#[test]
fn set_windows_keeps_or_resets_the_selection() {
    let mut d = at(5, 3);
    d.set_windows(vec![window(10, "a"), window(11, "a"), window(12, "a"), window(13, "b")], false);
    assert_eq!(d.selected_index(), Some(3));
    d.set_windows(vec![window(10, "a"), window(11, "a")], false);
    assert_eq!(d.selected_index(), Some(1));
    d.set_windows(vec![window(10, "a"), window(11, "a"), window(12, "a")], true);
    assert_eq!(d.selected_index(), Some(0));
    d.set_windows(vec![], false);
    assert_eq!(d.selected_index(), None);
    d.set_windows(vec![window(1, "a")], false);
    assert_eq!(d.selected_index(), Some(0));
    assert_eq!(ids(&d), vec![1]);
}

#[test]
fn remove_window_takes_out_every_window_with_the_id() {
    let mut d = WindowDelegate::new(
        vec![window(1, "a"), window(2, "b"), window(1, "c"), window(3, "a")],
        LabelConfig::default(),
    );
    d.select_prev();
    assert_eq!(d.selected_index(), Some(3));
    d.remove_window(1);
    assert_eq!(ids(&d), vec![2, 3]);
    assert_eq!(d.selected_index(), Some(1));
    d.remove_window(99);
    assert_eq!(ids(&d), vec![2, 3]);
    d.remove_window(2);
    d.remove_window(3);
    assert!(ids(&d).is_empty());
    assert_eq!(d.selected_index(), None);
}

#[test]
fn remove_app_windows_takes_out_the_application() {
    let mut d = WindowDelegate::new(
        vec![window(1, "mail"), window(2, "web"), window(3, "mail"), window(4, "Mail")],
        LabelConfig::default(),
    );
    d.select_next();
    d.select_next();
    d.remove_app_windows("mail");
    assert_eq!(ids(&d), vec![2, 4]);
    assert_eq!(d.selected_index(), Some(1));
    d.remove_app_windows("none");
    assert_eq!(ids(&d), vec![2, 4]);
}

#[test]
fn mark_minimized_moves_the_window_to_the_end() {
    let mut d = WindowDelegate::new(
        vec![window(1, "a"), window(2, "b"), window(3, "c")],
        LabelConfig::default(),
    );
    d.mark_minimized(1);
    assert_eq!(ids(&d), vec![2, 3, 1]);
    assert!(d.windows()[2].is_minimized);
    assert!(!d.windows()[0].is_minimized);
    assert_eq!(d.windows()[2].title, "window 1");
    assert_eq!(d.selected_index(), Some(0));
    d.mark_minimized(42);
    assert_eq!(ids(&d), vec![2, 3, 1]);
    // Of several windows with the identifier the last one stays.
    let mut twice = WindowDelegate::new(
        vec![window(7, "first"), window(8, "b"), window(7, "second")],
        LabelConfig::default(),
    );
    twice.mark_minimized(7);
    assert_eq!(ids(&twice), vec![8, 7]);
    assert_eq!(twice.windows()[1].app_name, "second");
    assert!(twice.windows()[1].is_minimized);
}

#[test]
fn preferred_column_count_follows_windows_and_limit() {
    assert_eq!(preferred_column_count(0, 6), 1);
    assert_eq!(preferred_column_count(1, 6), 1);
    assert_eq!(preferred_column_count(2, 6), 2);
    assert_eq!(preferred_column_count(6, 6), 6);
    assert_eq!(preferred_column_count(7, 6), 6);
    assert_eq!(preferred_column_count(5, 0), 2);
    assert_eq!(preferred_column_count(5, 1), 2);
    assert_eq!(preferred_column_count(usize::MAX, usize::MAX), usize::MAX);
}

#[test]
fn grid_rows_round_up() {
    assert_eq!(grid_row_count(0, 3), 1);
    assert_eq!(grid_row_count(3, 3), 1);
    assert_eq!(grid_row_count(4, 3), 2);
    assert_eq!(grid_row_count(7, 0), 7);
    assert_eq!(grid_row_count(usize::MAX, 1), usize::MAX);
    assert_eq!(grid_row_count(usize::MAX, usize::MAX), 1);
}

#[test]
fn picker_size_in_pixels() {
    assert_eq!(picker_width_for(1), 44 + 220 + 24);
    assert_eq!(picker_width_for(6), 44 + 6 * 220 + 5 * 14 + 24);
    assert_eq!(picker_width_for(0), 44 + 24);
    assert_eq!(picker_height_for(1, 1), 42 + 44 + 156);
    assert_eq!(picker_height_for(7, 3), 42 + 44 + 3 * 156 + 2 * 14);
    assert_eq!(picker_height_for(0, 0), 42 + 44 + 156);
    assert_eq!(PREVIEW_MAX_WIDTH, 204);
    assert_eq!(PREVIEW_MAX_HEIGHT, 114);
}

fn size(width: i32, height: i32) -> Option<Size> {
    Some(Size { width, height })
}

#[test]
fn picker_dimensions_fit_the_grid_to_the_monitor() {
    // One window: the least size.
    assert_eq!(picker_dimensions(1, 6, None), Size { width: 720, height: 320 });
    assert_eq!(picker_dimensions(0, 6, None), Size { width: 720, height: 320 });
    // Six windows in six columns: 44 + 6 * 220 + 5 * 14 + 24 wide.
    assert_eq!(picker_dimensions(6, 6, None), Size { width: 1458, height: 320 });
    // Thirteen windows in six columns make three rows: 42 + 44 + 3 * 156 + 2 * 14 high.
    assert_eq!(picker_dimensions(13, 6, None), Size { width: 1458, height: 582 });
    // Without a monitor the usual limits hold.
    assert_eq!(picker_dimensions(100, 12, None), Size { width: 1820, height: 980 });
    // With a monitor nine tenths of it, rounded down.
    assert_eq!(picker_dimensions(100, 12, size(1366, 768)), Size { width: 1229, height: 691 });
    // A large monitor leaves the grid its own size: twelve columns, nine rows.
    assert_eq!(picker_dimensions(100, 12, size(3840, 2160)), Size { width: 2862, height: 1602 });
    assert_eq!(picker_dimensions(1000, 12, size(3840, 2160)), Size { width: 2862, height: 1944 });
    assert_eq!(picker_dimensions(2, 6, size(800, 356)), Size { width: 720, height: 320 });
}

#[test]
fn small_monitors_have_no_room_for_the_picker() {
    assert!(monitor_fits_picker(None));
    assert!(monitor_fits_picker(size(800, 356)));
    assert!(!monitor_fits_picker(size(799, 356)));
    assert!(!monitor_fits_picker(size(800, 355)));
    assert!(!monitor_fits_picker(size(0, 0)));
    assert!(!monitor_fits_picker(size(-1920, -1080)));
    assert!(monitor_fits_picker(size(i32::MAX, i32::MAX)));
}

#[test]
fn rendered_columns_follow_the_width() {
    assert_eq!(rendered_column_count(1458, 0), 1);
    assert_eq!(rendered_column_count(1458, 1), 1);
    // (1458 - 40 + 12) / 232 = 6.
    assert_eq!(rendered_column_count(1458, 10), 6);
    assert_eq!(rendered_column_count(1458, 4), 4);
    assert_eq!(rendered_column_count(720, 10), 2);
    assert_eq!(rendered_column_count(491, 10), 1);
    assert_eq!(rendered_column_count(492, 10), 2);
    assert_eq!(rendered_column_count(0, 10), 1);
    assert_eq!(rendered_column_count(i32::MIN, 10), 1);
    assert_eq!(rendered_column_count(i32::MAX, usize::MAX), 9256394);
}
