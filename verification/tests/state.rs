use alt_tab::monitor::geometry::{
    intersection_area, monitor_for_bounds, monitor_for_point, monitor_index_for_point, Rect, Size,
};
use alt_tab::monitor::state::{pick_active_monitor, ActiveMonitor, InputState, Stamped};

fn mon(x: i32, y: i32, w: i32, h: i32) -> Rect {
    Rect::new(x, y, w, h)
}

fn stamped(bounds: Rect, at: u64) -> Stamped {
    Stamped {
        monitor: ActiveMonitor::new(bounds),
        at,
    }
}

const SECOND: u64 = 1_000_000_000;

#[test]
fn monitor_for_point_finds_correct_monitor() {
    let monitors = vec![mon(0, 0, 1920, 1080), mon(1920, 0, 2560, 1440)];
    let cases = [
        (100, 100, Some(monitors[0])),
        (1920, 500, Some(monitors[1])),
        (3000, 700, Some(monitors[1])),
        (5000, 0, None),
        (0, 1080, None),
    ];
    for (x, y, expected) in cases {
        assert_eq!(
            monitor_for_point(&monitors, x, y),
            expected,
            "point: ({x}, {y})"
        );
    }
}

#[test]
fn monitor_for_point_at_origin() {
    let monitors = vec![mon(0, 0, 1920, 1080), mon(1920, 0, 2560, 1440)];
    assert_eq!(monitor_for_point(&monitors, 0, 0), Some(monitors[0]));
    assert_eq!(monitor_for_point(&monitors, 1920, 0), Some(monitors[1]));
}

#[test]
fn pick_prefers_newer_cursor_over_focus() {
    let m_focus = mon(0, 0, 1920, 1080);
    let m_cursor = mon(1920, 0, 2560, 1440);
    let now = 10 * SECOND;
    let state = InputState {
        focus: Some(stamped(m_focus, now - 2 * SECOND)),
        cursor: Some(stamped(m_cursor, now - SECOND)),
    };
    let result = pick_active_monitor(&state, m_focus);
    assert_eq!(*result.bounds(), m_cursor);
}

#[test]
fn pick_prefers_newer_focus_over_cursor() {
    let m_focus = mon(0, 0, 1920, 1080);
    let m_cursor = mon(1920, 0, 2560, 1440);
    let now = 10 * SECOND;
    let state = InputState {
        focus: Some(stamped(m_focus, now)),
        cursor: Some(stamped(m_cursor, now - 3 * SECOND)),
    };
    let result = pick_active_monitor(&state, m_focus);
    assert_eq!(*result.bounds(), m_focus);
}

#[test]
fn pick_returns_fallback_with_no_signals() {
    let fallback = mon(0, 0, 1920, 1080);
    let state = InputState::default();
    let result = pick_active_monitor(&state, fallback);
    assert_eq!(*result.bounds(), fallback);
}

#[test]
fn update_cursor_only_commits_when_flagged() {
    let m = mon(0, 0, 1920, 1080);
    let mut state = InputState::default();

    state.update_cursor(m, 1, false);
    assert!(state.cursor.is_none(), "should not commit when uncommitted");

    state.update_cursor(m, 2, true);
    assert_eq!(*state.cursor.as_ref().unwrap().monitor.bounds(), m);
}

#[test]
fn update_cursor_skips_same_monitor() {
    let m = mon(0, 0, 1920, 1080);
    let mut state = InputState::default();
    let t1 = 1000;
    state.update_cursor(m, t1, true);
    let t2 = 2000;
    state.update_cursor(m, t2, true);
    assert_eq!(
        state.cursor.as_ref().unwrap().at,
        t1,
        "should not update timestamp for same monitor"
    );
}

#[test]
fn update_focus_commits_new_monitor() {
    let m = mon(0, 0, 1920, 1080);
    let mut state = InputState::default();
    state.update_focus(Some(m), 5);
    assert_eq!(*state.focus.as_ref().unwrap().monitor.bounds(), m);
}

#[test]
fn update_focus_skips_same_monitor() {
    let m = mon(0, 0, 1920, 1080);
    let mut state = InputState::default();
    let t1 = 1000;
    state.update_focus(Some(m), t1);
    let t2 = 2000;
    state.update_focus(Some(m), t2);
    assert_eq!(
        state.focus.as_ref().unwrap().at,
        t1,
        "should not update timestamp for same monitor"
    );
}

#[test]
fn update_focus_to_none_clears_and_counts_as_change() {
    let a = mon(0, 0, 1920, 1080);
    let mut state = InputState::default();
    state.update_focus(None, 1);
    assert!(state.focus.is_none());
    state.update_focus(Some(a), 2);
    assert_eq!(state.focus.unwrap().at, 2);
    state.update_focus(None, 3);
    assert!(state.focus.is_none());
    // Coming back to the same monitor is a new transition.
    state.update_focus(Some(a), 4);
    assert_eq!(state.focus.unwrap().at, 4);
}

#[test]
fn update_cursor_moves_to_other_monitor_with_new_timestamp() {
    let a = mon(0, 0, 1920, 1080);
    let b = mon(1920, 0, 2560, 1440);
    let mut state = InputState::default();
    state.update_cursor(a, 10, true);
    state.update_focus(Some(a), 11);
    state.update_cursor(b, 20, true);
    let cursor = state.cursor.unwrap();
    assert_eq!(*cursor.monitor.bounds(), b);
    assert_eq!(cursor.at, 20);
    // The focus signal is untouched by pointer updates.
    assert_eq!(state.focus.unwrap().at, 11);
    // An uncommitted update of another monitor changes nothing.
    state.update_cursor(a, 30, false);
    assert_eq!(state.cursor.unwrap(), cursor);
}

#[test]
fn pick_cursor_wins_exact_tie() {
    let m_focus = mon(0, 0, 1920, 1080);
    let m_cursor = mon(1920, 0, 2560, 1440);
    let state = InputState {
        focus: Some(stamped(m_focus, 7)),
        cursor: Some(stamped(m_cursor, 7)),
    };
    assert_eq!(*pick_active_monitor(&state, m_focus).bounds(), m_cursor);
}

#[test]
fn pick_single_signal_wins() {
    let a = mon(0, 0, 1920, 1080);
    let b = mon(1920, 0, 2560, 1440);
    let only_cursor = InputState {
        focus: None,
        cursor: Some(stamped(b, 1)),
    };
    assert_eq!(*pick_active_monitor(&only_cursor, a).bounds(), b);
    let only_focus = InputState {
        focus: Some(stamped(b, 1)),
        cursor: None,
    };
    assert_eq!(*pick_active_monitor(&only_focus, a).bounds(), b);
}

#[test]
fn monitor_for_point_uses_half_open_bounds() {
    let monitors = vec![mon(-100, -50, 100, 50)];
    assert_eq!(monitor_for_point(&monitors, -100, -50), Some(monitors[0]));
    assert_eq!(monitor_for_point(&monitors, -1, -1), Some(monitors[0]));
    assert_eq!(monitor_for_point(&monitors, 0, -1), None);
    assert_eq!(monitor_for_point(&monitors, -1, 0), None);
    assert_eq!(monitor_for_point(&monitors, -101, -50), None);
    assert_eq!(monitor_for_point(&[], 0, 0), None);
}

#[test]
fn monitor_for_point_returns_first_of_overlapping_monitors() {
    let monitors = vec![mon(0, 0, 100, 100), mon(50, 50, 100, 100)];
    assert_eq!(monitor_for_point(&monitors, 60, 60), Some(monitors[0]));
    assert_eq!(monitor_for_point(&monitors, 120, 120), Some(monitors[1]));
}

#[test]
fn monitor_for_point_survives_extreme_coordinates() {
    let monitors = vec![mon(i32::MAX - 10, i32::MAX - 10, i32::MAX, i32::MAX)];
    assert_eq!(
        monitor_for_point(&monitors, i32::MAX, i32::MAX),
        Some(monitors[0])
    );
    assert_eq!(monitor_for_point(&monitors, i32::MIN, i32::MIN), None);
}

#[test]
fn monitor_for_bounds_prefers_greatest_overlap() {
    let monitors = vec![mon(0, 0, 1920, 1080), mon(1920, 0, 2560, 1440)];
    // Mostly on the second monitor although it touches the first one first.
    let window = mon(1800, 100, 800, 600);
    assert_eq!(intersection_area(&window, &monitors[0]), 120 * 600);
    assert_eq!(intersection_area(&window, &monitors[1]), 680 * 600);
    assert_eq!(monitor_for_bounds(&monitors, &window), Some(monitors[1]));
    // Mostly on the first monitor.
    let window = mon(1000, 100, 1000, 600);
    assert_eq!(monitor_for_bounds(&monitors, &window), Some(monitors[0]));
}

#[test]
fn monitor_for_bounds_ignores_touching_and_distant_monitors() {
    let monitors = vec![mon(0, 0, 1920, 1080), mon(1920, 0, 2560, 1440)];
    assert_eq!(monitor_for_bounds(&monitors, &mon(-500, 0, 500, 500)), None);
    assert_eq!(monitor_for_bounds(&monitors, &mon(9000, 9000, 10, 10)), None);
    assert_eq!(monitor_for_bounds(&monitors, &mon(10, 10, 0, 100)), None);
    assert_eq!(monitor_for_bounds(&monitors, &mon(10, 10, -5, 100)), None);
    assert_eq!(monitor_for_bounds(&[], &mon(0, 0, 10, 10)), None);
}

#[test]
fn monitor_for_bounds_returns_last_of_equal_overlaps() {
    let monitors = vec![mon(0, 0, 100, 100), mon(100, 0, 100, 100)];
    let window = mon(50, 0, 100, 100);
    assert_eq!(monitor_for_bounds(&monitors, &window), Some(monitors[1]));
}

#[test]
fn intersection_area_of_the_largest_rectangles() {
    let big = mon(i32::MIN, i32::MIN, i32::MAX, i32::MAX);
    assert_eq!(
        intersection_area(&big, &big),
        (i32::MAX as i64) * (i32::MAX as i64)
    );
    assert_eq!(intersection_area(&big, &mon(0, 0, 10, 10)), 0);
}

#[test]
fn centered_bounds_is_centred_and_a_third_down() {
    let m = ActiveMonitor::new(mon(1920, 0, 2560, 1440));
    let r = m.centered_bounds(Size {
        width: 1000,
        height: 600,
    });
    assert_eq!(r, mon(1920 + 780, 280, 1000, 600));
    // Odd differences round toward zero, also when the window is larger.
    let small = ActiveMonitor::new(mon(0, 0, 101, 101));
    let r = small.centered_bounds(Size {
        width: 10,
        height: 10,
    });
    assert_eq!(r, mon(45, 30, 10, 10));
    let r = small.centered_bounds(Size {
        width: 104,
        height: 106,
    });
    assert_eq!(r, mon(-1, -1, 104, 106));
}

#[test]
fn centered_bounds_stops_at_the_ends_of_the_range() {
    let far = ActiveMonitor::new(mon(i32::MAX, i32::MIN, i32::MAX, i32::MIN));
    let r = far.centered_bounds(Size {
        width: 1,
        height: i32::MAX,
    });
    assert_eq!(r.x, i32::MAX);
    assert_eq!(r.y, i32::MIN);
    assert_eq!(r.width, 1);
    assert_eq!(r.height, i32::MAX);
}

#[test]
fn monitor_index_for_point_gives_the_position() {
    let monitors = vec![mon(0, 0, 1920, 1080), mon(1920, 0, 2560, 1440), mon(0, 0, 5000, 5000)];
    assert_eq!(monitor_index_for_point(&monitors, 100, 100), Some(0));
    assert_eq!(monitor_index_for_point(&monitors, 1920, 500), Some(1));
    assert_eq!(monitor_index_for_point(&monitors, 100, 3000), Some(2));
    assert_eq!(monitor_index_for_point(&monitors, -1, 0), None);
    assert_eq!(monitor_index_for_point(&[], 0, 0), None);
}

#[test]
fn center_rounds_toward_the_origin_of_the_rectangle() {
    assert_eq!(mon(0, 0, 1920, 1080).center(), (960, 540));
    assert_eq!(mon(10, 20, 5, 7).center(), (12, 23));
    assert_eq!(mon(10, 20, -5, -7).center(), (8, 17));
    assert_eq!(mon(i32::MAX, i32::MIN, i32::MAX, i32::MIN).center(), (
        i32::MAX as i64 + (i32::MAX / 2) as i64,
        i32::MIN as i64 - (1i64 << 30),
    ));
}

#[test]
fn rect_contains_its_left_and_top_edge_only() {
    let r = mon(10, 20, 30, 40);
    assert!(r.contains_point(10, 20));
    assert!(r.contains_point(39, 59));
    assert!(!r.contains_point(40, 20));
    assert!(!r.contains_point(10, 60));
    assert!(!r.contains_point(9, 20));
    assert!(!mon(10, 20, 0, 40).contains_point(10, 20));
    assert!(!mon(10, 20, -5, 40).contains_point(8, 20));
}
