use alt_tab::platform::macos;
use alt_tab::platform::unsupported;

#[test]
fn unsupported_backend_knows_and_does_nothing() {
    assert!(unsupported::get_open_windows().is_empty());
    assert_eq!(unsupported::capture_preview(7, 204, 114), None);
    assert!(unsupported::capture_previews_batch(&[(0, 7), (1, 8)], 204, 114).is_empty());
    assert_eq!(unsupported::capture_preview_rgba(7, 204, 114), None);
    assert!(unsupported::capture_previews_batch_rgba(&[(0, 7)], 204, 114).is_empty());
    unsupported::activate_window(7);
    assert!(!unsupported::move_app_window("picker", 10, 20));
    assert!(!unsupported::is_modifier_held());
    assert!(!unsupported::is_shift_held());
}

#[test]
fn macos_flags_tell_held_keys() {
    assert!(macos::is_modifier_held(0x0008_0000));
    assert!(macos::is_modifier_held(0x000a_0100));
    assert!(!macos::is_modifier_held(0x0002_0000));
    assert!(!macos::is_modifier_held(0));
    assert!(macos::is_shift_held(0x0002_0000));
    assert!(macos::is_shift_held(u64::MAX));
    assert!(!macos::is_shift_held(0x0008_0000));
    assert!(!macos::move_app_window("picker", 0, 0));
}
