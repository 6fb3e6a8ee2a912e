use alt_tab::config::{
    default_reset_selection_on_open, install_id_from, valid_install_id, ActionMode, AltTabConfig,
    DisplayConfig, LabelConfig, OpenBehavior,
};
use alt_tab::monitor::config::{strategy_from_name, MonitorConfig};
use alt_tab::monitor::poller::Strategy;
use alt_tab::text::{capitalize_first, eq_ignore_ascii_case, is_blank, starts_with, strip_prefix, trim};

#[test]
fn defaults_are_the_documented_ones() {
    let config = AltTabConfig::default();
    assert_eq!(config.display, DisplayConfig { max_columns: 6 });
    assert_eq!(config.action_mode, ActionMode::HoldToSwitch);
    assert!(config.reset_selection_on_open);
    assert!(default_reset_selection_on_open());
    assert_eq!(config.open_behavior, OpenBehavior::CycleOnce);
    assert_eq!(
        config.label,
        LabelConfig { show_app_name: true, show_window_title: true }
    );
    assert_eq!(DisplayConfig::default().max_columns, 6);
    assert_eq!(ActionMode::default(), ActionMode::HoldToSwitch);
    assert_eq!(OpenBehavior::default(), OpenBehavior::CycleOnce);
}

#[test]
fn monitor_config_defaults() {
    let config = MonitorConfig::default();
    assert_eq!(config.poll_min_ms, 16);
    assert_eq!(config.poll_max_ms, 500);
    assert_eq!(config.commit_threshold_ms, 128);
    assert_eq!(config.strategy, "basic");
}

fn monitor_config(min: u64, max: u64, commit: u64, strategy: &str) -> MonitorConfig {
    MonitorConfig {
        poll_min_ms: min,
        poll_max_ms: max,
        commit_threshold_ms: commit,
        strategy: strategy.to_string(),
    }
}

#[test]
fn normalized_replaces_crossed_bounds_by_defaults() {
    let fixed = monitor_config(600, 100, 77, "momentum").normalized();
    assert_eq!(fixed, monitor_config(16, 500, 77, "momentum"));
    // Equal bounds are in order.
    let kept = monitor_config(100, 100, 77, "momentum").normalized();
    assert_eq!(kept, monitor_config(100, 100, 77, "momentum"));
    let kept = monitor_config(0, u64::MAX, 0, "x").normalized();
    assert_eq!(kept, monitor_config(0, u64::MAX, 0, "x"));
}

#[test]
fn normalized_replaces_blank_strategy_by_default() {
    assert_eq!(monitor_config(1, 2, 3, "").normalized().strategy, "basic");
    assert_eq!(monitor_config(1, 2, 3, " \t\n").normalized().strategy, "basic");
    assert_eq!(monitor_config(1, 2, 3, "\u{a0}\u{3000}").normalized().strategy, "basic");
    // A name with white space around it is kept as it is.
    assert_eq!(monitor_config(1, 2, 3, " momentum ").normalized().strategy, " momentum ");
    // A zero-width space is no white space.
    assert_eq!(monitor_config(1, 2, 3, "\u{200b}").normalized().strategy, "\u{200b}");
}

#[test]
fn same_as_compares_every_field() {
    let base = monitor_config(16, 500, 128, "basic");
    assert!(base.same_as(&monitor_config(16, 500, 128, "basic")));
    assert!(!base.same_as(&monitor_config(17, 500, 128, "basic")));
    assert!(!base.same_as(&monitor_config(16, 501, 128, "basic")));
    assert!(!base.same_as(&monitor_config(16, 500, 129, "basic")));
    assert!(!base.same_as(&monitor_config(16, 500, 128, "Basic")));
}

#[test]
fn strategy_from_name_knows_momentum_in_any_case() {
    assert!(matches!(strategy_from_name("momentum"), Strategy::Momentum(_)));
    assert!(matches!(strategy_from_name("MOMENTUM"), Strategy::Momentum(_)));
    assert!(matches!(strategy_from_name("MoMenTum"), Strategy::Momentum(_)));
    assert!(matches!(strategy_from_name("basic"), Strategy::Basic(_)));
    assert!(matches!(strategy_from_name(""), Strategy::Basic(_)));
    assert!(matches!(strategy_from_name(" momentum"), Strategy::Basic(_)));
    assert!(matches!(strategy_from_name("momentums"), Strategy::Basic(_)));
    assert!(matches!(strategy_from_name("momentun"), Strategy::Basic(_)));
    // Only ASCII letters fold: the Kelvin sign is no `k`.
    assert!(matches!(strategy_from_name("momentu\u{1e3f}"), Strategy::Basic(_)));
    if let Strategy::Momentum(s) = strategy_from_name("momentum") {
        assert_eq!(s.streak(), 0);
    }
}

#[test]
fn label_format_covers_the_four_combinations() {
    let both = LabelConfig { show_app_name: true, show_window_title: true };
    assert_eq!(both.format("firefox", "Inbox"), "Firefox - Inbox");
    assert_eq!(both.format("firefox", ""), "Firefox");
    assert_eq!(both.format("", "Inbox"), "Inbox");
    assert_eq!(both.format("", ""), "");
    let app_only = LabelConfig { show_app_name: true, show_window_title: false };
    assert_eq!(app_only.format("firefox", "Inbox"), "Firefox");
    assert_eq!(app_only.format("", "Inbox"), "");
    let title_only = LabelConfig { show_app_name: false, show_window_title: true };
    assert_eq!(title_only.format("firefox", "Inbox"), "Inbox");
    assert_eq!(title_only.format("firefox", ""), "");
    let neither = LabelConfig { show_app_name: false, show_window_title: false };
    assert_eq!(neither.format("firefox", "Inbox"), "");
}

#[test]
fn capitalize_first_uses_the_unicode_mapping() {
    assert_eq!(capitalize_first(""), "");
    assert_eq!(capitalize_first("a"), "A");
    assert_eq!(capitalize_first("Already"), "Already");
    assert_eq!(capitalize_first("élan"), "Élan");
    assert_eq!(capitalize_first("ßtraße"), "SStraße");
    assert_eq!(capitalize_first("1password"), "1password");
    assert_eq!(capitalize_first(" x"), " x");
}

#[test]
fn valid_install_id_accepts_letters_digits_hyphen_underscore() {
    assert!(valid_install_id("a"));
    assert!(valid_install_id("dev-build_42"));
    assert!(valid_install_id("AZaz09-_"));
    assert!(valid_install_id(&"x".repeat(64)));
    assert!(!valid_install_id(""));
    assert!(!valid_install_id(&"x".repeat(65)));
    assert!(!valid_install_id("a b"));
    assert!(!valid_install_id("a/b"));
    assert!(!valid_install_id("a.b"));
    assert!(!valid_install_id("é"));
    assert!(!valid_install_id("../etc"));
    // Thirty-two two-byte characters are sixty-four bytes, and still invalid.
    assert!(!valid_install_id(&"é".repeat(32)));
}

#[test]
fn install_id_from_trims_then_validates() {
    assert_eq!(install_id_from("  stable \n"), Some("stable".to_string()));
    assert_eq!(install_id_from("stable"), Some("stable".to_string()));
    assert_eq!(install_id_from("   "), None);
    assert_eq!(install_id_from(""), None);
    assert_eq!(install_id_from("two words"), None);
}

#[test]
fn trim_removes_unicode_white_space_at_both_ends() {
    assert_eq!(trim("  a b \t"), "a b");
    assert_eq!(trim("\u{2003}x\u{a0}"), "x");
    assert_eq!(trim("x"), "x");
    assert_eq!(trim(""), "");
    assert_eq!(trim(" \n "), "");
    assert_eq!(trim("\u{200b} x"), "\u{200b} x");
    assert_eq!(trim(" é "), "é");
    assert!(is_blank(" \r\n"));
    assert!(is_blank(""));
    assert!(!is_blank(" . "));
}

#[test]
fn text_comparisons() {
    assert!(eq_ignore_ascii_case("Hello", "hELLO"));
    assert!(eq_ignore_ascii_case("", ""));
    assert!(!eq_ignore_ascii_case("hello", "hell"));
    assert!(!eq_ignore_ascii_case("É", "é"));
    assert!(eq_ignore_ascii_case("é[", "é["));
    assert!(!eq_ignore_ascii_case("[", "{"));
    assert!(!eq_ignore_ascii_case("@", "`"));
    assert!(starts_with("handled\n", "handled"));
    assert!(starts_with("x", ""));
    assert!(!starts_with("hand", "handled"));
    assert_eq!(strip_prefix("action:show", "action:"), Some("show"));
    assert_eq!(strip_prefix("action:", "action:"), Some(""));
    assert_eq!(strip_prefix("show", "action:"), None);
    assert_eq!(strip_prefix("éa", "é"), Some("a"));
}
