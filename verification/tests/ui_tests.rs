use twiggy::app::{
    parse_hex_color, plan_recovery, read_color, ColorFault, ErrorState, Recovery, Rgb,
};
use twiggy::config::{
    check_limits, default_version, migrate_version, validate_limits, GitConfig, LimitFault,
    LoggingConfig, MenuPreferences, PerformanceConfig,
};
use twiggy::error::TwiggyError;
use twiggy::logging::stale_logs;
use twiggy::ui::components::error_dialog::{
    error_icon, ErrorDialog, ErrorNotification, NotificationManager, NotificationType,
};
use twiggy::ui::components::log_viewer::{LogLevel, LogViewerState};
use twiggy::ui::components::{DiffViewer, FileTree, StatusBar};

fn messages(manager: &NotificationManager) -> Vec<String> {
    manager.notifications().iter().map(|n| n.message.clone()).collect()
}

#[test]
fn the_manager_holds_five_and_drops_the_oldest() {
    let mut manager = NotificationManager::default();
    assert_eq!(manager.notification_count(), 0);
    for i in 0..5 {
        manager.add_notification(format!("n{}", i), NotificationType::Info, None);
    }
    assert_eq!(manager.notification_count(), 5);
    manager.add_notification("n5".to_string(), NotificationType::Error, Some(3));
    assert_eq!(manager.notification_count(), 5);
    assert_eq!(messages(&manager), vec!["n1", "n2", "n3", "n4", "n5"]);
    let last = &manager.notifications()[4];
    assert_eq!(last.notification_type, NotificationType::Error);
    assert_eq!(last.auto_dismiss_seconds, Some(3));
    assert!(last.is_visible);
    manager.clear_all();
    assert_eq!(manager.notification_count(), 0);

    let mut none = NotificationManager::with_capacity(0);
    none.add_notification("x".to_string(), NotificationType::Info, None);
    assert_eq!(none.notification_count(), 0);
}

#[test]
fn update_drops_what_is_hidden_or_due() {
    let mut manager = NotificationManager::default();
    manager.add_notification("stays".to_string(), NotificationType::Info, None);
    manager.add_notification("due".to_string(), NotificationType::Warning, Some(0));
    manager.add_notification("hidden".to_string(), NotificationType::Success, None);
    manager.add_notification("later".to_string(), NotificationType::Info, Some(3600));
    manager.dismiss(2);
    manager.dismiss(17);
    assert_eq!(manager.notification_count(), 4);
    assert!(!manager.notifications()[2].is_visible);
    manager.update();
    assert_eq!(messages(&manager), vec!["stays", "later"]);
    manager.update();
    assert_eq!(messages(&manager), vec!["stays", "later"]);
}

#[test]
fn notifications_fall_due_after_their_time() {
    let mut n = ErrorNotification::new("m".to_string(), NotificationType::Info, Some(5));
    assert!(n.is_visible);
    assert!(!n.is_due_after(4));
    assert!(n.is_due_after(5));
    assert!(n.is_due_after(6));
    assert!(!n.should_auto_dismiss());
    n.dismiss();
    assert!(!n.is_visible);
    assert_eq!(n.message, "m");

    let never = ErrorNotification::new("m".to_string(), NotificationType::Info, None);
    assert!(!never.is_due_after(u64::MAX));
    assert!(!never.should_auto_dismiss());
    let at_once = ErrorNotification::new("m".to_string(), NotificationType::Info, Some(0));
    assert!(at_once.should_auto_dismiss());
}

#[test]
fn error_dialogs_start_visible() {
    let mut dialog = ErrorDialog::new(TwiggyError::Ui { message: "oops".to_string() });
    assert!(dialog.is_visible());
    assert!(!dialog.show_details);
    assert_eq!(dialog.error.error_code(), 4000);
    dialog.dismiss();
    assert!(!dialog.is_visible());
}

#[test]
fn error_states_carry_the_structured_error() {
    let state = ErrorState::new(&TwiggyError::Config { message: "bad theme".to_string() });
    assert_eq!(state.message, "Configuration issue: bad theme. Using default settings.");
    assert_eq!(state.error_code, 3000);
    assert!(state.is_recoverable);
    assert_eq!(state.suggested_action, Some("Reset to default configuration".to_string()));
    assert!(state.show_dialog);
    assert_eq!(plan_recovery(&Some(state)), Recovery::ResetConfiguration);

    let network = ErrorState::new(&TwiggyError::Network { message: "down".to_string() });
    assert_eq!(plan_recovery(&Some(network)), Recovery::Acknowledge);
    let fatal = ErrorState::new(&TwiggyError::Application { message: "boom".to_string() });
    assert_eq!(plan_recovery(&Some(fatal)), Recovery::Refuse);
    assert_eq!(plan_recovery(&None), Recovery::Refuse);
}

#[test]
fn log_levels_are_read_in_any_case() {
    assert_eq!(LogLevel::from_str("trace"), Some(LogLevel::Trace));
    assert_eq!(LogLevel::from_str("Debug"), Some(LogLevel::Debug));
    assert_eq!(LogLevel::from_str("INFO"), Some(LogLevel::Info));
    assert_eq!(LogLevel::from_str("wArN"), Some(LogLevel::Warn));
    assert_eq!(LogLevel::from_str("error"), Some(LogLevel::Error));
    assert_eq!(LogLevel::from_str("fatal"), None);
    assert_eq!(LogLevel::from_str(""), None);
    assert_eq!(LogLevel::from_upper("WARN"), Some(LogLevel::Warn));
    assert_eq!(LogLevel::from_upper("warn"), None);
}

#[test]
fn viewer_state_starts_with_three_levels() {
    let blank = LogViewerState::default();
    assert!(blank.selected_levels.is_empty());
    assert!(!blank.auto_scroll);
    assert!(!blank.shows_level(LogLevel::Info));
    let state = LogViewerState::initial();
    assert_eq!(state.selected_levels, vec![LogLevel::Info, LogLevel::Warn, LogLevel::Error]);
    assert!(state.auto_scroll && state.show_timestamps && state.show_targets);
    assert_eq!(state.search_text, "");
    assert!(state.shows_level(LogLevel::Warn));
    assert!(!state.shows_level(LogLevel::Debug));
}

#[test]
fn panels_start_with_their_defaults() {
    let diff = DiffViewer::new();
    assert!(diff.show_line_numbers && diff.syntax_highlighting);
    let tree = FileTree::new();
    assert!(tree.expanded_folders.is_empty());
    assert_eq!(tree.selected_file, None);
    let bar = StatusBar::new();
    assert_eq!(bar.current_branch, "main");
    assert_eq!(bar.uncommitted_changes, 0);
}

fn limits(max_commits: usize, interval: u32, cache: usize, threads: usize, fps: u32) -> (GitConfig, PerformanceConfig) {
    let mut git = GitConfig::with_clone_path("/tmp/repos".to_string());
    git.max_commits = max_commits;
    git.fetch_interval_minutes = interval;
    let performance = PerformanceConfig {
        enable_caching: true,
        cache_size_mb: cache,
        enable_background_operations: true,
        max_background_threads: threads,
        target_fps: fps,
    };
    (git, performance)
}

#[test]
fn integer_settings_are_checked_in_order() {
    let (git, performance) = limits(1000, 15, 100, 4, 60);
    assert_eq!(check_limits(&git, &performance), None);
    assert!(validate_limits(&git, &performance).is_ok());
    for (g, p) in [limits(1, 1, 1, 1, 30), limits(10000, 1440, 2048, 16, 144)] {
        assert_eq!(check_limits(&g, &p), None);
    }
    let cases = vec![
        (limits(0, 0, 0, 0, 0), LimitFault::MaxCommits, "Max commits must be between 1 and 10000"),
        (limits(10001, 15, 100, 4, 60), LimitFault::MaxCommits, "Max commits"),
        (limits(5, 0, 0, 0, 0), LimitFault::FetchInterval, "Fetch interval must be between 1 and 1440 minutes"),
        (limits(5, 1441, 100, 4, 60), LimitFault::FetchInterval, "Fetch interval"),
        (limits(5, 5, 0, 0, 0), LimitFault::CacheSize, "Cache size must be between 1 and 2048 MB"),
        (limits(5, 5, 2049, 4, 60), LimitFault::CacheSize, "Cache size"),
        (limits(5, 5, 5, 0, 0), LimitFault::BackgroundThreads, "Max background threads must be between 1 and 16"),
        (limits(5, 5, 5, 17, 60), LimitFault::BackgroundThreads, "Max background threads"),
        (limits(5, 5, 5, 5, 29), LimitFault::TargetFps, "Target FPS must be between 30 and 144"),
        (limits(5, 5, 5, 5, 145), LimitFault::TargetFps, "Target FPS"),
    ];
    for ((git, performance), fault, text) in cases {
        assert_eq!(check_limits(&git, &performance), Some(fault));
        let error = validate_limits(&git, &performance).unwrap_err();
        assert_eq!(error.error_code(), 9000);
        assert!(error.to_string().contains(text));
    }
    let error = validate_limits(&limits(5, 5, 0, 4, 60).0, &limits(5, 5, 0, 4, 60).1).unwrap_err();
    assert!(matches!(
        error,
        TwiggyError::Validation { field, .. } if field == "performance.cache_size_mb"
    ));
}

#[test]
fn configuration_defaults_and_migration() {
    assert_eq!(default_version(), 1);
    assert_eq!(migrate_version(0), (1, true));
    assert_eq!(migrate_version(1), (1, false));
    assert_eq!(migrate_version(7), (7, false));
    let git = GitConfig::with_clone_path("/home/u".to_string());
    assert_eq!(git.default_clone_path, "/home/u");
    assert_eq!(git.max_commits, 1000);
    assert_eq!(git.default_branch, "main");
    assert!(git.auto_fetch && !git.show_stashes);
    assert_eq!(git.fetch_interval_minutes, 15);
    let menu = MenuPreferences::default();
    assert!(menu.show_menu_bar && menu.show_keyboard_shortcuts);
    assert!(!menu.compact_menus && !menu.show_icons);
    let performance = PerformanceConfig::default();
    assert_eq!(performance.cache_size_mb, 100);
    assert_eq!(performance.max_background_threads, 4);
    assert_eq!(performance.target_fps, 60);
    let logging = LoggingConfig::default();
    assert_eq!(logging.level, twiggy::config::LogLevel::Info);
    assert!(logging.file_enabled && !logging.console_enabled);
    assert_eq!(logging.max_file_size, 10 * 1024 * 1024);
    assert_eq!(logging.max_files, 5);
    assert_eq!(logging.log_directory, None);
    let files = twiggy::logging::LoggingConfig::with_directory("logs".to_string());
    assert_eq!(files.log_level, "info");
    assert_eq!(files.max_log_files, 10);
    assert_eq!(twiggy::logging::log_performance("sum", || 2 + 3), 5);
}

fn recent_paths(list: &twiggy::config::RecentRepositories) -> Vec<String> {
    list.repositories.iter().map(|r| r.path.clone()).collect()
}

#[test]
fn recent_stores_come_latest_first_each_once() {
    let mut list = twiggy::config::RecentRepositories::default();
    assert_eq!(list.max_count, 10);
    list.add_repository_at("/a".to_string(), "a".to_string(), 1);
    list.add_repository_at("/b".to_string(), "b".to_string(), 2);
    list.add_repository_at("/c".to_string(), "c".to_string(), 3);
    assert_eq!(recent_paths(&list), vec!["/c", "/b", "/a"]);
    list.add_repository_at("/a".to_string(), "again".to_string(), 4);
    assert_eq!(recent_paths(&list), vec!["/a", "/c", "/b"]);
    assert_eq!(list.repositories[0].name, "again");
    assert_eq!(list.repositories[0].last_opened, 4);
    assert_eq!(list.repositories[1].last_opened, 3);

    list.max_count = 2;
    list.add_repository_at("/d".to_string(), "d".to_string(), 5);
    assert_eq!(recent_paths(&list), vec!["/d", "/a"]);
    list.add_repository("/e".to_string(), "e".to_string());
    assert_eq!(recent_paths(&list), vec!["/e", "/d"]);
    assert!(list.repositories[0].last_opened > 1_600_000_000);

    list.remove_repository("/missing");
    assert_eq!(recent_paths(&list), vec!["/e", "/d"]);
    list.remove_repository("/e");
    assert_eq!(recent_paths(&list), vec!["/d"]);
    list.clear();
    assert!(list.repositories.is_empty());
    assert_eq!(list.max_count, 2);

    let mut none = twiggy::config::RecentRepositories { repositories: Vec::new(), max_count: 0 };
    none.add_repository_at("/a".to_string(), "a".to_string(), 1);
    assert!(none.repositories.is_empty());
}

#[test]
fn recent_stores_that_are_gone_are_dropped() {
    let mut list = twiggy::config::RecentRepositories::default();
    for (i, path) in ["/a", "/b", "/c", "/d"].iter().enumerate() {
        list.add_repository_at(path.to_string(), path.to_string(), i as i64);
    }
    list.validate_and_clean(&vec![true, false]);
    assert_eq!(recent_paths(&list), vec!["/d", "/c", "/b", "/a"]);
    list.validate_and_clean(&vec![true, false, false, true]);
    assert_eq!(recent_paths(&list), vec!["/d", "/a"]);
    list.validate_and_clean(&vec![false, false]);
    assert!(list.repositories.is_empty());
    list.validate_and_clean(&vec![]);
    assert!(list.repositories.is_empty());
}

#[test]
fn only_the_newest_logs_stay() {
    assert_eq!(stale_logs(&vec![], 3), Vec::<bool>::new());
    assert_eq!(stale_logs(&vec![5, 9, 1], 3), vec![false, false, false]);
    assert_eq!(stale_logs(&vec![5, 9, 1], 5), vec![false, false, false]);
    assert_eq!(stale_logs(&vec![5, 9, 1], 2), vec![false, false, true]);
    assert_eq!(stale_logs(&vec![5, 9, 1, 7], 1), vec![true, false, true, true]);
    assert_eq!(stale_logs(&vec![5, 9, 1], 0), vec![true, true, true]);
    assert_eq!(stale_logs(&vec![4, 4, 4], 2), vec![false, false, true]);
    assert_eq!(stale_logs(&vec![4, 8, 4, 8], 3), vec![false, false, true, false]);
}

#[test]
fn colours_are_read_from_hex_text() {
    let ok = |r, g, b| Ok(Rgb { red: r, green: g, blue: b });
    assert_eq!(read_color("#007ACC"), ok(0x00, 0x7a, 0xcc));
    assert_eq!(read_color("007acc"), ok(0x00, 0x7a, 0xcc));
    assert_eq!(read_color("###ffFFff"), ok(255, 255, 255));
    assert_eq!(read_color("#+1+a+F"), ok(1, 10, 15));
    assert_eq!(read_color(""), Err(ColorFault::Length));
    assert_eq!(read_color("#"), Err(ColorFault::Length));
    assert_eq!(read_color("#12345"), Err(ColorFault::Length));
    assert_eq!(read_color("#1234567"), Err(ColorFault::Length));
    assert_eq!(read_color("12#456"), Err(ColorFault::Green));
    assert_eq!(read_color("1#3456"), Err(ColorFault::Red));
    assert_eq!(read_color("#g00000"), Err(ColorFault::Red));
    assert_eq!(read_color("#-10000"), Err(ColorFault::Red));
    assert_eq!(read_color("#1+0000"), Err(ColorFault::Red));
    assert_eq!(read_color("#00 000"), Err(ColorFault::Green));
    assert_eq!(read_color("#0000zz"), Err(ColorFault::Blue));
    assert_eq!(read_color("#\u{e9}\u{e9}0000"), Err(ColorFault::Red));
    assert_eq!(parse_hex_color("#FF5722"), ok(0xff, 0x57, 0x22).map_err(|f: ColorFault| f.message()));
    assert_eq!(parse_hex_color("#FF57"), Err("Invalid hex color length".to_string()));
    assert_eq!(parse_hex_color("#xx5722"), Err("Invalid red component".to_string()));
    assert_eq!(parse_hex_color("#FFxx22"), Err("Invalid green component".to_string()));
    assert_eq!(parse_hex_color("#FF57xx"), Err("Invalid blue component".to_string()));
}

#[test]
fn themes_toggle_between_light_and_dark() {
    use_theme(twiggy::config::ThemeType::Light, twiggy::config::ThemeType::Dark);
    use_theme(twiggy::config::ThemeType::Dark, twiggy::config::ThemeType::Light);
    use_theme(twiggy::config::ThemeType::System, twiggy::config::ThemeType::Light);
}

fn use_theme(from: twiggy::config::ThemeType, to: twiggy::config::ThemeType) {
    assert_eq!(from.toggled(), to);
}

#[test]
fn errors_have_a_sign_by_group() {
    assert_eq!(error_icon(1000), "\u{1F527}");
    assert_eq!(error_icon(1999), "\u{1F527}");
    assert_eq!(error_icon(2000), "\u{1F4C1}");
    assert_eq!(error_icon(3500), "\u{2699}\u{FE0F}");
    assert_eq!(error_icon(4999), "\u{1F5A5}\u{FE0F}");
    assert_eq!(error_icon(5000), "\u{274C}");
    assert_eq!(error_icon(0), "\u{274C}");
    assert_eq!(error_icon(999), "\u{274C}");
    let dialog = ErrorDialog::new(TwiggyError::Config { message: "m".to_string() });
    assert_eq!(dialog.icon(), "\u{2699}\u{FE0F}");
}

#[test]
fn notifications_count_down() {
    let n = ErrorNotification::new("m".to_string(), NotificationType::Info, Some(5));
    assert_eq!(n.remaining_after(0), Some(5));
    assert_eq!(n.remaining_after(3), Some(2));
    assert_eq!(n.remaining_after(5), Some(0));
    assert_eq!(n.remaining_after(u64::MAX), Some(0));
    let never = ErrorNotification::new("m".to_string(), NotificationType::Info, None);
    assert_eq!(never.remaining_after(3), None);
}
