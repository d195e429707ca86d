use twiggy::text::cut;
use twiggy::ui::components::log_viewer::{LogEntry, LogLevel, LogViewer};

fn lines(texts: &[&str]) -> Vec<String> {
    texts.iter().map(|t| t.to_string()).collect()
}

fn sample() -> Vec<String> {
    lines(&[
        "2024-03-01 10:00:00Z INFO twiggy::app Application started",
        "2024-03-01 10:00:01Z debug twiggy::git opening store",
        "not a log line",
        "2024-03-01 10:00:02Z WARN twiggy::git Slow walk of history",
        "2024-03-01 10:00:03Z ERROR twiggy::config Failed to save",
        "2024-03-01 10:00:04Z fatal twiggy::config unknown level",
        "yesterday noon INFO twiggy::app bad instant",
        "2024-03-01 10:00:05Z TRACE twiggy::ui ",
    ])
}

#[test]
fn texts_are_cut_at_the_first_occurrence() {
    assert_eq!(cut("a b c", ' '), Some(("a".to_string(), "b c".to_string())));
    assert_eq!(cut(" lead", ' '), Some((String::new(), "lead".to_string())));
    assert_eq!(cut("trail ", ' '), Some(("trail".to_string(), String::new())));
    assert_eq!(cut("none", ' '), None);
    assert_eq!(cut("", ' '), None);
    assert_eq!(cut("\u{e9}t\u{e9}=1", '='), Some(("\u{e9}t\u{e9}".to_string(), "1".to_string())));
}

#[test]
fn log_lines_are_read_in_five_parts() {
    let entry =
        LogEntry::parse("2024-03-01 10:00:00Z INFO twiggy::app Application started in 5 ms")
            .unwrap();
    assert_eq!(entry.timestamp, 1_709_287_200_000);
    assert_eq!(entry.level, LogLevel::Info);
    assert_eq!(entry.target, "twiggy::app");
    assert_eq!(entry.message, "Application started in 5 ms");
    assert_eq!(entry.raw_line, "2024-03-01 10:00:00Z INFO twiggy::app Application started in 5 ms");

    let shifted = LogEntry::parse("2024-03-01 12:00:00.250+02:00 warn t m").unwrap();
    assert_eq!(shifted.timestamp, 1_709_287_200_250);
    assert_eq!(shifted.level, LogLevel::Warn);
    assert_eq!(shifted.message, "m");

    let blank = LogEntry::parse("2024-03-01 10:00:05Z TRACE twiggy::ui ").unwrap();
    assert_eq!(blank.message, "");

    assert!(LogEntry::parse("").is_none());
    assert!(LogEntry::parse("2024-03-01 10:00:00Z INFO target").is_none());
    assert!(LogEntry::parse("2024-03-01 10:00:00Z FATAL target message").is_none());
    assert!(LogEntry::parse("2024-03-01 nonsense INFO target message").is_none());
    assert!(LogEntry::parse("2024-03-01  10:00:00Z INFO target message").is_none());
}

#[test]
fn the_viewer_shows_selected_levels_in_order() {
    let mut viewer = LogViewer::new();
    assert!(viewer.entries().is_empty());
    assert!(viewer.filtered_entries().is_empty());
    viewer.load_lines(&sample());
    let messages: Vec<&str> = viewer.entries().iter().map(|e| e.message.as_str()).collect();
    assert_eq!(
        messages,
        vec!["Application started", "opening store", "Slow walk of history", "Failed to save", ""]
    );
    assert_eq!(*viewer.filtered_entries(), vec![0, 2, 3]);

    viewer.set_level(LogLevel::Debug, true);
    assert_eq!(*viewer.filtered_entries(), vec![0, 1, 2, 3]);
    viewer.set_level(LogLevel::Debug, true);
    assert_eq!(
        viewer.state().selected_levels,
        vec![LogLevel::Info, LogLevel::Warn, LogLevel::Error, LogLevel::Debug]
    );
    viewer.set_level(LogLevel::Info, false);
    viewer.set_level(LogLevel::Trace, false);
    assert_eq!(
        viewer.state().selected_levels,
        vec![LogLevel::Warn, LogLevel::Error, LogLevel::Debug]
    );
    assert_eq!(*viewer.filtered_entries(), vec![1, 2, 3]);
}

#[test]
fn the_viewer_searches_messages_and_targets_whatever_the_case() {
    let mut viewer = LogViewer::new();
    viewer.load_lines(&sample());
    viewer.set_search_text("SLOW".to_string());
    assert_eq!(*viewer.filtered_entries(), vec![2]);
    viewer.set_search_text("twiggy::GIT".to_string());
    assert_eq!(*viewer.filtered_entries(), vec![2]);
    viewer.set_level(LogLevel::Debug, true);
    assert_eq!(*viewer.filtered_entries(), vec![1, 2]);
    viewer.set_search_text("nothing like it".to_string());
    assert!(viewer.filtered_entries().is_empty());
    viewer.set_search_text(String::new());
    assert_eq!(*viewer.filtered_entries(), vec![0, 1, 2, 3]);
    assert!(viewer.shows(&viewer.entries()[0]));
    assert!(!viewer.shows(&viewer.entries()[4]));
}

#[test]
fn the_viewer_exports_what_it_shows() {
    let mut viewer = LogViewer::new();
    assert_eq!(viewer.export_text(), "");
    viewer.load_lines(&sample());
    viewer.set_level(LogLevel::Info, false);
    assert_eq!(
        viewer.export_text(),
        "2024-03-01 10:00:02Z WARN twiggy::git Slow walk of history\n\
         2024-03-01 10:00:03Z ERROR twiggy::config Failed to save\n"
    );
    viewer.clear();
    assert!(viewer.entries().is_empty());
    assert!(viewer.filtered_entries().is_empty());
    assert_eq!(viewer.export_text(), "");
    assert_eq!(viewer.state().selected_levels, vec![LogLevel::Warn, LogLevel::Error]);
}
