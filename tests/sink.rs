use std::sync::{Arc, Mutex};
use log::Log;
use tui_log::shared::read_tail;
use tui_log::{Level, LevelFilter, LineHistory, TuiLogger};

fn shared_history() -> Arc<Mutex<LineHistory>> {
    Arc::new(Mutex::new(LineHistory::new()))
}

#[test]
fn threshold_info_drops_debug() {
    let shared = shared_history();
    let sink = TuiLogger::new(LevelFilter::Info, shared.clone());
    sink.emit(Level::Debug, "app", None, "d");
    sink.emit(Level::Info, "app", None, "i");
    sink.emit(Level::Warn, "app", None, "w");
    sink.emit(Level::Error, "app", None, "e");
    let lines = shared.lock().unwrap().tail(10);
    assert_eq!(lines, vec!["INFO : [app] i", "WARN : [app] w", "ERROR: [app] e"]);
}

#[test]
fn event_below_threshold_leaves_history_unchanged() {
    let sink = TuiLogger::new(LevelFilter::Warn, shared_history());
    let mut h = LineHistory::new();
    h.append("kept".to_string());
    sink.emit_into(&mut h, Level::Info, "app", None, "dropped");
    sink.emit_into(&mut h, Level::Trace, "app", None, "dropped");
    assert_eq!(h.tail(10), vec!["kept"]);
}

#[test]
fn admitted_event_appends_one_line_with_fields_in_order() {
    let sink = TuiLogger::new(LevelFilter::Debug, shared_history());
    let mut h = LineHistory::new();
    h.append("earlier".to_string());
    sink.emit_into(&mut h, Level::Debug, "", Some("my::module"), "value is 7");
    assert_eq!(h.tail(10), vec!["earlier", "DEBUG: [my::module] value is 7"]);
}

#[test]
fn off_filter_admits_nothing() {
    let shared = shared_history();
    let sink = TuiLogger::new(LevelFilter::Off, shared.clone());
    assert!(!sink.is_enabled(Level::Error));
    sink.emit(Level::Error, "app", None, "e");
    assert!(shared.lock().unwrap().is_empty());
}

#[test]
fn line_for_follows_threshold() {
    let sink = TuiLogger::new(LevelFilter::Warn, shared_history());
    assert_eq!(sink.line_for(Level::Info, "a", None, "m"), None);
    assert_eq!(
        sink.line_for(Level::Warn, "a", None, "m"),
        Some("WARN : [a] m".to_string())
    );
    assert_eq!(sink.line_for(Level::Error, "", None, "m"), Some("ERROR: [] m".to_string()));
}

#[test]
fn clear_history_empties_shared_lines() {
    let shared = shared_history();
    let sink = TuiLogger::new(LevelFilter::Trace, shared.clone());
    sink.emit(Level::Info, "a", None, "one");
    sink.emit(Level::Info, "a", None, "two");
    sink.clear_history();
    assert!(read_tail(&shared, 5).is_empty());
}

#[test]
fn read_tail_copies_last_lines() {
    let shared = shared_history();
    let sink = TuiLogger::new(LevelFilter::Trace, shared.clone());
    sink.emit(Level::Info, "a", None, "one");
    sink.emit(Level::Info, "a", None, "two");
    sink.emit(Level::Info, "a", None, "three");
    assert_eq!(read_tail(&shared, 2), vec!["INFO : [a] two", "INFO : [a] three"]);
}

#[test]
fn log_records_are_filtered_and_formatted() {
    let shared = shared_history();
    let sink = TuiLogger::new(LevelFilter::Info, shared.clone());
    let warn = log::Record::builder().level(log::Level::Warn).target("net").build();
    let debug = log::Record::builder().level(log::Level::Debug).target("net").build();
    let untargeted = log::Record::builder()
        .level(log::Level::Error)
        .target("")
        .module_path_static(Some("app::io"))
        .build();
    sink.log(&warn);
    sink.log(&debug);
    sink.log(&untargeted);
    assert_eq!(
        read_tail(&shared, 10),
        vec!["WARN : [net] ", "ERROR: [app::io] "]
    );
    assert!(sink.enabled(&log::Metadata::builder().level(log::Level::Info).build()));
    assert!(!sink.enabled(&log::Metadata::builder().level(log::Level::Trace).build()));
    sink.flush();
    assert!(read_tail(&shared, 10).is_empty());
}
