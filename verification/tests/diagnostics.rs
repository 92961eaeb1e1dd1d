use compiler::handler::JsHandler;
use compiler::model::{FileId, Level, Location};

#[test]
fn new_sink_seeds_one_file() {
    let h = JsHandler::new(String::from("let a = 1"), FileId(1));
    assert!(!h.has_error());
    assert_eq!(h.get_file(FileId(1)), Some("let a = 1"));
    assert_eq!(h.get_file(FileId(2)), None);
}

#[test]
fn empty_sink_has_no_files_and_no_error() {
    let h = JsHandler::new_no_file();
    assert!(!h.has_error());
    assert_eq!(h.get_file(FileId(0)), None);
}

#[test]
fn silent_report_sets_flag_without_logging() {
    let mut h = JsHandler::new_no_file();
    h.silent_report();
    assert!(h.has_error());
    assert!(h.take_pending().is_empty());
}

#[test]
fn log_sets_flag_and_records_message_once() {
    let mut h = JsHandler::new_no_file();
    h.log(
        String::from("unexpected token"),
        Level::Error,
        Some(Location {
            file: FileId(1),
            position: 12,
        }),
    );
    assert!(h.has_error());
    assert_eq!(h.take_pending(), vec![String::from("unexpected token")]);
    // the buffer was drained: nothing is delivered twice
    assert!(h.take_pending().is_empty());
}

#[test]
fn log_records_regardless_of_level() {
    let mut h = JsHandler::new_no_file();
    h.log(String::from("minor"), Level::Warning, None);
    assert!(h.has_error());
    assert_eq!(h.take_pending().len(), 1);
}

#[test]
fn merge_ors_flags_and_unites_files() {
    let mut a = JsHandler::new(String::from("a"), FileId(1));
    let mut b = JsHandler::new(String::from("b"), FileId(2));
    b.silent_report();
    a.merge(b);
    assert!(a.has_error());
    assert_eq!(a.get_file(FileId(1)), Some("a"));
    assert_eq!(a.get_file(FileId(2)), Some("b"));
}

#[test]
fn merge_of_two_clean_sinks_stays_clean() {
    let mut a = JsHandler::new_no_file();
    let b = JsHandler::new(String::from("b"), FileId(2));
    a.merge(b);
    assert!(!a.has_error());
    assert_eq!(a.get_file(FileId(2)), Some("b"));
}

#[test]
fn merge_collision_prefers_the_merged_sink() {
    let mut a = JsHandler::new(String::from("old text"), FileId(1));
    let b = JsHandler::new(String::from("new text"), FileId(1));
    a.merge(b);
    assert_eq!(a.get_file(FileId(1)), Some("new text"));
}

#[test]
fn merge_keeps_both_message_buffers_in_order() {
    let mut a = JsHandler::new_no_file();
    a.log(String::from("first"), Level::Error, None);
    let mut b = JsHandler::new_no_file();
    b.log(String::from("second"), Level::Error, None);
    a.merge(b);
    assert_eq!(
        a.take_pending(),
        vec![String::from("first"), String::from("second")]
    );
}

#[test]
fn error_flag_is_monotonic_across_operations() {
    let mut h = JsHandler::new_no_file();
    h.log(String::from("boom"), Level::Error, None);
    let _ = h.take_pending();
    h.flush();
    h.merge(JsHandler::new_no_file());
    assert!(h.has_error());
}

#[test]
fn flush_changes_nothing() {
    let mut h = JsHandler::new(String::from("a"), FileId(1));
    h.log(String::from("kept"), Level::Error, None);
    h.flush();
    assert!(h.has_error());
    assert_eq!(h.get_file(FileId(1)), Some("a"));
    assert_eq!(h.take_pending(), vec![String::from("kept")]);
}
