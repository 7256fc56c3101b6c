use model_supervisor::events::{frame_line, line_notification, Notification, ReaderDrain};

fn expect_line(n: &Notification, expected: &str) {
    match n {
        Notification::OutputLine { text } => assert_eq!(text, expected),
        Notification::RunStateChanged { .. } => panic!("expected an output line"),
    }
}

fn expect_stopped(n: &Notification) {
    match n {
        Notification::RunStateChanged { running } => assert!(!running),
        Notification::OutputLine { .. } => panic!("expected a run-state change"),
    }
}

#[test]
fn framed_line_ends_with_one_terminator() {
    assert_eq!(frame_line("hello"), "hello\n");
    assert_eq!(frame_line(""), "\n");
}

#[test]
fn standard_stream_line_is_passed_through() {
    let n = line_notification("TOKEN 0", false);
    expect_line(&n, "TOKEN 0");
}

#[test]
fn error_stream_line_gets_prefix() {
    let n = line_notification("boom", true);
    expect_line(&n, "[ERR] boom");
}

#[test]
fn empty_error_line_is_just_the_prefix() {
    let n = line_notification("", true);
    expect_line(&n, "[ERR] ");
}

#[test]
fn each_line_yields_one_notification_in_order() {
    let lines = ["a", "b", "c"];
    let notes: Vec<Notification> =
        lines.iter().map(|l| line_notification(l, false)).collect();
    assert_eq!(notes.len(), lines.len());
    for (n, l) in notes.iter().zip(lines.iter()) {
        expect_line(n, l);
    }
}

#[test]
fn stopped_fires_once_when_error_reader_finishes_last() {
    let mut drain = ReaderDrain::new();
    assert!(drain.reader_finished(false).is_none());
    let n = drain.reader_finished(true).expect("last reader must produce the stopped event");
    expect_stopped(&n);
}

#[test]
fn stopped_fires_once_when_standard_reader_finishes_last() {
    let mut drain = ReaderDrain::new();
    assert!(drain.reader_finished(true).is_none());
    let n = drain.reader_finished(false).expect("last reader must produce the stopped event");
    expect_stopped(&n);
}

#[test]
fn stopped_never_fires_twice() {
    let mut drain = ReaderDrain::new();
    assert!(drain.reader_finished(false).is_none());
    assert!(drain.reader_finished(true).is_some());
    assert!(drain.reader_finished(false).is_none());
    assert!(drain.reader_finished(true).is_none());
}
