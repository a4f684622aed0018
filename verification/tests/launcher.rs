use tor_launcher::launcher::{line_marks_bootstrap, scan_output_line, OutputRead, ScanVerdict};

#[test]
fn marker_line_is_recognized() {
    assert!(line_marks_bootstrap(
        "Oct 12 00:00:00.000 [notice] Opened Control listener connection on port 9051"
    ));
}

#[test]
fn bare_marker_is_recognized() {
    assert!(line_marks_bootstrap("Opened Control listener"));
}

#[test]
fn ordinary_line_is_not_the_marker() {
    assert!(!line_marks_bootstrap("Bootstrapped 50%: Loading relay descriptors"));
}

#[test]
fn empty_line_is_not_the_marker() {
    assert!(!line_marks_bootstrap(""));
}

#[test]
fn partial_marker_is_not_the_marker() {
    assert!(!line_marks_bootstrap("Opened Control listene"));
}

#[test]
fn repeated_near_misses_are_not_the_marker() {
    assert!(!line_marks_bootstrap("Opened Opened Control listenex Opened Control"));
}

#[test]
fn marker_line_reads_as_ready() {
    let read = OutputRead::Line(String::from("x Opened Control listener y"));
    assert_eq!(scan_output_line(&read), ScanVerdict::Ready);
}

#[test]
fn ordinary_line_reads_as_keep_waiting() {
    let read = OutputRead::Line(String::from("starting up"));
    assert_eq!(scan_output_line(&read), ScanVerdict::KeepWaiting);
}

#[test]
fn closed_stream_reads_as_give_up() {
    assert_eq!(scan_output_line(&OutputRead::Closed), ScanVerdict::GiveUp);
}
