use wikidata_sqlite::loader::{payload_len, Failure, LineOutcome, Loader, Report};

#[test]
fn delimiter_lines_hold_no_record() {
    assert_eq!(payload_len(""), None);
    assert_eq!(payload_len("["), None);
    assert_eq!(payload_len("]"), None);
}

#[test]
fn trailing_comma_is_stripped() {
    assert_eq!(payload_len("{\"id\":\"Q1\"},"), Some(11));
    assert_eq!(payload_len("{\"id\":\"Q1\"}"), Some(11));
    assert_eq!(payload_len(","), Some(0));
    assert_eq!(payload_len("[,"), Some(1));
    assert_eq!(payload_len("é,"), Some(2));
}

#[test]
fn malformed_json_is_reported_on_its_line_only() {
    let mut l = Loader::new();
    let s1 = l.finish_line(10, LineOutcome::Stored);
    assert_eq!(s1.report, None);
    let s2 = l.finish_line(5, LineOutcome::JsonFailed);
    assert_eq!(s2.report, Some(Report { line: 2, failure: Failure::Json }));
    assert!(!s2.commit);
    let s3 = l.finish_line(7, LineOutcome::Stored);
    assert_eq!(s3.report, None);
    assert_eq!(l.line_number, 3);
    assert_eq!(l.entity_count, 2);
    assert_eq!(l.byte_count, 22);
}

#[test]
fn every_failure_kind_is_reported() {
    let mut l = Loader::new();
    assert_eq!(l.finish_line(0, LineOutcome::ReadFailed).report, Some(Report { line: 1, failure: Failure::Read }));
    assert_eq!(l.finish_line(1, LineOutcome::Skipped).report, None);
    assert_eq!(l.finish_line(3, LineOutcome::RecordFailed).report, Some(Report { line: 3, failure: Failure::Record }));
    assert_eq!(l.finish_line(4, LineOutcome::StoreFailed).report, Some(Report { line: 4, failure: Failure::Store }));
    assert_eq!(l.entity_count, 1);
    assert_eq!(l.byte_count, 8);
}

#[test]
fn skipped_and_failed_lines_are_not_counted() {
    let mut l = Loader::new();
    for _ in 0..1500 {
        let s = l.finish_line(1, LineOutcome::JsonFailed);
        assert!(!s.commit);
    }
    assert_eq!(l.entity_count, 0);
    assert_eq!(l.commits, 0);
}

#[test]
fn batches_of_a_thousand() {
    let mut l = Loader::new();
    let mut commits = 0;
    for _ in 0..2500 {
        if l.finish_line(100, LineOutcome::Stored).commit {
            commits += 1;
        }
    }
    // The final commit at the end of the stream comes on top.
    commits += 1;
    assert_eq!(l.entity_count, 2500);
    assert_eq!(l.commits, 2);
    assert!(commits >= 3);
    assert_eq!(l.byte_count, 250_000);
}

#[test]
fn store_failures_count_towards_the_batch() {
    let mut l = Loader::new();
    for _ in 0..999 {
        assert!(!l.finish_line(1, LineOutcome::StoreFailed).commit);
    }
    assert!(l.finish_line(1, LineOutcome::StoreFailed).commit);
}
