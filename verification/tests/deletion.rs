use std::path::PathBuf;

use ripper::{DeletionSummary, FoundFile};

#[test]
fn new_summary_is_empty() {
    let summary = DeletionSummary::new();
    assert_eq!(summary.deleted_count, 0);
    assert!(summary.errors.is_empty());
}

#[test]
fn summary_counts_deleted_and_lists_failures_in_order() {
    let files = vec![
        FoundFile::new(PathBuf::from("delete1.txt")),
        FoundFile::new(PathBuf::from("nonexistent.txt")),
        FoundFile::new(PathBuf::from("delete2.txt")),
        FoundFile::new(PathBuf::from("protected.txt")),
    ];
    let outcomes = [true, false, true, false];
    let mut summary = DeletionSummary::new();
    for (file, deleted) in files.iter().zip(outcomes) {
        summary.record(file, deleted);
    }
    assert_eq!(summary.deleted_count, 2);
    assert_eq!(summary.errors.len(), 2);
    assert_eq!(summary.errors[0].0, PathBuf::from("nonexistent.txt"));
    assert_eq!(summary.errors[1].0, PathBuf::from("protected.txt"));
    assert_eq!(summary.errors[0].1, "Failed to delete file");
    assert_eq!(summary.deleted_count + summary.errors.len(), files.len());
}

#[test]
fn summary_of_all_successes_has_no_errors() {
    let mut summary = DeletionSummary::new();
    summary.record(&FoundFile::new(PathBuf::from("a")), true);
    summary.record(&FoundFile::new(PathBuf::from("b")), true);
    assert_eq!(summary.deleted_count, 2);
    assert_eq!(summary.errors.len(), 0);
}

#[test]
fn failure_message_only_when_something_failed() {
    let mut summary = DeletionSummary::new();
    summary.record(&FoundFile::new(PathBuf::from("a")), true);
    assert_eq!(summary.failure_message(1), None);
    summary.record(&FoundFile::new(PathBuf::from("b")), false);
    assert_eq!(
        summary.failure_message(2),
        Some("Failed to delete 1 out of 2 matching files".to_string())
    );
}

#[test]
fn failure_message_writes_large_counts_in_decimal() {
    let mut summary = DeletionSummary::new();
    for _ in 0..12 {
        summary.record(&FoundFile::new(PathBuf::from("x")), false);
    }
    assert_eq!(
        summary.failure_message(105),
        Some("Failed to delete 12 out of 105 matching files".to_string())
    );
}
