use ffc::batch::{row_fields, skip_message, summarize, BatchSummary, PositionOutcome};

#[test]
fn summary_counts_every_position_once() {
    let outcomes = vec![
        PositionOutcome::Written,
        PositionOutcome::Failed,
        PositionOutcome::Written,
    ];
    let s = summarize(&outcomes);
    assert_eq!(s, BatchSummary { written: 2, skipped: 0, failed: 1 });
}

#[test]
fn summary_of_mixed_batch() {
    let outcomes = vec![
        PositionOutcome::SkippedOutside,
        PositionOutcome::Written,
        PositionOutcome::SkippedOutside,
        PositionOutcome::Failed,
        PositionOutcome::Written,
    ];
    let s = summarize(&outcomes);
    assert_eq!(s.written, 2);
    assert_eq!(s.skipped, 2);
    assert_eq!(s.failed, 1);
    assert_eq!(s.written + s.skipped + s.failed, outcomes.len());
}

#[test]
fn summary_of_empty_batch() {
    let s = summarize(&Vec::new());
    assert_eq!(s, BatchSummary { written: 0, skipped: 0, failed: 0 });
}

#[test]
fn skip_message_names_the_source() {
    let m = skip_message("3C295");
    assert_eq!(m, "Source 3C295 completely outside image, skipping!");
    assert!(m.contains("3C295"));
}

#[test]
fn short_table_row_is_malformed() {
    let rec = vec!["name".to_string(), "218.0".to_string()];
    assert_eq!(row_fields(&rec), None);
}

#[test]
fn full_table_row_is_split() {
    let rec = vec![
        "src1".to_string(),
        "218.0".to_string(),
        "34.5".to_string(),
        "extra".to_string(),
    ];
    let (name, ra, dec) = row_fields(&rec).unwrap();
    assert_eq!(name, "src1");
    assert_eq!(ra, "218.0");
    assert_eq!(dec, "34.5");
}
