use pathscan::classify::OverLimit;
use pathscan::export::{Export, ExportError};

fn entries() -> Vec<OverLimit> {
    vec![
        OverLimit::new(String::from("a/b"), 3),
        OverLimit::new(String::from("a/\"c\""), 5),
    ]
}

#[test]
fn an_export_counts_its_entries() {
    assert_eq!(Export::new(entries()).count(), 2);
    assert_eq!(Export::new(Vec::new()).count(), 0);
}

#[test]
fn without_a_destination_the_export_is_cancelled() {
    let result = Export::new(entries()).save_to(None);
    assert!(matches!(result, Err(ExportError::Cancelled)));
}

#[test]
fn with_a_destination_the_text_is_ready() {
    let write = Export::new(entries()).save_to(Some(String::from("/tmp/out.csv"))).unwrap();
    assert_eq!(write.destination(), "/tmp/out.csv");
    assert_eq!(write.text(), "Path,Length\n\"a/b\",3\n\"a/\"\"c\"\"\",5\n");
}

#[test]
fn an_export_of_nothing_writes_the_header() {
    let write = Export::new(Vec::new()).save_to(Some(String::from("empty.csv"))).unwrap();
    assert_eq!(write.text(), "Path,Length\n");
}

#[test]
fn a_written_file_is_answered_with_a_summary() {
    let write = Export::new(entries()).save_to(Some(String::from("/tmp/out.csv"))).unwrap();
    let result = write.complete(Ok(()));
    assert_eq!(result.unwrap(), "Exported 2 paths to /tmp/out.csv");
}

#[test]
fn the_summary_counts_the_entries() {
    let mut many = Vec::new();
    for i in 0..1234u64 {
        many.push(OverLimit::new(format!("/p/{}", i), i));
    }
    let write = Export::new(many).save_to(Some(String::from("r.csv"))).unwrap();
    assert_eq!(write.complete(Ok(())).unwrap(), "Exported 1234 paths to r.csv");
}

#[test]
fn a_failed_write_is_an_input_output_error() {
    let write = Export::new(entries()).save_to(Some(String::from("/nowhere/out.csv"))).unwrap();
    let result = write.complete(Err(String::from("Permission denied (os error 13)")));
    match result {
        Err(ExportError::Io(message)) => assert_eq!(message, "Permission denied (os error 13)"),
        other => panic!("{:?}", other),
    }
}

#[test]
fn an_input_output_error_is_told_with_its_cause() {
    let error = ExportError::Io(String::from("disk full"));
    assert_eq!(error.describe(), "Failed to write CSV file: disk full");
}

#[test]
fn a_cancelled_export_is_told_as_such() {
    assert_eq!(ExportError::Cancelled.describe(), "Export cancelled");
}

#[test]
fn cancelled_is_not_an_input_output_error() {
    let cancelled = Export::new(entries()).save_to(None).unwrap_err();
    assert!(!matches!(cancelled, ExportError::Io(_)));
    assert_ne!(cancelled.describe(), ExportError::Io(String::new()).describe());
}
