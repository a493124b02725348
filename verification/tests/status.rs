use task_tracker::error::ErrorKind;
use task_tracker::status::Status;

#[test]
fn status_text_forms() {
    assert_eq!(Status::Todo.to_string(), "todo");
    assert_eq!(Status::InProgress.to_string(), "in_progress");
    assert_eq!(Status::Complete.to_string(), "complete");
}

#[test]
fn status_parse_reads_each_text_form() {
    assert_eq!(Status::parse("todo").unwrap(), Status::Todo);
    assert_eq!(Status::parse("in_progress").unwrap(), Status::InProgress);
    assert_eq!(Status::parse("complete").unwrap(), Status::Complete);
}

#[test]
fn status_parse_rejects_other_text() {
    let e = Status::parse("done").unwrap_err();
    assert_eq!(e.kind, ErrorKind::Validation);
    assert_eq!(e.message, "Invalid task status done");
    assert!(Status::parse("Todo").is_err());
    assert!(Status::parse("").is_err());
}
