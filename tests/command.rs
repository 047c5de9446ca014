use wt_workload::command::{Message, OperationPaneState};
use wt_workload::operation::WtOperation;

#[test]
fn new_pane_is_empty() {
    let p = OperationPaneState::new();
    assert!(p.operations.is_empty());
    assert_eq!(p.input_value, "");
    let d = OperationPaneState::default();
    assert!(d.operations.is_empty());
    assert_eq!(d.input_value, "");
    assert_eq!(p.title(), "WT MT Test");
}

#[test]
fn input_changed_keeps_text() {
    let mut p = OperationPaneState::new();
    p.update(Message::InputChanged("insert 1000 test-a".to_string()));
    assert_eq!(p.input_value, "insert 1000 test-a");
    p.update(Message::InputChanged("drop x".to_string()));
    assert_eq!(p.input_value, "drop x");
}

#[test]
fn input_finished_changes_nothing() {
    let mut p = OperationPaneState::new();
    p.update(Message::InputChanged("insert 1000 test-a".to_string()));
    p.update(Message::InputFinished);
    assert_eq!(p.input_value, "insert 1000 test-a");
    assert!(p.operations.is_empty());
}

#[test]
fn progress_changes_nothing() {
    let mut p = OperationPaneState::new();
    p.update(Message::InputChanged("abc".to_string()));
    p.update(Message::Progress(WtOperation::Drop("t".to_string())));
    assert_eq!(p.input_value, "abc");
    assert!(p.operations.is_empty());
}
