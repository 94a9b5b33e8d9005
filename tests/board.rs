use k8ui::board::ColumnBoard;
use k8ui::messages::{ApiError, ErrorKind, UIData};
use k8ui::model::ShortKContainer;

fn workload(id: &str) -> ShortKContainer {
    let mut w = ShortKContainer::default();
    w.pod_name = id.to_string();
    w
}

fn ids(ws: &[ShortKContainer]) -> Vec<String> {
    ws.iter().map(|w| w.pod_name.clone()).collect()
}

#[test]
fn pinned_workloads_stay_out_of_new_lists() {
    let mut b = ColumnBoard::new();
    b.apply(UIData::Pods(vec![workload("a"), workload("b"), workload("c")]));
    assert_eq!(ids(&b.columns), vec!["a", "b", "c"]);
    assert!(b.pin(&"b".to_string()));
    assert_eq!(ids(&b.columns), vec!["a", "c"]);
    assert_eq!(ids(&b.pinned), vec!["b"]);
    assert!(!b.pin(&"zzz".to_string()));
    b.apply(UIData::Pods(vec![workload("b"), workload("d"), workload("a")]));
    assert_eq!(ids(&b.columns), vec!["d", "a"]);
    assert_eq!(ids(&b.pinned), vec!["b"]);
    assert!(b.is_pinned(&"b".to_string()));
    assert!(!b.is_pinned(&"a".to_string()));
}

#[test]
fn log_lines_become_one_text() {
    let mut b = ColumnBoard::new();
    b.apply(UIData::Logs(vec!["one".to_string(), "two".to_string()]));
    assert_eq!(b.log_text.as_deref(), Some("one\ntwo"));
    b.apply(UIData::Logs(vec![]));
    assert_eq!(b.log_text.as_deref(), Some(""));
}

#[test]
fn error_result_is_kept_for_display() {
    let mut b = ColumnBoard::new();
    b.apply(UIData::Pods(vec![workload("a")]));
    b.apply(UIData::Error(ApiError::new(ErrorKind::BindError, "port in use")));
    assert_eq!(b.last_error.as_deref(), Some("port in use"));
    assert_eq!(ids(&b.columns), vec!["a"]);
}

#[test]
fn default_workload_placeholder() {
    let w = ShortKContainer::default();
    assert_eq!(w.pod_name, "");
    assert_eq!(w.age, "age");
    assert_eq!(w.restarts, 1945);
}
