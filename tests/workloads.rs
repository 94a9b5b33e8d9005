use k8ui::logs::{sanitize_line, sanitize_lines};
use k8ui::messages::ErrorKind;
use k8ui::model::WorkloadStatus;
use k8ui::workloads::{
    age_text, build_workload, collect_workloads, decode_secret_data, port_table, resolve_sources,
    retain_prefix, status_of, ContainerRecord, EnvSource, PodRecord, PortRecord, StateRecord,
    StatusRecord,
};

fn pod(name: &str) -> PodRecord {
    PodRecord {
        name: Some(name.to_string()),
        age_seconds: Some(90_061),
        containers: vec![ContainerRecord {
            image: Some("registry/app:1.2".to_string()),
            ports: vec![PortRecord { protocol: Some("TCP".to_string()), port: 8080 }],
            env_from: vec![],
        }],
        statuses: vec![StatusRecord {
            restart_count: 3,
            state: Some(StateRecord { running: true, waiting: false, terminated: false }),
        }],
    }
}

fn names(pods: &[PodRecord]) -> Vec<String> {
    pods.iter().map(|p| p.name.clone().unwrap()).collect()
}

#[test]
fn prefix_selects_matching_in_order() {
    let pods = vec![pod("foo-1"), pod("foo-2"), pod("bar-1")];
    let kept = retain_prefix(pods, "foo");
    assert_eq!(names(&kept), vec!["foo-1", "foo-2"]);
}

#[test]
fn empty_prefix_keeps_all() {
    let pods = vec![pod("foo-1"), pod("foo-2"), pod("bar-1")];
    let kept = retain_prefix(pods, "");
    assert_eq!(names(&kept), vec!["foo-1", "foo-2", "bar-1"]);
}

#[test]
fn prefix_is_case_sensitive_and_skips_unnamed() {
    let mut unnamed = pod("x");
    unnamed.name = None;
    let pods = vec![pod("Foo-1"), unnamed, pod("foo-3")];
    let kept = retain_prefix(pods, "foo");
    assert_eq!(names(&kept), vec!["foo-3"]);
}

#[test]
fn secret_value_is_base64_decoded() {
    let data = vec![("greeting".to_string(), "aGVsbG8=".to_string())];
    let decoded = decode_secret_data(&data).unwrap();
    assert_eq!(decoded, vec![("greeting".to_string(), "hello".to_string())]);
}

#[test]
fn secret_value_that_is_not_base64_fails() {
    let data = vec![("k".to_string(), "not base64!".to_string())];
    assert!(decode_secret_data(&data).is_none());
}

#[test]
fn secret_value_that_is_not_utf8_fails() {
    // "/w==" is the single byte 0xff
    let data = vec![("k".to_string(), "/w==".to_string())];
    assert!(decode_secret_data(&data).is_none());
}

#[test]
fn workload_resolves_config_and_secret_sources() {
    let mut p = pod("foo-1");
    p.containers[0].env_from = vec![
        EnvSource::ConfigMap("cfg-a".to_string()),
        EnvSource::Secret("sec".to_string()),
        EnvSource::ConfigMap("cfg-b".to_string()),
        EnvSource::Other,
    ];
    let fetched = vec![
        Some(vec![("a".to_string(), "1".to_string())]),
        Some(vec![("password".to_string(), "aGVsbG8=".to_string())]),
        Some(vec![("b".to_string(), "2".to_string())]),
        None,
    ];
    let w = build_workload(&p, &fetched).unwrap();
    assert_eq!(w.pod_name, "foo-1");
    assert_eq!(w.age, "1d, 1h, 1m");
    assert_eq!(w.image, "registry/app:1.2");
    assert_eq!(w.status, WorkloadStatus::Running);
    assert_eq!(w.restarts, 3);
    assert_eq!(w.ports, vec![("TCP".to_string(), 8080)]);
    assert_eq!(w.config_map, vec![("b".to_string(), "2".to_string())]);
    assert_eq!(w.secrets, vec![("password".to_string(), "hello".to_string())]);
    assert!(!w.forward_ons);
}

#[test]
fn config_source_without_data_keeps_earlier_one() {
    let env = vec![EnvSource::ConfigMap("a".to_string()), EnvSource::ConfigMap("b".to_string())];
    let fetched = vec![Some(vec![("x".to_string(), "1".to_string())]), None];
    let (cfm, sm) = resolve_sources(&env, &fetched).unwrap();
    assert_eq!(cfm, vec![("x".to_string(), "1".to_string())]);
    assert!(sm.is_empty());
}

#[test]
fn sources_that_do_not_line_up_fail() {
    let env = vec![EnvSource::ConfigMap("a".to_string())];
    assert!(resolve_sources(&env, &vec![]).is_none());
}

#[test]
fn malformed_pod_is_a_lookup_error() {
    let mut p = pod("foo-1");
    p.containers[0].image = None;
    let e = build_workload(&p, &vec![]).unwrap_err();
    assert_eq!(e.kind, ErrorKind::LookupError);
    let mut q = pod("foo-1");
    q.age_seconds = None;
    assert_eq!(build_workload(&q, &vec![]).unwrap_err().kind, ErrorKind::LookupError);
    let mut r = pod("foo-1");
    r.containers.clear();
    assert_eq!(build_workload(&r, &vec![]).unwrap_err().kind, ErrorKind::LookupError);
}

#[test]
fn undecodable_secret_fails_the_workload() {
    let mut p = pod("foo-1");
    p.containers[0].env_from = vec![EnvSource::Secret("s".to_string())];
    let fetched = vec![Some(vec![("k".to_string(), "%%%".to_string())])];
    assert_eq!(build_workload(&p, &fetched).unwrap_err().kind, ErrorKind::LookupError);
}

#[test]
fn workload_list_keeps_order_and_fails_as_a_whole() {
    let pods = vec![pod("foo-1"), pod("foo-2")];
    let ws = collect_workloads(&pods, &vec![vec![], vec![]]).unwrap();
    assert_eq!(ws.len(), 2);
    assert_eq!(ws[0].pod_name, "foo-1");
    assert_eq!(ws[1].pod_name, "foo-2");
    let mut bad = pod("foo-3");
    bad.name = None;
    let e = collect_workloads(&vec![pod("foo-1"), bad], &vec![vec![], vec![]]).unwrap_err();
    assert_eq!(e.kind, ErrorKind::LookupError);
    assert!(collect_workloads(&pods, &vec![vec![]]).is_err());
}

#[test]
fn age_is_days_hours_minutes() {
    assert_eq!(age_text(90_061), "1d, 1h, 1m");
    assert_eq!(age_text(0), "0d, 0h, 0m");
    assert_eq!(age_text(59), "0d, 0h, 0m");
    assert_eq!(age_text(3 * 86_400 + 23 * 3_600 + 59 * 60 + 59), "3d, 23h, 59m");
    assert_eq!(age_text(1_234 * 86_400), "1234d, 0h, 0m");
    assert_eq!(age_text(-500), "0d, 0h, 0m");
}

#[test]
fn terminated_wins_over_waiting_and_running() {
    let all = StateRecord { running: true, waiting: true, terminated: true };
    let wait = StateRecord { running: true, waiting: true, terminated: false };
    let s = |st| vec![StatusRecord { restart_count: 7, state: st }];
    assert_eq!(status_of(&s(Some(all))), (WorkloadStatus::Terminated, 7));
    assert_eq!(status_of(&s(Some(wait))), (WorkloadStatus::Waiting, 7));
    assert_eq!(status_of(&s(None)), (WorkloadStatus::Unknown, 7));
    assert_eq!(status_of(&vec![]), (WorkloadStatus::Unknown, 0));
    assert_eq!(WorkloadStatus::Terminated.label(), "Terminated");
}

#[test]
fn ports_need_a_protocol() {
    let ok = vec![
        PortRecord { protocol: Some("TCP".to_string()), port: 80 },
        PortRecord { protocol: Some("UDP".to_string()), port: 53 },
    ];
    assert_eq!(
        port_table(&ok).unwrap(),
        vec![("TCP".to_string(), 80), ("UDP".to_string(), 53)]
    );
    let bad = vec![PortRecord { protocol: None, port: 80 }];
    assert!(port_table(&bad).is_none());
}

#[test]
fn log_line_sanitization() {
    assert_eq!(sanitize_line("\x1b[31mERROR\x1b[0m"), "ERROR");
    assert_eq!(sanitize_line("plain [31m text"), "plain [31m text");
    assert_eq!(sanitize_line("a\x1b[mb"), "ab");
}

#[test]
fn log_lines_keep_order() {
    let lines = vec!["\x1b[1mone".to_string(), "two\x1b[32m".to_string()];
    assert_eq!(sanitize_lines(&lines), vec!["one".to_string(), "two".to_string()]);
}
