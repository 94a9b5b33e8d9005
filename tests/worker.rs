use k8ui::bus::{post_result, ConsumerPort, BUS_CAPACITY};
use k8ui::messages::{ApiCommand, ApiError, ErrorKind, ThreadMessage, UIData};
use k8ui::model::{join_multiline, join_multiline2, set_open, LogWindow, PopUp, ShortKAppState};
use k8ui::session::{Outcome, Phase, Step, Worker};
use k8ui::tunnel::{local_port, Tunnel, TunnelMode, TunnelTable};

fn cmd_step(w: &mut Worker<String, String>, cmd: ApiCommand) -> Step {
    assert!(!w.is_busy());
    w.take(cmd)
}

#[test]
fn commands_follow_the_session_phases() {
    let mut w: Worker<String, String> = Worker::new();
    assert_eq!(w.phase(), Phase::Uninitialized);
    assert!(matches!(cmd_step(&mut w, ApiCommand::ReloadApisWithNameSpace("ns".into())), Step::Skip));
    assert!(w.finish(Outcome::Skipped).is_none());
    assert!(matches!(cmd_step(&mut w, ApiCommand::PullPodsWithPrefix("foo".into())), Step::Skip));
    assert!(w.finish(Outcome::Skipped).is_none());

    match cmd_step(&mut w, ApiCommand::ReloadClientWithConfig("/conf".into())) {
        Step::Connect(p) => assert_eq!(p, "/conf"),
        other => panic!("unexpected {:?}", other),
    }
    assert!(w.finish(Outcome::Connected(Ok("client-1".to_string()))).is_none());
    assert_eq!(w.phase(), Phase::CredentialsLoaded);
    assert_eq!(w.client().unwrap(), "client-1");

    match cmd_step(&mut w, ApiCommand::ReloadApisWithNameSpace("ns".into())) {
        Step::BindNamespace(ns) => assert_eq!(ns, "ns"),
        other => panic!("unexpected {:?}", other),
    }
    assert!(w.finish(Outcome::Bound(Ok("handles-1".to_string()))).is_none());
    assert_eq!(w.phase(), Phase::NamespaceBound);

    match cmd_step(&mut w, ApiCommand::PortForwardForPodNamePort("foo-1".into(), 80)) {
        Step::OpenTunnel(id, port) => {
            assert_eq!(id, "foo-1");
            assert_eq!(port, 80);
        }
        other => panic!("unexpected {:?}", other),
    }
    assert!(w.finish(Outcome::TunnelEnded(Ok(()))).is_none());
}

#[test]
fn second_credentials_drop_earlier_handles() {
    let mut w: Worker<String, String> = Worker::new();
    w.take(ApiCommand::ReloadClientWithConfig("a".into()));
    w.finish(Outcome::Connected(Ok("client-1".to_string())));
    w.take(ApiCommand::ReloadApisWithNameSpace("ns".into()));
    w.finish(Outcome::Bound(Ok("handles-of-1".to_string())));
    w.take(ApiCommand::ReloadClientWithConfig("b".into()));
    w.finish(Outcome::Connected(Ok("client-2".to_string())));
    assert_eq!(w.phase(), Phase::CredentialsLoaded);
    assert!(w.handles().is_none());
    assert!(matches!(w.take(ApiCommand::PullPodsWithPrefix("".into())), Step::Skip));
    w.finish(Outcome::Skipped);
    w.take(ApiCommand::ReloadApisWithNameSpace("ns".into()));
    w.finish(Outcome::Bound(Ok("handles-of-2".to_string())));
    assert_eq!(w.client().unwrap(), "client-2");
    assert_eq!(w.handles().unwrap(), "handles-of-2");
    assert!(matches!(w.take(ApiCommand::PullPodsWithPrefix("".into())), Step::ListWorkloads(_)));
}

#[test]
fn failed_connection_keeps_prior_state_and_reports() {
    let mut w: Worker<String, String> = Worker::new();
    w.take(ApiCommand::ReloadClientWithConfig("a".into()));
    w.finish(Outcome::Connected(Ok("client-1".to_string())));
    w.take(ApiCommand::ReloadClientWithConfig("missing".into()));
    let r = w.finish(Outcome::Connected(Err(ApiError::new(ErrorKind::ConnectionError, "no profile"))));
    match r {
        Some(UIData::Error(e)) => assert_eq!(e.kind, ErrorKind::ConnectionError),
        other => panic!("unexpected {:?}", other),
    }
    assert_eq!(w.client().unwrap(), "client-1");
}

#[test]
fn results_come_in_command_order() {
    let mut w: Worker<String, String> = Worker::new();
    let (tx, rx) = crossbeam::channel::bounded(BUS_CAPACITY);
    let (_ctx, crx) = crossbeam::channel::bounded(BUS_CAPACITY);
    let consumer = ConsumerPort::new(_ctx.clone(), rx);
    drop(crx);
    w.take(ApiCommand::PullLogsForPodName("a".into()));
    let first = w.finish(Outcome::Logged(Ok(vec!["\x1b[31mfirst\x1b[0m".to_string()]))).unwrap();
    assert!(post_result(&tx, first));
    w.take(ApiCommand::PullPodsWithPrefix("b".into()));
    let second = w.finish(Outcome::Listed(Ok(vec![]))).unwrap();
    assert!(post_result(&tx, second));
    match consumer.poll() {
        Some(UIData::Logs(lines)) => assert_eq!(lines, vec!["first".to_string()]),
        other => panic!("unexpected {:?}", other),
    }
    assert!(matches!(consumer.poll(), Some(UIData::Pods(p)) if p.is_empty()));
    assert!(consumer.poll().is_none());
}

#[test]
fn full_command_bus_refuses_at_once() {
    let (tx, rx) = crossbeam::channel::bounded(BUS_CAPACITY);
    let (_rtx, rrx) = crossbeam::channel::bounded::<ThreadMessage>(BUS_CAPACITY);
    let consumer = ConsumerPort::new(tx, rrx);
    for i in 0..5 {
        assert!(consumer.enqueue(ApiCommand::PullLogsForPodName(format!("w{}", i))));
    }
    assert!(!consumer.enqueue(ApiCommand::PullLogsForPodName("sixth".into())));
    // the worker still drains the five queued commands in order
    for i in 0..5 {
        match rx.try_recv().unwrap() {
            ThreadMessage::Api(ApiCommand::PullLogsForPodName(n)) => assert_eq!(n, format!("w{}", i)),
            other => panic!("unexpected {:?}", other),
        }
    }
    assert!(rx.try_recv().is_err());
    assert!(consumer.enqueue(ApiCommand::PullLogsForPodName("later".into())));
}

#[test]
fn full_result_bus_drops_result() {
    let (tx, _rx) = crossbeam::channel::bounded(1);
    assert!(post_result(&tx, UIData::Logs(vec![])));
    assert!(!post_result(&tx, UIData::Logs(vec![])));
}

#[test]
fn tunnel_on_bound_port_is_a_bind_error() {
    let mut t = TunnelTable::new();
    assert!(t.open(8081, true).is_ok());
    let e = t.open(8081, true).unwrap_err();
    assert_eq!(e.kind, ErrorKind::BindError);
    assert!(t.is_bound(8081));
    assert_eq!(t.open(9091, false).unwrap_err().kind, ErrorKind::BindError);
    assert!(!t.is_bound(9091));
    t.close(8081);
    assert!(!t.is_bound(8081));
}

#[test]
fn worker_bind_error_leaves_other_tunnel() {
    let mut w: Worker<String, String> = Worker::new();
    assert!(w.bind_tunnel(8081, true).is_ok());
    let e = w.bind_tunnel(8081, true).unwrap_err();
    assert_eq!(e.kind, ErrorKind::BindError);
    assert!(w.bind_tunnel(5433, true).is_ok());
    w.release_tunnel(5433);
    assert!(w.bind_tunnel(5433, true).is_ok());
    assert!(w.bind_tunnel(8081, true).is_err());
}

#[test]
fn tunnel_bind_error_is_posted() {
    let mut w: Worker<String, String> = Worker::new();
    w.take(ApiCommand::ReloadClientWithConfig("a".into()));
    let r = w.finish(Outcome::TunnelEnded(Err(ApiError::new(ErrorKind::BindError, "in use"))));
    assert!(matches!(r, Some(UIData::Error(e)) if e.kind == ErrorKind::BindError));
}

#[test]
fn local_port_is_next_port() {
    assert_eq!(local_port(8080), Some(8081));
    assert_eq!(local_port(0), Some(1));
    assert_eq!(local_port(65535), None);
}

#[test]
fn failing_bridge_keeps_listener_and_siblings() {
    let mut t = Tunnel::new(TunnelMode::MultiConnection);
    let mut other = Tunnel::new(TunnelMode::MultiConnection);
    let a = t.on_accept().unwrap();
    let b = t.on_accept().unwrap();
    let c = other.on_accept().unwrap();
    assert_ne!(a, b);
    t.on_bridge_end(a);
    assert!(t.is_listening());
    assert!(!t.has_bridge(a));
    assert!(t.has_bridge(b));
    assert!(other.has_bridge(c));
    assert!(other.is_listening());
    t.on_stop();
    assert!(!t.is_listening());
    assert!(t.is_finished());
    assert!(t.on_accept().is_none());
}

#[test]
fn single_shot_tunnel_serves_one_connection() {
    let mut t = Tunnel::new(TunnelMode::SingleShot);
    let a = t.on_accept().unwrap();
    assert!(!t.is_listening());
    assert!(t.on_accept().is_none());
    assert!(!t.is_finished());
    t.on_bridge_end(a);
    assert!(t.is_finished());
}

#[test]
fn set_open_inserts_once_and_removes() {
    let mut open: Vec<String> = vec![];
    set_open(&mut open, "panels", true);
    set_open(&mut open, "panels", true);
    assert_eq!(open, vec!["panels".to_string()]);
    set_open(&mut open, "logs", true);
    set_open(&mut open, "panels", false);
    assert_eq!(open, vec!["logs".to_string()]);
    set_open(&mut open, "absent", false);
    assert_eq!(open, vec!["logs".to_string()]);
}

#[test]
fn join_lines_of_tables() {
    let counts = vec![("a".to_string(), 1u32), ("b".to_string(), 22u32)];
    assert_eq!(join_multiline(&counts), "a:1\nb:22");
    let texts = vec![("user".to_string(), "admin".to_string())];
    assert_eq!(join_multiline2(&texts), "user:admin");
    assert_eq!(join_multiline2(&vec![]), "");
}

#[test]
fn consumer_state_starts_empty() {
    let s = ShortKAppState::new(vec![]);
    assert!(s.pods.is_empty());
    assert_eq!(s.namespace, "");
    assert!(!s.about_is_open);
    let w = LogWindow::new("foo Logs".to_string());
    assert_eq!(w.name, "foo Logs");
    assert!(w.log_text.is_none());
    let p = PopUp { id: "p1".to_string() };
    assert_eq!(p.get_id(), "p1");
}
