use nebula_governance::audit::{AuditActor, AuditEvent, AuditStore};

fn event(run_id: &str, project_id: &str, event_type: &str) -> AuditEvent {
    AuditEvent {
        id: format!("{}-{}", event_type, project_id),
        timestamp: "2024-01-01T00:00:00+00:00".to_string(),
        run_id: run_id.to_string(),
        workstream_id: "w1".to_string(),
        project_id: project_id.to_string(),
        event_type: event_type.to_string(),
        actor: AuditActor { actor_type: "agent".to_string(), id: "a1".to_string(), role: None, name: "Agent".to_string() },
        payload: serde_json::Value::Null,
        parent_event_id: None,
        span_id: None,
        trace_id: None,
    }
}

#[test]
fn fresh_run_completes_with_one_event() {
    let mut store = AuditStore::new();
    let run_id = store.create_run("p1", "w1", "build it");
    assert_eq!(run_id.len(), 36);
    store.complete_run(&run_id, "completed");
    let run = store.get_run(&run_id).unwrap();
    assert_eq!(run.status, "completed");
    assert!(run.completed_at.is_some());
    assert_eq!(run.user_request, "build it");
    let s = run.summary.unwrap();
    assert_eq!(s.total_events, 1);
    assert_eq!(
        (s.agent_decisions, s.tool_calls, s.code_changes, s.tests_run, s.tests_passed, s.tests_failed),
        (0, 0, 0, 0, 0, 0)
    );
    assert_eq!(
        (s.gates_passed, s.gates_failed, s.deployments_completed, s.documentation_updates, s.linear_updates, s.duration),
        (0, 0, 0, 0, 0, 0)
    );
}

#[test]
fn run_starts_running_with_its_start_event() {
    let mut store = AuditStore::new();
    let run_id = store.create_run("p1", "w1", "build it");
    let run = store.get_run(&run_id).unwrap();
    assert_eq!(run.status, "running");
    assert!(run.summary.is_none());
    assert_eq!(run.events.len(), 1);
    assert_eq!(run.events[0].event_type, "run.started");
    assert_eq!(run.events[0].actor.id, "system");
    assert_eq!(run.events[0].payload["input"], "build it");
    let logged = store.get_events("p1", 10);
    assert_eq!(logged.len(), 1);
    assert_eq!(logged[0].run_id, run_id);
}

#[test]
fn events_are_counted_into_their_run() {
    let mut store = AuditStore::new();
    let r = store.create_run("p1", "w1", "req");
    for t in ["tool.call", "test.started", "test.passed", "gate.passed", "code.write"] {
        store.record_event(event(&r, "p1", t));
    }
    store.complete_run(&r, "completed");
    let s = store.get_run(&r).unwrap().summary.unwrap();
    assert_eq!(s.tool_calls, 1);
    assert_eq!(s.tests_run, 1);
    assert_eq!(s.tests_passed, 1);
    assert_eq!(s.gates_passed, 1);
    assert_eq!(s.code_changes, 1);
    assert_eq!(s.total_events, 6);
}

#[test]
fn unknown_run_events_are_logged_only() {
    let mut store = AuditStore::new();
    let r = store.create_run("p1", "w1", "req");
    store.record_event(event("no-such-run", "p1", "tool.call"));
    let logged = store.get_events("p1", 10);
    assert_eq!(logged.len(), 2);
    assert_eq!(logged[0].run_id, "no-such-run");
    assert_eq!(store.get_run(&r).unwrap().events.len(), 1);
    assert!(store.get_run("no-such-run").is_none());
}

#[test]
fn bounded_retrieval_newest_first() {
    let mut store = AuditStore::new();
    for i in 0..10 {
        let mut e = event("", "p1", "tool.call");
        e.id = format!("e{}", i);
        store.record_event(e);
        store.record_event(event("", "p2", "tool.call"));
    }
    let got = store.get_events("p1", 2);
    assert_eq!(got.len(), 2);
    assert_eq!(got[0].id, "e9");
    assert_eq!(got[1].id, "e8");
    assert!(got.iter().all(|e| e.project_id == "p1"));
    assert_eq!(store.get_events("p1", 100).len(), 10);
    assert_eq!(store.get_events("p1", 0).len(), 0);
    assert_eq!(store.get_events("p3", 5).len(), 0);
}

#[test]
fn complete_unknown_run_is_a_no_op() {
    let mut store = AuditStore::new();
    store.complete_run("missing", "failed");
    assert!(store.get_run("missing").is_none());
    assert_eq!(store.get_events("p1", 5).len(), 0);
}

#[test]
fn summary_buckets() {
    let types = [
        "agent.decision", "code.write", "code.commit", "test.failed", "gate.failed", "deploy.completed",
        "documentation.write", "linear.issue.created", "linear.issue.updated", "something.else",
    ];
    let events: Vec<AuditEvent> = types.iter().map(|t| event("r", "p", t)).collect();
    let s = AuditStore::compute_summary(&events);
    assert_eq!(s.total_events, 10);
    assert_eq!(s.agent_decisions, 1);
    assert_eq!(s.code_changes, 2);
    assert_eq!(s.tests_failed, 1);
    assert_eq!(s.gates_failed, 1);
    assert_eq!(s.deployments_completed, 1);
    assert_eq!(s.documentation_updates, 1);
    assert_eq!(s.linear_updates, 2);
    assert_eq!(s.tool_calls, 0);
    assert_eq!(AuditStore::compute_summary(&[]).total_events, 0);
}

#[test]
fn completing_twice_recomputes_the_summary() {
    let mut store = AuditStore::new();
    let r = store.create_run("p1", "w1", "req");
    store.complete_run(&r, "failed");
    store.record_event(event(&r, "p1", "test.failed"));
    store.complete_run(&r, "cancelled");
    let run = store.get_run(&r).unwrap();
    assert_eq!(run.status, "cancelled");
    let s = run.summary.unwrap();
    assert_eq!(s.total_events, 2);
    assert_eq!(s.tests_failed, 1);
}
