use nebula_governance::audit::AuditStore;
use nebula_governance::workspace::Workspace;

#[test]
fn project_then_workstream_opens_a_run() {
    let mut ws = Workspace::new();
    let mut audit = AuditStore::new();
    let p = ws.create_project("Demo".to_string(), "d".to_string(), "/vault".to_string());
    assert_eq!(p.status, "active");
    assert_eq!(p.id.len(), 36);
    let w = ws.create_workstream(p.id.clone(), "T".to_string(), "do it".to_string(), &mut audit);
    assert_eq!(w.status, "draft");
    assert_eq!(w.current_phase, "design");
    assert_eq!(ws.get_project(&p.id).unwrap().workstreams, vec![w.id.clone()]);
    assert_eq!(ws.get_workstreams(&p.id).len(), 1);
    assert_eq!(ws.get_workstreams("other").len(), 0);
    let events = audit.get_events(&p.id, 10);
    assert_eq!(events.len(), 1);
    assert_eq!(events[0].event_type, "run.started");
    assert_eq!(events[0].workstream_id, w.id);
    assert!(audit.get_run(&events[0].run_id).is_some());
    assert_eq!(ws.get_projects().len(), 1);
}

#[test]
fn message_is_stored_and_logged() {
    let mut ws = Workspace::new();
    let mut audit = AuditStore::new();
    let p = ws.create_project("Demo".to_string(), String::new(), String::new());
    let w = ws.create_workstream(p.id.clone(), "T".to_string(), "r".to_string(), &mut audit);
    let m = ws.send_message(w.id.clone(), "hello".to_string(), &mut audit);
    assert_eq!(m.role, "user");
    assert_eq!(m.content, "hello");
    assert_eq!(ws.get_workstreams(&p.id)[0].messages.len(), 1);
    let events = audit.get_events(&p.id, 10);
    assert_eq!(events.len(), 2);
    assert_eq!(events[0].event_type, "user.request");
    assert_eq!(events[0].run_id, "");
    assert_eq!(events[0].payload["content"], "hello");
}

#[test]
fn message_to_unknown_workstream_changes_nothing() {
    let mut ws = Workspace::new();
    let mut audit = AuditStore::new();
    let m = ws.send_message("nope".to_string(), "hi".to_string(), &mut audit);
    assert_eq!(m.content, "hi");
    assert_eq!(audit.get_events("", 10).len(), 0);
    assert!(ws.get_project("nope").is_none());
}
