//! The audit store: an append-only log of events and an index of runs, each
//! run holding a copy of its own events and, once completed, a summary.
use vstd::prelude::*;
use vstd::hash_map::StringHashMap;
use crate::outside::{fresh_id, now_rfc3339, json_string_object};
use crate::text::same_text;

verus! {

broadcast use vstd::string::group_string_axioms, vstd::hash_map::group_hash_map_axioms;

/// Who performed an action: `actor_type` is one of user, agent or system.
#[derive(Debug, Clone)]
pub struct AuditActor {
    pub actor_type: String,
    pub id: String,
    pub role: Option<String>,
    pub name: String,
}

/// One immutable fact of the log.
#[derive(Debug, Clone)]
pub struct AuditEvent {
    pub id: String,
    pub timestamp: String,
    pub run_id: String,
    pub workstream_id: String,
    pub project_id: String,
    pub event_type: String,
    pub actor: AuditActor,
    pub payload: serde_json::Value,
    pub parent_event_id: Option<String>,
    pub span_id: Option<String>,
    pub trace_id: Option<String>,
}

/// Counts of a run's events by kind. `duration` is kept at zero.
#[derive(Debug, Clone, Copy, PartialEq, Eq, Structural)]
pub struct RunSummary {
    pub total_events: u32,
    pub agent_decisions: u32,
    pub tool_calls: u32,
    pub code_changes: u32,
    pub tests_run: u32,
    pub tests_passed: u32,
    pub tests_failed: u32,
    pub gates_passed: u32,
    pub gates_failed: u32,
    pub deployments_completed: u32,
    pub documentation_updates: u32,
    pub linear_updates: u32,
    pub duration: u64,
}

/// The record of one run: its events, and its summary once completed.
#[derive(Debug, Clone)]
pub struct RunRecord {
    pub id: String,
    pub project_id: String,
    pub workstream_id: String,
    pub started_at: String,
    pub completed_at: Option<String>,
    pub status: String,
    pub user_request: String,
    pub events: Vec<AuditEvent>,
    pub summary: Option<RunSummary>,
}

/// What a run record holds, as mathematical values.
pub struct RunView {
    pub id: Seq<char>,
    pub project_id: Seq<char>,
    pub workstream_id: Seq<char>,
    pub started_at: Seq<char>,
    pub completed_at: Option<Seq<char>>,
    pub status: Seq<char>,
    pub user_request: Seq<char>,
    pub events: Seq<AuditEvent>,
    pub summary: Option<RunSummary>,
}

pub open spec fn text_view(s: Option<String>) -> Option<Seq<char>> {
    match s {
        Some(t) => Some(t@),
        None => None,
    }
}

impl View for RunRecord {
    type V = RunView;

    open spec fn view(&self) -> RunView {
        RunView {
            id: self.id@,
            project_id: self.project_id@,
            workstream_id: self.workstream_id@,
            started_at: self.started_at@,
            completed_at: text_view(self.completed_at),
            status: self.status@,
            user_request: self.user_request@,
            events: self.events@,
            summary: self.summary,
        }
    }
}

fn copy_text(s: &Option<String>) -> (r: Option<String>)
    ensures
        r == *s,
{
    match s {
        Some(t) => Some(t.clone()),
        None => None,
    }
}

impl AuditActor {
    /// An equal copy.
    pub fn duplicate(&self) -> (r: AuditActor)
        ensures
            r == *self,
    {
        AuditActor {
            actor_type: self.actor_type.clone(),
            id: self.id.clone(),
            role: copy_text(&self.role),
            name: self.name.clone(),
        }
    }
}

impl AuditEvent {
    /// An equal copy.
    pub fn duplicate(&self) -> (r: AuditEvent)
        ensures
            r == *self,
    {
        AuditEvent {
            id: self.id.clone(),
            timestamp: self.timestamp.clone(),
            run_id: self.run_id.clone(),
            workstream_id: self.workstream_id.clone(),
            project_id: self.project_id.clone(),
            event_type: self.event_type.clone(),
            actor: self.actor.duplicate(),
            payload: self.payload.clone(),
            parent_event_id: copy_text(&self.parent_event_id),
            span_id: copy_text(&self.span_id),
            trace_id: copy_text(&self.trace_id),
        }
    }
}

fn copy_events(events: &Vec<AuditEvent>) -> (r: Vec<AuditEvent>)
    ensures
        r@ == events@,
{
    let mut r: Vec<AuditEvent> = Vec::new();
    let mut i: usize = 0;
    while i < events.len()
        invariant
            i <= events@.len(),
            r@ == events@.subrange(0, i as int),
        decreases events@.len() - i,
    {
        r.push(events[i].duplicate());
        i = i + 1;
        assert(r@ =~= events@.subrange(0, i as int));
    }
    assert(r@ =~= events@);
    r
}

impl RunRecord {
    /// An equal copy.
    pub fn duplicate(&self) -> (r: RunRecord)
        ensures
            r@ == self@,
    {
        RunRecord {
            id: self.id.clone(),
            project_id: self.project_id.clone(),
            workstream_id: self.workstream_id.clone(),
            started_at: self.started_at.clone(),
            completed_at: copy_text(&self.completed_at),
            status: self.status.clone(),
            user_request: self.user_request.clone(),
            events: copy_events(&self.events),
            summary: self.summary,
        }
    }
}

/// The number of events of the given type.
pub open spec fn count_of(events: Seq<AuditEvent>, event_type: Seq<char>) -> nat
    decreases events.len(),
{
    if events.len() == 0 {
        0
    } else {
        count_of(events.drop_last(), event_type) + if events.last().event_type@ == event_type {
            1nat
        } else {
            0nat
        }
    }
}

/// A count as a `u32`, held at `u32::MAX` where it would not fit.
pub open spec fn clamp_u32(n: nat) -> u32 {
    if n > u32::MAX {
        u32::MAX
    } else {
        n as u32
    }
}

/// The summary of a run's events: each counter counts the events of its types.
pub open spec fn summary_of(events: Seq<AuditEvent>) -> RunSummary {
    RunSummary {
        total_events: clamp_u32(events.len()),
        agent_decisions: clamp_u32(count_of(events, "agent.decision"@)),
        tool_calls: clamp_u32(count_of(events, "tool.call"@)),
        code_changes: clamp_u32(count_of(events, "code.write"@) + count_of(events, "code.commit"@)),
        tests_run: clamp_u32(count_of(events, "test.started"@)),
        tests_passed: clamp_u32(count_of(events, "test.passed"@)),
        tests_failed: clamp_u32(count_of(events, "test.failed"@)),
        gates_passed: clamp_u32(count_of(events, "gate.passed"@)),
        gates_failed: clamp_u32(count_of(events, "gate.failed"@)),
        deployments_completed: clamp_u32(count_of(events, "deploy.completed"@)),
        documentation_updates: clamp_u32(count_of(events, "documentation.write"@)),
        linear_updates: clamp_u32(
            count_of(events, "linear.issue.created"@) + count_of(events, "linear.issue.updated"@),
        ),
        duration: 0,
    }
}

proof fn lemma_count_pair_bounded(events: Seq<AuditEvent>, a: Seq<char>, b: Seq<char>)
    requires
        a != b,
    ensures
        count_of(events, a) + count_of(events, b) <= events.len(),
    decreases events.len(),
{
    if events.len() > 0 {
        lemma_count_pair_bounded(events.drop_last(), a, b);
    }
}

fn clamp_count(n: usize) -> (r: u32)
    ensures
        r == clamp_u32(n as nat),
{
    if n > u32::MAX as usize {
        u32::MAX
    } else {
        n as u32
    }
}

/// One more for `count` where `event_type` is `t`.
fn bump(count: &mut usize, event_type: &str, t: &str)
    requires
        *old(count) < usize::MAX,
    ensures
        *final(count) == *old(count) + if event_type@ == t@ { 1usize } else { 0usize },
{
    if same_text(event_type, t) {
        *count = *count + 1;
    }
}

/// The run with one more event.
pub open spec fn with_event(run: RunView, event: AuditEvent) -> RunView {
    RunView { events: run.events.push(event), ..run }
}

/// The runs after `event` is recorded: the event joins the run it names, if
/// that run exists; otherwise nothing changes.
pub open spec fn runs_after_event(runs: Map<Seq<char>, RunView>, event: AuditEvent) -> Map<Seq<char>, RunView> {
    if runs.contains_key(event.run_id@) {
        runs.insert(event.run_id@, with_event(runs[event.run_id@], event))
    } else {
        runs
    }
}

/// The run completed with `status` at `completed_at`, its summary taken over its events.
pub open spec fn completed(run: RunView, status: Seq<char>, completed_at: Option<Seq<char>>) -> RunView {
    RunView { completed_at, status, summary: Some(summary_of(run.events)), ..run }
}

/// The event that opens a run.
pub open spec fn is_run_start(event: AuditEvent, run_id: Seq<char>, project_id: Seq<char>, workstream_id: Seq<char>) -> bool {
    &&& event.run_id@ == run_id
    &&& event.project_id@ == project_id
    &&& event.workstream_id@ == workstream_id
    &&& event.event_type@ == "run.started"@
    &&& event.actor.actor_type@ == "user"@
    &&& event.actor.id@ == "system"@
    &&& event.actor.role is None
    &&& event.actor.name@ == "User"@
    &&& event.parent_event_id is None
    &&& event.span_id is None
    &&& event.trace_id is None
}

/// The newest `limit` events of the project, newest first.
pub open spec fn newest_for_project(log: Seq<AuditEvent>, project_id: Seq<char>, limit: nat) -> Seq<AuditEvent>
    decreases log.len(),
{
    if log.len() == 0 || limit == 0 {
        Seq::empty()
    } else if log.last().project_id@ == project_id {
        seq![log.last()] + newest_for_project(log.drop_last(), project_id, (limit - 1) as nat)
    } else {
        newest_for_project(log.drop_last(), project_id, limit)
    }
}

/// The number of events of the project.
pub open spec fn project_count(log: Seq<AuditEvent>, project_id: Seq<char>) -> nat
    decreases log.len(),
{
    if log.len() == 0 {
        0
    } else {
        project_count(log.drop_last(), project_id) + if log.last().project_id@ == project_id {
            1nat
        } else {
            0nat
        }
    }
}

/// The events of the log that name the run, in order.
pub open spec fn events_naming(log: Seq<AuditEvent>, run_id: Seq<char>) -> Seq<AuditEvent>
    decreases log.len(),
{
    if log.len() == 0 {
        Seq::empty()
    } else if log.last().run_id@ == run_id {
        events_naming(log.drop_last(), run_id).push(log.last())
    } else {
        events_naming(log.drop_last(), run_id)
    }
}

/// Every run is filed under its own id, and its events are exactly the events
/// of the log that name it, from the position at which it was opened on.
pub open spec fn runs_well_formed(
    log: Seq<AuditEvent>,
    runs: Map<Seq<char>, RunView>,
    opened_at: Map<Seq<char>, int>,
) -> bool {
    forall|k: Seq<char>| #[trigger] runs.contains_key(k) ==> {
        &&& opened_at.contains_key(k)
        &&& 0 <= opened_at[k] <= log.len()
        &&& runs[k].id == k
        &&& runs[k].events == events_naming(log.subrange(opened_at[k], log.len() as int), k)
    }
}

proof fn lemma_events_naming_push(log: Seq<AuditEvent>, from: int, event: AuditEvent, run_id: Seq<char>)
    requires
        0 <= from <= log.len(),
    ensures
        events_naming(log.push(event).subrange(from, log.len() + 1int), run_id) == if event.run_id@ == run_id {
            events_naming(log.subrange(from, log.len() as int), run_id).push(event)
        } else {
            events_naming(log.subrange(from, log.len() as int), run_id)
        },
{
    let longer = log.push(event).subrange(from, log.len() + 1int);
    assert(longer.drop_last() =~= log.subrange(from, log.len() as int));
    assert(longer.last() == event);
}

/// The global log of events and the index of runs.
pub struct AuditStore {
    events: Vec<AuditEvent>,
    runs: StringHashMap<RunRecord>,
    opened_at: Ghost<Map<Seq<char>, int>>,
}

impl AuditStore {
    /// Every event recorded, in order.
    pub closed spec fn log(&self) -> Seq<AuditEvent> {
        self.events@
    }

    /// The runs, by id.
    pub closed spec fn runs(&self) -> Map<Seq<char>, RunView> {
        self.runs@.map_values(|r: RunRecord| r@)
    }

    /// The position in the log at which each run was opened.
    pub closed spec fn opened_at(&self) -> Map<Seq<char>, int> {
        self.opened_at@
    }

    /// The runs are well formed.
    pub open spec fn well_formed(&self) -> bool {
        runs_well_formed(self.log(), self.runs(), self.opened_at())
    }

    /// A store with no event and no run.
    pub fn new() -> (r: Self)
        ensures
            r.well_formed(),
            r.log() == Seq::<AuditEvent>::empty(),
            r.runs() == Map::<Seq<char>, RunView>::empty(),
    {
        let r = AuditStore { events: Vec::new(), runs: StringHashMap::new(), opened_at: Ghost(Map::empty()) };
        assert(r.runs() =~= Map::<Seq<char>, RunView>::empty());
        r
    }

    /// Appends the event to the log, and to the events of its run if that run exists.
    pub fn record_event(&mut self, event: AuditEvent)
        requires
            old(self).well_formed(),
        ensures
            final(self).well_formed(),
            final(self).log() == old(self).log().push(event),
            final(self).runs() == runs_after_event(old(self).runs(), event),
    {
        match self.runs.get(event.run_id.as_str()) {
            Some(run) => {
                let mut updated = run.duplicate();
                updated.events.push(event.duplicate());
                let ghost before = self.runs@;
                self.runs.insert(event.run_id.clone(), updated);
                assert(self.runs@.map_values(|r: RunRecord| r@) =~= before.map_values(
                    |r: RunRecord| r@,
                ).insert(event.run_id@, updated@));
            },
            None => {},
        }
        let ghost log = self.events@;
        self.events.push(event);
        proof {
            assert forall|k: Seq<char>| #[trigger] self.runs().contains_key(k) implies {
                &&& self.opened_at().contains_key(k)
                &&& 0 <= self.opened_at()[k] <= self.log().len()
                &&& self.runs()[k].id == k
                &&& self.runs()[k].events == events_naming(
                    self.log().subrange(self.opened_at()[k], self.log().len() as int),
                    k,
                )
            } by {
                assert(old(self).runs().contains_key(k));
                lemma_events_naming_push(log, self.opened_at()[k], event, k);
            }
        }
    }

    /// Opens a run in `running` status under a fresh id, records its
    /// `run.started` event, and returns the id.
    pub fn create_run(&mut self, project_id: &str, workstream_id: &str, user_request: &str) -> (r: String)
        requires
            old(self).well_formed(),
        ensures
            final(self).well_formed(),
            r@.len() == 36,
            final(self).log() == old(self).log().push(final(self).log().last()),
            is_run_start(final(self).log().last(), r@, project_id@, workstream_id@),
            final(self).runs() == old(self).runs().insert(
                r@,
                RunView {
                    id: r@,
                    project_id: project_id@,
                    workstream_id: workstream_id@,
                    started_at: final(self).runs()[r@].started_at,
                    completed_at: None,
                    status: "running"@,
                    user_request: user_request@,
                    events: seq![final(self).log().last()],
                    summary: None,
                },
            ),
    {
        let run_id = fresh_id();
        let run = RunRecord {
            id: run_id.clone(),
            project_id: project_id.to_string(),
            workstream_id: workstream_id.to_string(),
            started_at: now_rfc3339(),
            completed_at: None,
            status: "running".to_string(),
            user_request: user_request.to_string(),
            events: Vec::new(),
            summary: None,
        };
        let ghost before = self.runs@;
        self.runs.insert(run_id.clone(), run);
        self.opened_at = Ghost(self.opened_at@.insert(run_id@, self.events@.len() as int));
        assert(self.runs() =~= before.map_values(|r: RunRecord| r@).insert(run_id@, run@));
        assert(self.events@.subrange(self.events@.len() as int, self.events@.len() as int) =~= Seq::<AuditEvent>::empty());
        assert forall|k: Seq<char>| #[trigger] self.runs().contains_key(k) implies {
            &&& self.opened_at().contains_key(k)
            &&& 0 <= self.opened_at()[k] <= self.log().len()
            &&& self.runs()[k].id == k
            &&& self.runs()[k].events == events_naming(
                self.log().subrange(self.opened_at()[k], self.log().len() as int),
                k,
            )
        } by {
            if k != run_id@ {
                assert(old(self).runs().contains_key(k));
            }
        }
        let payload = json_string_object(
            vec![
                ("kind".to_string(), "run".to_string()),
                ("status".to_string(), "started".to_string()),
                ("input".to_string(), user_request.to_string()),
            ],
        );
        let event = AuditEvent {
            id: fresh_id(),
            timestamp: now_rfc3339(),
            run_id: run_id.clone(),
            workstream_id: workstream_id.to_string(),
            project_id: project_id.to_string(),
            event_type: "run.started".to_string(),
            actor: AuditActor {
                actor_type: "user".to_string(),
                id: "system".to_string(),
                role: None,
                name: "User".to_string(),
            },
            payload,
            parent_event_id: None,
            span_id: None,
            trace_id: None,
        };
        self.record_event(event);
        assert(self.runs() =~= old(self).runs().insert(run_id@, with_event(run@, event)));
        assert(seq![event] =~= Seq::<AuditEvent>::empty().push(event));
        run_id
    }

    /// Completes the run, if it exists: sets its status and completion time
    /// and computes its summary over its events.
    pub fn complete_run(&mut self, run_id: &str, status: &str)
        requires
            old(self).well_formed(),
        ensures
            final(self).well_formed(),
            final(self).log() == old(self).log(),
            !old(self).runs().contains_key(run_id@) ==> final(self).runs() == old(self).runs(),
            old(self).runs().contains_key(run_id@) ==> {
                &&& final(self).runs()[run_id@].completed_at is Some
                &&& final(self).runs() == old(self).runs().insert(
                    run_id@,
                    completed(old(self).runs()[run_id@], status@, final(self).runs()[run_id@].completed_at),
                )
            },
    {
        match self.runs.get(run_id) {
            Some(run) => {
                let mut updated = run.duplicate();
                updated.completed_at = Some(now_rfc3339());
                updated.status = status.to_string();
                updated.summary = Some(AuditStore::compute_summary(updated.events.as_slice()));
                let ghost before = self.runs@;
                self.runs.insert(run_id.to_string(), updated);
                assert(self.runs() =~= before.map_values(|r: RunRecord| r@).insert(run_id@, updated@));
                assert(old(self).runs()[run_id@] == run@);
                assert forall|k: Seq<char>| #[trigger] self.runs().contains_key(k) implies {
                    &&& self.opened_at().contains_key(k)
                    &&& 0 <= self.opened_at()[k] <= self.log().len()
                    &&& self.runs()[k].id == k
                    &&& self.runs()[k].events == events_naming(
                        self.log().subrange(self.opened_at()[k], self.log().len() as int),
                        k,
                    )
                } by {
                    assert(old(self).runs().contains_key(k));
                }
            },
            None => {},
        }
    }

    /// A copy of the run, if it exists.
    pub fn get_run(&self, run_id: &str) -> (r: Option<RunRecord>)
        ensures
            match r {
                Some(run) => self.runs().contains_key(run_id@) && run@ == self.runs()[run_id@],
                None => !self.runs().contains_key(run_id@),
            },
    {
        match self.runs.get(run_id) {
            Some(run) => Some(run.duplicate()),
            None => None,
        }
    }

    /// Counts the events by kind.
    pub fn compute_summary(events: &[AuditEvent]) -> (r: RunSummary)
        ensures
            r == summary_of(events@),
    {
        let ghost all = events@;
        let mut agent: usize = 0;
        let mut tool: usize = 0;
        let mut write: usize = 0;
        let mut commit: usize = 0;
        let mut started: usize = 0;
        let mut passed: usize = 0;
        let mut failed: usize = 0;
        let mut gate_ok: usize = 0;
        let mut gate_ko: usize = 0;
        let mut deploy: usize = 0;
        let mut docs: usize = 0;
        let mut created: usize = 0;
        let mut updated: usize = 0;
        let mut i: usize = 0;
        while i < events.len()
            invariant
                i <= all.len(),
                all == events@,
                agent == count_of(all.subrange(0, i as int), "agent.decision"@),
                tool == count_of(all.subrange(0, i as int), "tool.call"@),
                write == count_of(all.subrange(0, i as int), "code.write"@),
                commit == count_of(all.subrange(0, i as int), "code.commit"@),
                started == count_of(all.subrange(0, i as int), "test.started"@),
                passed == count_of(all.subrange(0, i as int), "test.passed"@),
                failed == count_of(all.subrange(0, i as int), "test.failed"@),
                gate_ok == count_of(all.subrange(0, i as int), "gate.passed"@),
                gate_ko == count_of(all.subrange(0, i as int), "gate.failed"@),
                deploy == count_of(all.subrange(0, i as int), "deploy.completed"@),
                docs == count_of(all.subrange(0, i as int), "documentation.write"@),
                created == count_of(all.subrange(0, i as int), "linear.issue.created"@),
                updated == count_of(all.subrange(0, i as int), "linear.issue.updated"@),
                agent <= i && tool <= i && write <= i && commit <= i && started <= i,
                passed <= i && failed <= i && gate_ok <= i && gate_ko <= i,
                deploy <= i && docs <= i && created <= i && updated <= i,
            decreases all.len() - i,
        {
            let t = events[i].event_type.as_str();
            assert(all.subrange(0, i + 1).drop_last() =~= all.subrange(0, i as int));
            assert(all.subrange(0, i + 1).last() == all[i as int]);
            bump(&mut agent, t, "agent.decision");
            bump(&mut tool, t, "tool.call");
            bump(&mut write, t, "code.write");
            bump(&mut commit, t, "code.commit");
            bump(&mut started, t, "test.started");
            bump(&mut passed, t, "test.passed");
            bump(&mut failed, t, "test.failed");
            bump(&mut gate_ok, t, "gate.passed");
            bump(&mut gate_ko, t, "gate.failed");
            bump(&mut deploy, t, "deploy.completed");
            bump(&mut docs, t, "documentation.write");
            bump(&mut created, t, "linear.issue.created");
            bump(&mut updated, t, "linear.issue.updated");
            i = i + 1;
        }
        assert(all.subrange(0, i as int) =~= all);
        proof {
            reveal_strlit("code.write");
            reveal_strlit("code.commit");
            reveal_strlit("linear.issue.created");
            reveal_strlit("linear.issue.updated");
            assert("code.write"@.len() != "code.commit"@.len());
            assert("linear.issue.created"@[13] != "linear.issue.updated"@[13]);
            lemma_count_pair_bounded(all, "code.write"@, "code.commit"@);
            lemma_count_pair_bounded(all, "linear.issue.created"@, "linear.issue.updated"@);
        }
        RunSummary {
            total_events: clamp_count(events.len()),
            agent_decisions: clamp_count(agent),
            tool_calls: clamp_count(tool),
            code_changes: clamp_count(write + commit),
            tests_run: clamp_count(started),
            tests_passed: clamp_count(passed),
            tests_failed: clamp_count(failed),
            gates_passed: clamp_count(gate_ok),
            gates_failed: clamp_count(gate_ko),
            deployments_completed: clamp_count(deploy),
            documentation_updates: clamp_count(docs),
            linear_updates: clamp_count(created + updated),
            duration: 0,
        }
    }

    /// The newest `limit` events of the project, newest first.
    pub fn get_events(&self, project_id: &str, limit: usize) -> (r: Vec<AuditEvent>)
        ensures
            r@ == newest_for_project(self.log(), project_id@, limit as nat),
    {
        let ghost log = self.events@;
        let mut out: Vec<AuditEvent> = Vec::new();
        let mut i: usize = self.events.len();
        assert(log.subrange(0, i as int) =~= log);
        while i > 0 && out.len() < limit
            invariant
                log == self.events@,
                i <= log.len(),
                out@.len() <= limit,
                out@ + newest_for_project(log.subrange(0, i as int), project_id@, (limit - out@.len()) as nat)
                    == newest_for_project(log, project_id@, limit as nat),
            decreases i,
        {
            let e = &self.events[i - 1];
            let ghost rest = log.subrange(0, i - 1);
            assert(log.subrange(0, i as int).drop_last() =~= rest);
            assert(log.subrange(0, i as int).last() == log[i - 1]);
            if same_text(e.project_id.as_str(), project_id) {
                let ghost tail = newest_for_project(rest, project_id@, (limit - out@.len() - 1) as nat);
                assert(out@.push(*e) + tail =~= out@ + (seq![*e] + tail));
                out.push(e.duplicate());
            }
            i = i - 1;
        }
        assert(out@ + Seq::<AuditEvent>::empty() =~= out@);
        out
    }
}

/// The summary of a run that holds only its opening event: one event in
/// total, and every counter at zero.
pub proof fn lemma_fresh_run_summary(started: AuditEvent)
    requires
        started.event_type@ == "run.started"@,
    ensures
        summary_of(seq![started]) == (RunSummary {
            total_events: 1,
            agent_decisions: 0,
            tool_calls: 0,
            code_changes: 0,
            tests_run: 0,
            tests_passed: 0,
            tests_failed: 0,
            gates_passed: 0,
            gates_failed: 0,
            deployments_completed: 0,
            documentation_updates: 0,
            linear_updates: 0,
            duration: 0,
        }),
{
    let s = seq![started];
    assert(s.drop_last() =~= Seq::<AuditEvent>::empty());
    assert(s.last() == started);
    reveal_strlit("run.started");
    reveal_strlit("agent.decision");
    assert(started.event_type@[0] != "agent.decision"@[0]);
    assert(count_of(s.drop_last(), "agent.decision"@) == 0);
    assert(count_of(s, "agent.decision"@) == 0);
    reveal_strlit("tool.call");
    assert(started.event_type@[0] != "tool.call"@[0]);
    assert(count_of(s.drop_last(), "tool.call"@) == 0);
    assert(count_of(s, "tool.call"@) == 0);
    reveal_strlit("code.write");
    assert(started.event_type@[0] != "code.write"@[0]);
    assert(count_of(s.drop_last(), "code.write"@) == 0);
    assert(count_of(s, "code.write"@) == 0);
    reveal_strlit("code.commit");
    assert(started.event_type@[0] != "code.commit"@[0]);
    assert(count_of(s.drop_last(), "code.commit"@) == 0);
    assert(count_of(s, "code.commit"@) == 0);
    reveal_strlit("test.started");
    assert(started.event_type@[0] != "test.started"@[0]);
    assert(count_of(s.drop_last(), "test.started"@) == 0);
    assert(count_of(s, "test.started"@) == 0);
    reveal_strlit("test.passed");
    assert(started.event_type@[0] != "test.passed"@[0]);
    assert(count_of(s.drop_last(), "test.passed"@) == 0);
    assert(count_of(s, "test.passed"@) == 0);
    reveal_strlit("test.failed");
    assert(started.event_type@[0] != "test.failed"@[0]);
    assert(count_of(s.drop_last(), "test.failed"@) == 0);
    assert(count_of(s, "test.failed"@) == 0);
    reveal_strlit("gate.passed");
    assert(started.event_type@[0] != "gate.passed"@[0]);
    assert(count_of(s.drop_last(), "gate.passed"@) == 0);
    assert(count_of(s, "gate.passed"@) == 0);
    reveal_strlit("gate.failed");
    assert(started.event_type@[0] != "gate.failed"@[0]);
    assert(count_of(s.drop_last(), "gate.failed"@) == 0);
    assert(count_of(s, "gate.failed"@) == 0);
    reveal_strlit("deploy.completed");
    assert(started.event_type@[0] != "deploy.completed"@[0]);
    assert(count_of(s.drop_last(), "deploy.completed"@) == 0);
    assert(count_of(s, "deploy.completed"@) == 0);
    reveal_strlit("documentation.write");
    assert(started.event_type@[0] != "documentation.write"@[0]);
    assert(count_of(s.drop_last(), "documentation.write"@) == 0);
    assert(count_of(s, "documentation.write"@) == 0);
    reveal_strlit("linear.issue.created");
    assert(started.event_type@[0] != "linear.issue.created"@[0]);
    assert(count_of(s.drop_last(), "linear.issue.created"@) == 0);
    assert(count_of(s, "linear.issue.created"@) == 0);
    reveal_strlit("linear.issue.updated");
    assert(started.event_type@[0] != "linear.issue.updated"@[0]);
    assert(count_of(s.drop_last(), "linear.issue.updated"@) == 0);
    assert(count_of(s, "linear.issue.updated"@) == 0);
}

/// An event whose run was never created is still logged and leaves every
/// run as it was; it is then the newest event of its project.
pub proof fn lemma_unknown_run_tolerated(
    log: Seq<AuditEvent>,
    runs: Map<Seq<char>, RunView>,
    event: AuditEvent,
    limit: nat,
)
    requires
        !runs.contains_key(event.run_id@),
        limit > 0,
    ensures
        runs_after_event(runs, event) == runs,
        newest_for_project(log.push(event), event.project_id@, limit)[0] == event,
{
    assert(log.push(event).drop_last() =~= log);
}

/// What `get_events` returns holds at most `limit` events, all of the
/// project, and exactly `limit` where the project has that many.
pub proof fn lemma_bounded_retrieval(log: Seq<AuditEvent>, project_id: Seq<char>, limit: nat)
    ensures
        newest_for_project(log, project_id, limit).len() == if project_count(log, project_id) < limit {
            project_count(log, project_id)
        } else {
            limit
        },
        forall|k: int|
            0 <= k < newest_for_project(log, project_id, limit).len() ==> (#[trigger] newest_for_project(
                log,
                project_id,
                limit,
            )[k]).project_id@ == project_id,
    decreases log.len(),
{
    if log.len() > 0 && limit > 0 {
        let rest = log.drop_last();
        if log.last().project_id@ == project_id {
            lemma_bounded_retrieval(rest, project_id, (limit - 1) as nat);
            let tail = newest_for_project(rest, project_id, (limit - 1) as nat);
            assert forall|k: int| 0 <= k < (seq![log.last()] + tail).len() implies (#[trigger] (seq![log.last()] + tail)[k]).project_id@ == project_id by {
                if k > 0 {
                    assert((seq![log.last()] + tail)[k] == tail[k - 1]);
                }
            }
        } else {
            lemma_bounded_retrieval(rest, project_id, limit);
        }
    }
}

} // verus!
