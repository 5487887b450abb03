//! Projects and their workstreams: the in-memory registry that opens an audit
//! run for each new workstream and logs each user message.
use vstd::prelude::*;
use crate::audit::{AuditActor, AuditEvent, AuditStore, RunView, is_run_start, runs_after_event};
use crate::outside::{fresh_id, now_rfc3339, json_string_object};
use crate::text::same_text;

verus! {

broadcast use vstd::string::group_string_axioms;

#[derive(Debug, Clone)]
pub struct ProjectData {
    pub id: String,
    pub name: String,
    pub description: String,
    pub created_at: String,
    pub status: String,
    pub vault_path: String,
    pub workstreams: Vec<String>,
}

#[derive(Debug, Clone)]
pub struct MessageData {
    pub id: String,
    pub role: String,
    pub content: String,
    pub timestamp: String,
    pub agent_id: Option<String>,
    pub agent_name: Option<String>,
}

#[derive(Debug, Clone)]
pub struct WorkstreamData {
    pub id: String,
    pub project_id: String,
    pub title: String,
    pub description: String,
    pub status: String,
    pub created_at: String,
    pub user_request: String,
    pub current_phase: String,
    pub messages: Vec<MessageData>,
}

/// What a project holds, as mathematical values.
pub struct ProjectView {
    pub id: Seq<char>,
    pub name: Seq<char>,
    pub description: Seq<char>,
    pub created_at: Seq<char>,
    pub status: Seq<char>,
    pub vault_path: Seq<char>,
    pub workstreams: Seq<String>,
}

/// What a workstream holds, as mathematical values.
pub struct WorkstreamView {
    pub id: Seq<char>,
    pub project_id: Seq<char>,
    pub title: Seq<char>,
    pub description: Seq<char>,
    pub status: Seq<char>,
    pub created_at: Seq<char>,
    pub user_request: Seq<char>,
    pub current_phase: Seq<char>,
    pub messages: Seq<MessageData>,
}

impl View for ProjectData {
    type V = ProjectView;

    open spec fn view(&self) -> ProjectView {
        ProjectView {
            id: self.id@,
            name: self.name@,
            description: self.description@,
            created_at: self.created_at@,
            status: self.status@,
            vault_path: self.vault_path@,
            workstreams: self.workstreams@,
        }
    }
}

impl View for WorkstreamData {
    type V = WorkstreamView;

    open spec fn view(&self) -> WorkstreamView {
        WorkstreamView {
            id: self.id@,
            project_id: self.project_id@,
            title: self.title@,
            description: self.description@,
            status: self.status@,
            created_at: self.created_at@,
            user_request: self.user_request@,
            current_phase: self.current_phase@,
            messages: self.messages@,
        }
    }
}

fn copy_text(s: &Option<String>) -> (r: Option<String>)
    ensures
        r == *s,
{
    match s {
        Some(t) => Some(t.clone()),
        None => None,
    }
}

fn copy_strings(v: &Vec<String>) -> (r: Vec<String>)
    ensures
        r@ == v@,
{
    let mut r: Vec<String> = Vec::new();
    let mut i: usize = 0;
    while i < v.len()
        invariant
            i <= v@.len(),
            r@ == v@.subrange(0, i as int),
        decreases v@.len() - i,
    {
        r.push(v[i].clone());
        i = i + 1;
        assert(r@ =~= v@.subrange(0, i as int));
    }
    assert(r@ =~= v@);
    r
}

impl MessageData {
    /// An equal copy.
    pub fn duplicate(&self) -> (r: MessageData)
        ensures
            r == *self,
    {
        MessageData {
            id: self.id.clone(),
            role: self.role.clone(),
            content: self.content.clone(),
            timestamp: self.timestamp.clone(),
            agent_id: copy_text(&self.agent_id),
            agent_name: copy_text(&self.agent_name),
        }
    }
}

fn copy_messages(v: &Vec<MessageData>) -> (r: Vec<MessageData>)
    ensures
        r@ == v@,
{
    let mut r: Vec<MessageData> = Vec::new();
    let mut i: usize = 0;
    while i < v.len()
        invariant
            i <= v@.len(),
            r@ == v@.subrange(0, i as int),
        decreases v@.len() - i,
    {
        r.push(v[i].duplicate());
        i = i + 1;
        assert(r@ =~= v@.subrange(0, i as int));
    }
    assert(r@ =~= v@);
    r
}

impl ProjectData {
    /// An equal copy.
    pub fn duplicate(&self) -> (r: ProjectData)
        ensures
            r@ == self@,
    {
        ProjectData {
            id: self.id.clone(),
            name: self.name.clone(),
            description: self.description.clone(),
            created_at: self.created_at.clone(),
            status: self.status.clone(),
            vault_path: self.vault_path.clone(),
            workstreams: copy_strings(&self.workstreams),
        }
    }
}

impl WorkstreamData {
    /// An equal copy.
    pub fn duplicate(&self) -> (r: WorkstreamData)
        ensures
            r@ == self@,
    {
        WorkstreamData {
            id: self.id.clone(),
            project_id: self.project_id.clone(),
            title: self.title.clone(),
            description: self.description.clone(),
            status: self.status.clone(),
            created_at: self.created_at.clone(),
            user_request: self.user_request.clone(),
            current_phase: self.current_phase.clone(),
            messages: copy_messages(&self.messages),
        }
    }
}

/// `i` is the position of the first project with this id.
pub open spec fn first_project(projects: Seq<ProjectView>, id: Seq<char>, i: int) -> bool {
    &&& 0 <= i < projects.len()
    &&& projects[i].id == id
    &&& forall|j: int| 0 <= j < i ==> (#[trigger] projects[j]).id != id
}

/// `i` is the position of the first workstream with this id.
pub open spec fn first_workstream(workstreams: Seq<WorkstreamView>, id: Seq<char>, i: int) -> bool {
    &&& 0 <= i < workstreams.len()
    &&& workstreams[i].id == id
    &&& forall|j: int| 0 <= j < i ==> (#[trigger] workstreams[j]).id != id
}

/// The workstreams of the project, in order.
pub open spec fn workstreams_of(workstreams: Seq<WorkstreamView>, project_id: Seq<char>) -> Seq<WorkstreamView>
    decreases workstreams.len(),
{
    if workstreams.len() == 0 {
        Seq::empty()
    } else if workstreams.last().project_id == project_id {
        workstreams_of(workstreams.drop_last(), project_id).push(workstreams.last())
    } else {
        workstreams_of(workstreams.drop_last(), project_id)
    }
}

/// The event that logs a user's message to a workstream.
pub open spec fn is_user_request(event: AuditEvent, workstream_id: Seq<char>, project_id: Seq<char>) -> bool {
    &&& event.run_id@ == Seq::<char>::empty()
    &&& event.workstream_id@ == workstream_id
    &&& event.project_id@ == project_id
    &&& event.event_type@ == "user.request"@
    &&& event.actor.actor_type@ == "user"@
    &&& event.actor.id@ == "user"@
    &&& event.actor.role is None
    &&& event.actor.name@ == "User"@
    &&& event.parent_event_id is None
    &&& event.span_id is None
    &&& event.trace_id is None
}

/// The projects and workstreams known to the application.
pub struct Workspace {
    projects: Vec<ProjectData>,
    workstreams: Vec<WorkstreamData>,
}

impl Workspace {
    /// The projects, in order of creation.
    pub closed spec fn projects(&self) -> Seq<ProjectView> {
        self.projects@.map_values(|p: ProjectData| p@)
    }

    /// The workstreams, in order of creation.
    pub closed spec fn workstreams(&self) -> Seq<WorkstreamView> {
        self.workstreams@.map_values(|w: WorkstreamData| w@)
    }

    /// A workspace with no project and no workstream.
    pub fn new() -> (r: Self)
        ensures
            r.projects() == Seq::<ProjectView>::empty(),
            r.workstreams() == Seq::<WorkstreamView>::empty(),
    {
        let r = Workspace { projects: Vec::new(), workstreams: Vec::new() };
        assert(r.projects() =~= Seq::<ProjectView>::empty());
        assert(r.workstreams() =~= Seq::<WorkstreamView>::empty());
        r
    }

    /// Copies of all projects, in order.
    pub fn get_projects(&self) -> (r: Vec<ProjectData>)
        ensures
            r@.map_values(|p: ProjectData| p@) == self.projects(),
    {
        let mut r: Vec<ProjectData> = Vec::new();
        let mut i: usize = 0;
        while i < self.projects.len()
            invariant
                i <= self.projects@.len(),
                r@.map_values(|p: ProjectData| p@) == self.projects().subrange(0, i as int),
            decreases self.projects@.len() - i,
        {
            let ghost before = r@;
            r.push(self.projects[i].duplicate());
            assert(r@.map_values(|p: ProjectData| p@) =~= before.map_values(|p: ProjectData| p@).push(
                self.projects@[i as int]@,
            ));
            assert(self.projects().subrange(0, i + 1) =~= self.projects().subrange(0, i as int).push(
                self.projects@[i as int]@,
            ));
            i = i + 1;
        }
        assert(self.projects().subrange(0, i as int) =~= self.projects());
        r
    }

    /// Adds an active project with a fresh id and no workstream, and returns a copy of it.
    pub fn create_project(&mut self, name: String, description: String, vault_path: String) -> (r: ProjectData)
        ensures
            r.id@.len() == 36,
            r.name@ == name@,
            r.description@ == description@,
            r.status@ == "active"@,
            r.vault_path@ == vault_path@,
            r.workstreams@ == Seq::<String>::empty(),
            final(self).projects() == old(self).projects().push(r@),
            final(self).workstreams() == old(self).workstreams(),
    {
        let project = ProjectData {
            id: fresh_id(),
            name,
            description,
            created_at: now_rfc3339(),
            status: "active".to_string(),
            vault_path,
            workstreams: Vec::new(),
        };
        let r = project.duplicate();
        let ghost before = self.projects@;
        self.projects.push(project);
        assert(self.projects() =~= before.map_values(|p: ProjectData| p@).push(r@));
        r
    }

    /// A copy of the first project with this id, if any.
    pub fn get_project(&self, project_id: &str) -> (r: Option<ProjectData>)
        ensures
            match r {
                Some(p) => exists|i: int| first_project(self.projects(), project_id@, i) && p@ == self.projects()[i],
                None => forall|i: int| 0 <= i < self.projects().len() ==> (#[trigger] self.projects()[i]).id != project_id@,
            },
    {
        match self.find_project(project_id) {
            Some(i) => Some(self.projects[i].duplicate()),
            None => None,
        }
    }

    fn find_project(&self, project_id: &str) -> (r: Option<usize>)
        ensures
            match r {
                Some(i) => first_project(self.projects(), project_id@, i as int),
                None => forall|i: int| 0 <= i < self.projects().len() ==> (#[trigger] self.projects()[i]).id != project_id@,
            },
    {
        let mut i: usize = 0;
        while i < self.projects.len()
            invariant
                i <= self.projects@.len(),
                forall|j: int| 0 <= j < i ==> (#[trigger] self.projects()[j]).id != project_id@,
            decreases self.projects@.len() - i,
        {
            if same_text(self.projects[i].id.as_str(), project_id) {
                return Some(i);
            }
            i = i + 1;
        }
        None
    }

    fn find_workstream(&self, workstream_id: &str) -> (r: Option<usize>)
        ensures
            match r {
                Some(i) => first_workstream(self.workstreams(), workstream_id@, i as int),
                None => forall|i: int| 0 <= i < self.workstreams().len() ==> (#[trigger] self.workstreams()[i]).id != workstream_id@,
            },
    {
        let mut i: usize = 0;
        while i < self.workstreams.len()
            invariant
                i <= self.workstreams@.len(),
                forall|j: int| 0 <= j < i ==> (#[trigger] self.workstreams()[j]).id != workstream_id@,
            decreases self.workstreams@.len() - i,
        {
            if same_text(self.workstreams[i].id.as_str(), workstream_id) {
                return Some(i);
            }
            i = i + 1;
        }
        None
    }

    /// Copies of the project's workstreams, in order.
    pub fn get_workstreams(&self, project_id: &str) -> (r: Vec<WorkstreamData>)
        ensures
            r@.map_values(|w: WorkstreamData| w@) == workstreams_of(self.workstreams(), project_id@),
    {
        let ghost all = self.workstreams();
        let mut r: Vec<WorkstreamData> = Vec::new();
        let mut i: usize = 0;
        while i < self.workstreams.len()
            invariant
                all == self.workstreams(),
                i <= self.workstreams@.len(),
                r@.map_values(|w: WorkstreamData| w@) == workstreams_of(all.subrange(0, i as int), project_id@),
            decreases self.workstreams@.len() - i,
        {
            assert(all.subrange(0, i + 1).drop_last() =~= all.subrange(0, i as int));
            assert(all.subrange(0, i + 1).last() == self.workstreams@[i as int]@);
            if same_text(self.workstreams[i].project_id.as_str(), project_id) {
                let ghost before = r@;
                r.push(self.workstreams[i].duplicate());
                assert(r@.map_values(|w: WorkstreamData| w@) =~= before.map_values(|w: WorkstreamData| w@).push(
                    self.workstreams@[i as int]@,
                ));
            }
            i = i + 1;
        }
        assert(all.subrange(0, i as int) =~= all);
        r
    }

    /// Adds a draft workstream in its design phase under a fresh id, opens an
    /// audit run for it, lists it under its project if that project exists,
    /// and returns a copy of it.
    pub fn create_workstream(&mut self, project_id: String, title: String, user_request: String, audit_store: &mut AuditStore) -> (r: WorkstreamData)
        requires
            old(audit_store).well_formed(),
        ensures
            final(audit_store).well_formed(),
            r.id@.len() == 36,
            r.project_id@ == project_id@,
            r.title@ == title@,
            r.description@ == Seq::<char>::empty(),
            r.status@ == "draft"@,
            r.user_request@ == user_request@,
            r.current_phase@ == "design"@,
            r.messages@ == Seq::<MessageData>::empty(),
            final(self).workstreams() == old(self).workstreams().push(r@),
            forall|i: int| first_project(old(self).projects(), project_id@, i) ==> final(self).projects()
                == old(self).projects().update(
                i,
                ProjectView { workstreams: old(self).projects()[i].workstreams.push(r.id), ..old(self).projects()[i] },
            ),
            (forall|i: int| 0 <= i < old(self).projects().len() ==> (#[trigger] old(self).projects()[i]).id != project_id@)
                ==> final(self).projects() == old(self).projects(),
            ({
                let started = final(audit_store).log().last();
                &&& final(audit_store).log() == old(audit_store).log().push(started)
                &&& is_run_start(started, started.run_id@, project_id@, r.id@)
                &&& final(audit_store).runs() == old(audit_store).runs().insert(
                    started.run_id@,
                    RunView {
                        id: started.run_id@,
                        project_id: project_id@,
                        workstream_id: r.id@,
                        started_at: final(audit_store).runs()[started.run_id@].started_at,
                        completed_at: None,
                        status: "running"@,
                        user_request: user_request@,
                        events: seq![started],
                        summary: None,
                    },
                )
            }),
    {
        let workstream_id = fresh_id();
        let _run_id = audit_store.create_run(project_id.as_str(), workstream_id.as_str(), user_request.as_str());
        let workstream = WorkstreamData {
            id: workstream_id,
            project_id: project_id.clone(),
            title,
            description: String::new(),
            status: "draft".to_string(),
            created_at: now_rfc3339(),
            user_request,
            current_phase: "design".to_string(),
            messages: Vec::new(),
        };
        let r = workstream.duplicate();
        let ghost ws_before = self.workstreams@;
        self.workstreams.push(workstream);
        assert(self.workstreams() =~= ws_before.map_values(|w: WorkstreamData| w@).push(r@));
        match self.find_project(project_id.as_str()) {
            Some(i) => {
                let ghost before = self.projects@;
                self.projects[i].workstreams.push(r.id.clone());
                assert(self.projects() =~= before.map_values(|p: ProjectData| p@).update(
                    i as int,
                    ProjectView { workstreams: before[i as int]@.workstreams.push(r.id), ..before[i as int]@ },
                ));
                assert forall|k: int| first_project(old(self).projects(), project_id@, k) implies k == i by {
                    if k < i {
                        assert(old(self).projects()[k].id == project_id@);
                    }
                    if k > i {
                        assert(old(self).projects()[i as int].id == project_id@);
                    }
                }
            },
            None => {},
        }
        r
    }

    /// Appends a user message to the first workstream with this id and logs
    /// it as a `user.request` event; where no such workstream exists, nothing
    /// changes. Returns the message.
    pub fn send_message(&mut self, workstream_id: String, content: String, audit_store: &mut AuditStore) -> (r: MessageData)
        requires
            old(audit_store).well_formed(),
        ensures
            final(audit_store).well_formed(),
            r.id@.len() == 36,
            r.role@ == "user"@,
            r.content@ == content@,
            r.agent_id is None,
            r.agent_name is None,
            final(self).projects() == old(self).projects(),
            forall|i: int| first_workstream(old(self).workstreams(), workstream_id@, i) ==> {
                let event = final(audit_store).log().last();
                &&& final(self).workstreams() == old(self).workstreams().update(
                    i,
                    WorkstreamView { messages: old(self).workstreams()[i].messages.push(r), ..old(self).workstreams()[i] },
                )
                &&& final(audit_store).log() == old(audit_store).log().push(event)
                &&& is_user_request(event, workstream_id@, old(self).workstreams()[i].project_id)
                &&& final(audit_store).runs() == runs_after_event(old(audit_store).runs(), event)
            },
            (forall|i: int| 0 <= i < old(self).workstreams().len() ==> (#[trigger] old(self).workstreams()[i]).id != workstream_id@) ==> {
                &&& final(self).workstreams() == old(self).workstreams()
                &&& final(audit_store).log() == old(audit_store).log()
                &&& final(audit_store).runs() == old(audit_store).runs()
            },
    {
        let message = MessageData {
            id: fresh_id(),
            role: "user".to_string(),
            content: content.clone(),
            timestamp: now_rfc3339(),
            agent_id: None,
            agent_name: None,
        };
        match self.find_workstream(workstream_id.as_str()) {
            Some(i) => {
                let ghost before = self.workstreams@;
                self.workstreams[i].messages.push(message.duplicate());
                assert(self.workstreams() =~= before.map_values(|w: WorkstreamData| w@).update(
                    i as int,
                    WorkstreamView { messages: before[i as int]@.messages.push(message), ..before[i as int]@ },
                ));
                let payload = json_string_object(
                    vec![
                        ("kind".to_string(), "user.request".to_string()),
                        ("action".to_string(), "request".to_string()),
                        ("content".to_string(), content),
                    ],
                );
                let event = AuditEvent {
                    id: fresh_id(),
                    timestamp: now_rfc3339(),
                    run_id: String::new(),
                    workstream_id: workstream_id.clone(),
                    project_id: self.workstreams[i].project_id.clone(),
                    event_type: "user.request".to_string(),
                    actor: AuditActor {
                        actor_type: "user".to_string(),
                        id: "user".to_string(),
                        role: None,
                        name: "User".to_string(),
                    },
                    payload,
                    parent_event_id: None,
                    span_id: None,
                    trace_id: None,
                };
                audit_store.record_event(event);
                assert forall|k: int| first_workstream(old(self).workstreams(), workstream_id@, k) implies k == i by {
                    if k < i {
                        assert(old(self).workstreams()[k].id == workstream_id@);
                    }
                    if k > i {
                        assert(old(self).workstreams()[i as int].id == workstream_id@);
                    }
                }
            },
            None => {},
        }
        message
    }
}

} // verus!
