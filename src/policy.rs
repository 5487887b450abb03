//! The policy store: one policy document per project, and the evaluation of a
//! requested action against the tool permissions of that document.
use vstd::prelude::*;
use vstd::hash_map::StringHashMap;
use vstd::string::StringExecFns;
use crate::text::{has_prefix, same_text};

verus! {

broadcast use vstd::string::group_string_axioms, vstd::hash_map::group_hash_map_axioms;

/// The outcome of an evaluation: allowed or not, and why.
#[derive(Debug, Clone)]
pub struct PolicyDecision {
    pub allowed: bool,
    pub reason: String,
}

/// A grant: actions matching `tool_id` on resources matching any of `resource_scope`.
#[derive(Debug, Clone)]
pub struct ToolPermission {
    pub tool_id: String,
    pub operations: Vec<String>,
    pub resource_scope: Vec<String>,
}

/// The grants of one agent role.
#[derive(Debug, Clone)]
pub struct RolePermissions {
    pub role: String,
    pub permissions: Vec<ToolPermission>,
}

/// The part of a policy that `evaluate_permission` reads. Where two entries of
/// `role_permissions` name the same role, the first one is the role's list.
#[derive(Debug, Clone)]
pub struct ToolPermissionPolicy {
    pub default_permissions: Vec<ToolPermission>,
    pub role_permissions: Vec<RolePermissions>,
}

#[derive(Debug, Clone)]
pub struct AgentPermission {
    pub allowed: bool,
    pub allowed_agent_roles: Vec<String>,
    pub require_approval: bool,
    pub approvers: Vec<String>,
}

/// A permission that applies in one named environment.
#[derive(Debug, Clone)]
pub struct NamedAgentPermission {
    pub environment: String,
    pub permission: AgentPermission,
}

#[derive(Debug, Clone)]
pub struct AgentPolicy {
    pub merge_to_main: AgentPermission,
    pub deploy_permissions: Vec<NamedAgentPermission>,
    pub max_concurrent_runs: u32,
}

#[derive(Debug, Clone)]
pub struct RepositoryWriteScope {
    pub repository_pattern: String,
    pub allowed_paths: Vec<String>,
    pub denied_paths: Vec<String>,
    pub allowed_agent_roles: Vec<String>,
}

#[derive(Debug, Clone)]
pub struct RepositoryPolicy {
    pub default_access: String,
    pub write_scopes: Vec<RepositoryWriteScope>,
    pub auto_merge_branches: Vec<String>,
    pub branch_pattern: String,
}

/// Deployment settings of one environment; the blast radius is a JSON number.
#[derive(Debug, Clone)]
pub struct EnvironmentPolicy {
    pub enabled: bool,
    pub auto_deploy_allowed: bool,
    pub required_gates: Vec<String>,
    pub max_blast_radius: serde_json::Number,
    pub deployment_strategy: String,
}

#[derive(Debug, Clone)]
pub struct NamedEnvironmentPolicy {
    pub environment: String,
    pub policy: EnvironmentPolicy,
}

#[derive(Debug, Clone)]
pub struct ProgressiveDeliveryPolicy {
    pub canary_steps: Vec<serde_json::Number>,
    pub step_interval: u64,
    pub evaluation_metrics: Vec<String>,
}

#[derive(Debug, Clone)]
pub struct RollbackTrigger {
    pub metric: String,
    pub condition: String,
    pub threshold: serde_json::Number,
    pub window: u64,
}

#[derive(Debug, Clone)]
pub struct RollbackPolicy {
    pub auto_rollback: bool,
    pub triggers: Vec<RollbackTrigger>,
    pub rollback_timeout: u64,
}

#[derive(Debug, Clone)]
pub struct DeploymentPolicy {
    pub environments: Vec<NamedEnvironmentPolicy>,
    pub progressive_delivery: ProgressiveDeliveryPolicy,
    pub rollback: RollbackPolicy,
}

#[derive(Debug, Clone)]
pub struct Gate {
    pub id: String,
    pub name: String,
    pub gate_type: String,
    pub required: bool,
    pub config: serde_json::Map<String, serde_json::Value>,
}

#[derive(Debug, Clone)]
pub struct GatePolicy {
    pub merge_gates: Vec<Gate>,
    pub deploy_gates: Vec<Gate>,
}

#[derive(Debug, Clone)]
pub struct ProviderDataRule {
    pub provider: String,
    pub allowed_classifications: Vec<String>,
    pub data_retention_days: u32,
    pub encryption_required: bool,
}

#[derive(Debug, Clone)]
pub struct RedactionPattern {
    pub name: String,
    pub pattern: String,
    pub replacement: String,
}

#[derive(Debug, Clone)]
pub struct DataClassificationPolicy {
    pub default_classification: String,
    pub provider_rules: Vec<ProviderDataRule>,
    pub redaction_patterns: Vec<RedactionPattern>,
}

/// A project's policy document.
#[derive(Debug, Clone)]
pub struct NebulaPolicy {
    pub version: String,
    pub project_id: String,
    pub name: String,
    pub description: String,
    pub created_at: String,
    pub updated_at: String,
    pub agents: AgentPolicy,
    pub repositories: RepositoryPolicy,
    pub deployment: DeploymentPolicy,
    pub gates: GatePolicy,
    pub data_classification: DataClassificationPolicy,
    pub tool_permissions: ToolPermissionPolicy,
}

/// A tool pattern with a wildcard suffix ends in `.*`.
pub open spec fn is_tool_wildcard(pattern: Seq<char>) -> bool {
    pattern.len() >= 2 && pattern[pattern.len() - 2] == '.' && pattern[pattern.len() - 1] == '*'
}

/// An action matches a tool pattern: it starts with the pattern's literal
/// prefix (the dot included) where the pattern ends in `.*`, else it equals it.
pub open spec fn tool_matches(action: Seq<char>, pattern: Seq<char>) -> bool {
    if is_tool_wildcard(pattern) {
        pattern.drop_last().is_prefix_of(action)
    } else {
        action == pattern
    }
}

/// A scope pattern with a wildcard suffix ends in `**`.
pub open spec fn is_scope_wildcard(scope: Seq<char>) -> bool {
    scope.len() >= 2 && scope[scope.len() - 2] == '*' && scope[scope.len() - 1] == '*'
}

/// The literal prefix of a scope pattern: the pattern without every trailing `**`.
pub open spec fn scope_prefix(scope: Seq<char>) -> Seq<char>
    decreases scope.len(),
{
    if is_scope_wildcard(scope) {
        scope_prefix(scope.subrange(0, scope.len() - 2))
    } else {
        scope
    }
}

/// A resource matches a scope pattern: any resource for `**`, one that starts
/// with the literal prefix for a pattern ending in `**`, else an equal one.
pub open spec fn scope_matches(resource: Seq<char>, scope: Seq<char>) -> bool {
    if is_scope_wildcard(scope) {
        scope_prefix(scope).is_prefix_of(resource)
    } else {
        resource == scope
    }
}

/// A resource matches one of the scope patterns.
pub open spec fn any_scope_matches(resource: Seq<char>, scopes: Seq<String>) -> bool {
    exists|j: int| 0 <= j < scopes.len() && scope_matches(resource, #[trigger] scopes[j]@)
}

/// A rule grants the action on the resource.
pub open spec fn rule_matches(rule: ToolPermission, action: Seq<char>, resource: Seq<char>) -> bool {
    tool_matches(action, rule.tool_id@) && any_scope_matches(resource, rule.resource_scope@)
}

/// One of the rules grants the action on the resource.
pub open spec fn any_rule_matches(rules: Seq<ToolPermission>, action: Seq<char>, resource: Seq<char>) -> bool {
    exists|i: int| 0 <= i < rules.len() && rule_matches(#[trigger] rules[i], action, resource)
}

/// The first entry for `role` exists and one of its rules grants the action on the resource.
pub open spec fn role_grants(
    entries: Seq<RolePermissions>,
    role: Seq<char>,
    action: Seq<char>,
    resource: Seq<char>,
) -> bool {
    exists|i: int|
        0 <= i < entries.len() && #[trigger] entries[i].role@ == role && (forall|j: int|
            0 <= j < i ==> entries[j].role@ != role) && any_rule_matches(
            entries[i].permissions@,
            action,
            resource,
        )
}

/// The decision on a request, as an allowed flag and a reason.
pub open spec fn decision(
    policies: Map<Seq<char>, NebulaPolicy>,
    project_id: Seq<char>,
    agent_role: Seq<char>,
    action: Seq<char>,
    resource: Seq<char>,
) -> (bool, Seq<char>) {
    if !policies.contains_key(project_id) {
        (false, "No policy found for project"@)
    } else {
        let tools = policies[project_id].tool_permissions;
        if role_grants(tools.role_permissions@, agent_role, action, resource) {
            (true, "Allowed by role permission for "@ + agent_role)
        } else if any_rule_matches(tools.default_permissions@, action, resource) {
            (true, "Allowed by default permission"@)
        } else {
            (
                false,
                "No matching permission for agent="@ + agent_role + ", action="@ + action
                    + ", resource="@ + resource,
            )
        }
    }
}

/// Does `action` match the tool pattern?
pub fn matches_tool(action: &str, pattern: &str) -> (r: bool)
    ensures
        r == tool_matches(action@, pattern@),
{
    let n = pattern.unicode_len();
    if n >= 2 && pattern.get_char(n - 2) == '.' && pattern.get_char(n - 1) == '*' {
        let prefix = pattern.substring_char(0, n - 1);
        assert(prefix@ =~= pattern@.drop_last());
        has_prefix(action, prefix)
    } else {
        same_text(action, pattern)
    }
}

/// Does `resource` match one pattern of `scopes`?
pub fn matches_scope(resource: &str, scopes: &[String]) -> (r: bool)
    ensures
        r == any_scope_matches(resource@, scopes@),
{
    let mut i: usize = 0;
    while i < scopes.len()
        invariant
            i <= scopes@.len(),
            forall|j: int| 0 <= j < i ==> !scope_matches(resource@, #[trigger] scopes@[j]@),
        decreases scopes@.len() - i,
    {
        if matches_one_scope(resource, scopes[i].as_str()) {
            return true;
        }
        i = i + 1;
    }
    false
}

fn matches_one_scope(resource: &str, scope: &str) -> (r: bool)
    ensures
        r == scope_matches(resource@, scope@),
{
    let n = scope.unicode_len();
    if n >= 2 && scope.get_char(n - 2) == '*' && scope.get_char(n - 1) == '*' {
        let mut k: usize = n - 2;
        assert(scope_prefix(scope@) == scope_prefix(scope@.subrange(0, k as int)));
        while k >= 2 && scope.get_char(k - 2) == '*' && scope.get_char(k - 1) == '*'
            invariant
                n == scope@.len(),
                k <= n,
                scope_prefix(scope@) == scope_prefix(scope@.subrange(0, k as int)),
            decreases k,
        {
            assert(scope@.subrange(0, k as int).subrange(0, k - 2) =~= scope@.subrange(0, k - 2));
            k = k - 2;
        }
        let prefix = scope.substring_char(0, k);
        has_prefix(resource, prefix)
    } else {
        same_text(resource, scope)
    }
}

/// Does one of `rules` grant `action` on `resource`?
fn any_rule_grants(rules: &Vec<ToolPermission>, action: &str, resource: &str) -> (r: bool)
    ensures
        r == any_rule_matches(rules@, action@, resource@),
{
    let mut i: usize = 0;
    while i < rules.len()
        invariant
            i <= rules@.len(),
            forall|j: int| 0 <= j < i ==> !rule_matches(#[trigger] rules@[j], action@, resource@),
        decreases rules@.len() - i,
    {
        let rule = &rules[i];
        if matches_tool(action, rule.tool_id.as_str()) && matches_scope(resource, rule.resource_scope.as_slice()) {
            return true;
        }
        i = i + 1;
    }
    false
}

/// Does the first entry for `role` grant `action` on `resource`?
fn role_grants_exec(entries: &Vec<RolePermissions>, role: &str, action: &str, resource: &str) -> (r: bool)
    ensures
        r == role_grants(entries@, role@, action@, resource@),
{
    let mut i: usize = 0;
    while i < entries.len()
        invariant
            i <= entries@.len(),
            forall|j: int| 0 <= j < i ==> (#[trigger] entries@[j]).role@ != role@,
        decreases entries@.len() - i,
    {
        if same_text(entries[i].role.as_str(), role) {
            let r = any_rule_grants(&entries[i].permissions, action, resource);
            proof {
                if !r {
                    assert forall|m: int| 0 <= m < entries@.len() && #[trigger] entries@[m].role@ == role@ && (forall|j: int| 0 <= j < m ==> entries@[j].role@ != role@)
                        implies !any_rule_matches(entries@[m].permissions@, action@, resource@) by {
                        if m > i {
                            assert(entries@[i as int].role@ == role@);
                        }
                    }
                }
            }
            return r;
        }
        i = i + 1;
    }
    false
}

/// The policies of all projects, one per project.
pub struct PolicyEngine {
    policies: StringHashMap<NebulaPolicy>,
}

impl View for PolicyEngine {
    type V = Map<Seq<char>, NebulaPolicy>;

    closed spec fn view(&self) -> Map<Seq<char>, NebulaPolicy> {
        self.policies@
    }
}

impl PolicyEngine {
    /// An engine that holds no policy.
    pub fn new() -> (r: Self)
        ensures
            r@ == Map::<Seq<char>, NebulaPolicy>::empty(),
    {
        PolicyEngine { policies: StringHashMap::new() }
    }

    /// The current policy of the project, if one was set.
    pub fn get_policy(&self, project_id: &str) -> (r: Option<&NebulaPolicy>)
        ensures
            match r {
                Some(p) => self@.contains_key(project_id@) && *p == self@[project_id@],
                None => !self@.contains_key(project_id@),
            },
    {
        self.policies.get(project_id)
    }

    /// Replaces the project's policy as a whole.
    pub fn set_policy(&mut self, project_id: &str, policy: NebulaPolicy)
        ensures
            final(self)@ == old(self)@.insert(project_id@, policy),
    {
        self.policies.insert(project_id.to_string(), policy);
    }

    /// Decides whether `agent_role` may perform `action` on `resource` in the
    /// project: role rules first, then default rules, and a denial otherwise.
    pub fn evaluate_permission(&self, project_id: &str, agent_role: &str, action: &str, resource: &str) -> (r: PolicyDecision)
        ensures
            (r.allowed, r.reason@) == decision(self@, project_id@, agent_role@, action@, resource@),
    {
        let policy = match self.policies.get(project_id) {
            Some(p) => p,
            None => {
                return PolicyDecision { allowed: false, reason: "No policy found for project".to_string() };
            },
        };
        let tools = &policy.tool_permissions;
        if role_grants_exec(&tools.role_permissions, agent_role, action, resource) {
            let mut reason = "Allowed by role permission for ".to_string();
            reason.append(agent_role);
            return PolicyDecision { allowed: true, reason };
        }
        if any_rule_grants(&tools.default_permissions, action, resource) {
            return PolicyDecision { allowed: true, reason: "Allowed by default permission".to_string() };
        }
        let mut reason = "No matching permission for agent=".to_string();
        reason.append(agent_role);
        reason.append(", action=");
        reason.append(action);
        reason.append(", resource=");
        reason.append(resource);
        PolicyDecision { allowed: false, reason }
    }
}

/// Fail-closed evaluation: where no policy exists for the project, or where no
/// rule of the policy (of any role, or among the defaults) grants the action on
/// the resource, the request is denied, and the denial carries a reason.
pub proof fn lemma_fail_closed(
    policies: Map<Seq<char>, NebulaPolicy>,
    project_id: Seq<char>,
    agent_role: Seq<char>,
    action: Seq<char>,
    resource: Seq<char>,
)
    requires
        !policies.contains_key(project_id) || ({
            let tools = policies[project_id].tool_permissions;
            &&& forall|i: int|
                0 <= i < tools.role_permissions@.len() ==> !any_rule_matches(
                    (#[trigger] tools.role_permissions@[i]).permissions@,
                    action,
                    resource,
                )
            &&& !any_rule_matches(tools.default_permissions@, action, resource)
        }),
    ensures
        !decision(policies, project_id, agent_role, action, resource).0,
        decision(policies, project_id, agent_role, action, resource).1.len() > 0,
{
    reveal_strlit("No policy found for project");
    reveal_strlit("No matching permission for agent=");
}

/// Role rules that do not cover a request fall through to the defaults: where
/// the role's rules grant nothing and a default rule grants the action on the
/// resource, the request is allowed, and the reason names the default match.
pub proof fn lemma_role_falls_through_to_defaults(
    policies: Map<Seq<char>, NebulaPolicy>,
    project_id: Seq<char>,
    agent_role: Seq<char>,
    action: Seq<char>,
    resource: Seq<char>,
)
    requires
        policies.contains_key(project_id),
        !role_grants(policies[project_id].tool_permissions.role_permissions@, agent_role, action, resource),
        any_rule_matches(policies[project_id].tool_permissions.default_permissions@, action, resource),
    ensures
        decision(policies, project_id, agent_role, action, resource) == (true, "Allowed by default permission"@),
{
}

/// Evaluation is deterministic: two decisions on the same request against the
/// same policies have the same allowed flag and the same reason.
pub proof fn lemma_decision_deterministic(
    policies: Map<Seq<char>, NebulaPolicy>,
    project_id: Seq<char>,
    agent_role: Seq<char>,
    action: Seq<char>,
    resource: Seq<char>,
    first: PolicyDecision,
    second: PolicyDecision,
)
    requires
        (first.allowed, first.reason@) == decision(policies, project_id, agent_role, action, resource),
        (second.allowed, second.reason@) == decision(policies, project_id, agent_role, action, resource),
    ensures
        first.allowed == second.allowed,
        first.reason@ == second.reason@,
{
}

} // verus!
