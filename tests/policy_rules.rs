use nebula_governance::policy::{
    matches_scope, matches_tool, AgentPermission, AgentPolicy, DataClassificationPolicy, DeploymentPolicy,
    GatePolicy, NebulaPolicy, PolicyEngine, ProgressiveDeliveryPolicy, RepositoryPolicy, RolePermissions,
    RollbackPolicy, ToolPermission, ToolPermissionPolicy,
};

fn rule(tool: &str, scopes: &[&str]) -> ToolPermission {
    ToolPermission {
        tool_id: tool.to_string(),
        operations: vec![],
        resource_scope: scopes.iter().map(|s| s.to_string()).collect(),
    }
}

fn policy(defaults: Vec<ToolPermission>, roles: Vec<RolePermissions>) -> NebulaPolicy {
    let nobody = AgentPermission {
        allowed: false,
        allowed_agent_roles: vec![],
        require_approval: true,
        approvers: vec![],
    };
    NebulaPolicy {
        version: "1".to_string(),
        project_id: "p1".to_string(),
        name: "test".to_string(),
        description: String::new(),
        created_at: String::new(),
        updated_at: String::new(),
        agents: AgentPolicy { merge_to_main: nobody, deploy_permissions: vec![], max_concurrent_runs: 1 },
        repositories: RepositoryPolicy {
            default_access: "read".to_string(),
            write_scopes: vec![],
            auto_merge_branches: vec![],
            branch_pattern: "feature/*".to_string(),
        },
        deployment: DeploymentPolicy {
            environments: vec![],
            progressive_delivery: ProgressiveDeliveryPolicy {
                canary_steps: vec![serde_json::Number::from(10u64)],
                step_interval: 60,
                evaluation_metrics: vec![],
            },
            rollback: RollbackPolicy { auto_rollback: false, triggers: vec![], rollback_timeout: 300 },
        },
        gates: GatePolicy { merge_gates: vec![], deploy_gates: vec![] },
        data_classification: DataClassificationPolicy {
            default_classification: "internal".to_string(),
            provider_rules: vec![],
            redaction_patterns: vec![],
        },
        tool_permissions: ToolPermissionPolicy { default_permissions: defaults, role_permissions: roles },
    }
}

#[test]
fn no_policy_denies() {
    let engine = PolicyEngine::new();
    let d = engine.evaluate_permission("p1", "coder", "tool.read", "/any");
    assert!(!d.allowed);
    assert_eq!(d.reason, "No policy found for project");
}

#[test]
fn no_matching_rule_denies_with_details() {
    let mut engine = PolicyEngine::new();
    engine.set_policy("p1", policy(vec![rule("tool.read", &["docs/**"])], vec![]));
    let d = engine.evaluate_permission("p1", "coder", "tool.write", "src/main.rs");
    assert!(!d.allowed);
    assert_eq!(d.reason, "No matching permission for agent=coder, action=tool.write, resource=src/main.rs");
}

#[test]
fn role_rules_fall_through_to_defaults() {
    let mut engine = PolicyEngine::new();
    let roles = vec![RolePermissions { role: "tester".to_string(), permissions: vec![rule("code.comment", &["**"])] }];
    engine.set_policy("project", policy(vec![rule("tool.read", &["**"])], roles));
    let d = engine.evaluate_permission("project", "tester", "tool.read", "/any");
    assert!(d.allowed);
    assert_eq!(d.reason, "Allowed by default permission");
}

#[test]
fn role_rule_wins_over_default() {
    let mut engine = PolicyEngine::new();
    let roles = vec![RolePermissions { role: "tester".to_string(), permissions: vec![rule("tool.*", &["**"])] }];
    engine.set_policy("project", policy(vec![rule("tool.read", &["**"])], roles));
    let d = engine.evaluate_permission("project", "tester", "tool.read", "/any");
    assert!(d.allowed);
    assert_eq!(d.reason, "Allowed by role permission for tester");
}

#[test]
fn tool_wildcard_keeps_the_dot() {
    assert!(matches_tool("code.write", "code.*"));
    assert!(matches_tool("code.commit", "code.*"));
    assert!(!matches_tool("codegen.write", "code.*"));
    assert!(matches_tool("tool.read", "tool.read"));
    assert!(!matches_tool("tool.reader", "tool.read"));
}

#[test]
fn scope_wildcards_and_exact_scopes() {
    let scopes = vec!["repo/src/**".to_string()];
    assert!(matches_scope("repo/src/main", &scopes));
    assert!(matches_scope("repo/src/sub/file", &scopes));
    assert!(!matches_scope("repo/other/file", &scopes));
    assert!(matches_scope("anything/at/all", &["**".to_string()]));
    assert!(matches_scope("repo/src", &["repo/src".to_string()]));
    assert!(!matches_scope("repo/src/x", &["repo/src".to_string()]));
    assert!(!matches_scope("x", &[]));
}

#[test]
fn evaluation_is_repeatable() {
    let mut engine = PolicyEngine::new();
    engine.set_policy("p1", policy(vec![rule("tool.read", &["**"])], vec![]));
    let a = engine.evaluate_permission("p1", "coder", "tool.write", "x");
    let b = engine.evaluate_permission("p1", "coder", "tool.write", "x");
    assert_eq!((a.allowed, a.reason), (b.allowed, b.reason));
}

#[test]
fn set_policy_replaces_the_whole_policy() {
    let mut engine = PolicyEngine::new();
    assert!(engine.get_policy("p1").is_none());
    engine.set_policy("p1", policy(vec![rule("tool.read", &["**"])], vec![]));
    engine.set_policy("p1", policy(vec![], vec![]));
    assert_eq!(engine.get_policy("p1").unwrap().tool_permissions.default_permissions.len(), 0);
    assert!(!engine.evaluate_permission("p1", "coder", "tool.read", "x").allowed);
    assert!(engine.get_policy("p2").is_none());
}
