use amai_continuity::audit::audit_startup_runtime_state;
use amai_continuity::gate::{build_startup_execution_gate, evaluate_startup_execution_gate_consistency};
use amai_continuity::json::{get, Json, ObjectBuilder};

fn obj(entries: Vec<(&str, Json)>) -> Json {
    let mut b = ObjectBuilder::new();
    for (k, v) in entries {
        b.push(k, v);
    }
    b.build()
}

fn s(t: &str) -> Json {
    Json::Str(t.to_string())
}

fn b(v: bool) -> Json {
    Json::Bool(v)
}

static NULL: Json = Json::Null;

fn at<'a>(j: &'a Json, path: &[&str]) -> &'a Json {
    let mut cur = j;
    for key in path {
        match get(cur, key) {
            Some(next) => cur = next,
            None => return &NULL,
        }
    }
    cur
}

fn contract() -> Json {
    obj(vec![
        (
            "resume_enforcement",
            obj(vec![
                ("previous_session_owner_value", s("previous_session_owner")),
                ("must_resume_required_return_task_before_unrelated_work", b(true)),
                ("required_action_kind_when_resume_required", s("resume_required_return_task")),
                ("no_silent_drop", b(true)),
                ("previous_session_owner_must_follow_startup_next_action", b(true)),
            ]),
        ),
        (
            "startup_execution_gate_enforcement",
            obj(vec![
                ("blocking_true_requires_must_follow", b(true)),
                ("blocking_true_blocks_unrelated_work", b(true)),
                ("must_follow_true_blocks_unrelated_work", b(true)),
                ("must_read_prompt_text_true_requires_prompt_before_reply", b(true)),
                ("required_action_kind_resume_required_value", s("resume_required_return_task")),
                ("no_silent_drop_must_be_true", b(true)),
            ]),
        ),
    ])
}

fn chat_start_restore() -> Json {
    obj(vec![
        ("prompt_text", s("CHAT_START_RESTORE\nCurrent active line")),
        ("execctl_resume_state", s("pending_return_queue_present")),
        (
            "startup_next_action",
            obj(vec![
                ("action_kind", s("resume_required_return_task")),
                ("blocking", b(true)),
                ("headline", s("Pending line")),
            ]),
        ),
        (
            "required_return_task",
            obj(vec![("headline", s("Pending line")), ("next_step", s("Close same-meter live gap."))]),
        ),
        ("required_task_set", Json::Array(vec![])),
        (
            "execctl_active_lease",
            obj(vec![("lease_owner_state", s("previous_session_owner")), ("headline", s("Current active line"))]),
        ),
        ("project_task_tree", obj(vec![])),
        ("project_task_tree_summary", s("tree")),
        ("project_task_ledger", obj(vec![])),
        ("project_task_ledger_summary", s("ledger")),
    ])
}

#[test]
fn startup_execution_gate_follows_a_blocking_return_action() {
    let payload = obj(vec![("chat_start_restore", chat_start_restore())]);
    let gate = build_startup_execution_gate(&payload, &contract());
    assert_eq!(at(&gate, &["gate_version"]), &s("startup-execution-gate-v1"));
    assert_eq!(at(&gate, &["action_kind"]), &s("resume_required_return_task"));
    assert_eq!(at(&gate, &["blocking"]), &b(true));
    assert_eq!(at(&gate, &["required_task_set_count"]), &Json::Number(0));
    assert_eq!(at(&gate, &["resume_state"]), &s("pending_return_queue_present"));
    assert_eq!(at(&gate, &["required_return_task_present"]), &b(true));
    assert_eq!(at(&gate, &["required_return_task_headline"]), &s("Pending line"));
    assert_eq!(at(&gate, &["must_follow_startup_next_action"]), &b(true));
    assert_eq!(at(&gate, &["unrelated_work_allowed"]), &b(false));
    assert_eq!(at(&gate, &["must_read_prompt_text_before_reply"]), &b(true));
    assert_eq!(at(&gate, &["no_silent_drop"]), &b(true));
    let verdict = evaluate_startup_execution_gate_consistency(&chat_start_restore(), &gate, Some(true), &contract());
    assert_eq!(verdict, Some(true));
}

#[test]
fn startup_execution_gate_leaves_unknown_fields_null_for_an_empty_payload() {
    let gate = build_startup_execution_gate(&obj(vec![]), &obj(vec![]));
    assert_eq!(at(&gate, &["action_kind"]), &Json::Null);
    assert_eq!(at(&gate, &["blocking"]), &Json::Null);
    assert_eq!(at(&gate, &["resume_state"]), &Json::Null);
    assert_eq!(at(&gate, &["must_follow_startup_next_action"]), &Json::Null);
    assert_eq!(at(&gate, &["unrelated_work_allowed"]), &Json::Null);
    assert_eq!(at(&gate, &["required_action_kind_when_resume_required"]), &s("resume_required_return_task"));
    assert_eq!(at(&gate, &["no_silent_drop"]), &b(false));
    assert_eq!(at(&gate, &["lease_owner_state"]), &Json::Null);
}

#[test]
fn gate_consistency_detects_drift_and_missing_fields() {
    let payload = obj(vec![("chat_start_restore", chat_start_restore())]);
    let gate = build_startup_execution_gate(&payload, &contract());
    assert_eq!(
        evaluate_startup_execution_gate_consistency(&chat_start_restore(), &gate, Some(false), &contract()),
        Some(false)
    );
    let mut drifted = obj(vec![]);
    if let Json::Object(entries) = &gate {
        let mut b2 = ObjectBuilder::new();
        for (k, v) in entries {
            if k == "unrelated_work_allowed" {
                b2.push(k, b(true));
            } else {
                b2.push(k, amai_continuity::json::clone_json(v));
            }
        }
        drifted = b2.build();
    }
    assert_eq!(
        evaluate_startup_execution_gate_consistency(&chat_start_restore(), &drifted, Some(true), &contract()),
        Some(false)
    );
    assert_eq!(
        evaluate_startup_execution_gate_consistency(&obj(vec![]), &gate, Some(true), &contract()),
        None
    );
}

#[test]
fn audit_reports_a_missing_artifact_and_an_artifact_in_order() {
    let missing = audit_startup_runtime_state("/r/state.json", None, "abc", &contract());
    assert_eq!(missing.status, "not_materialized");
    assert!(!missing.artifact_exists);
    assert_eq!(missing.gate_semantics_consistent, None);

    let payload = obj(vec![("chat_start_restore", chat_start_restore())]);
    let gate = build_startup_execution_gate(&payload, &contract());
    let artifact = obj(vec![
        ("artifact_version", s("workspace-startup-runtime-state-v4")),
        ("source_tool", s("amai_continuity_startup")),
        ("startup_contract_sha256", s("abc")),
        ("source_summary_field", s("continuity_startup_summary")),
        ("chat_start_restore", chat_start_restore()),
        ("continuity_startup_summary", chat_start_restore()),
        ("startup_execution_gate", gate),
        ("gate_semantics_consistent", b(true)),
    ]);
    let audit = audit_startup_runtime_state("/r/state.json", Some(&artifact), "abc", &contract());
    assert_eq!(audit.status, "ok");
    assert_eq!(audit.output_path, "/r/state.json");
    assert_eq!(audit.gate_semantics_consistent, Some(true));
    assert_eq!(audit.artifact_gate_semantics_consistent_matches_recomputed, Some(true));
    assert_eq!(audit.action_kind.as_deref(), Some("resume_required_return_task"));
    assert_eq!(audit.lease_owner_state.as_deref(), Some("previous_session_owner"));

    let stale = audit_startup_runtime_state("/r/state.json", Some(&artifact), "other-sha", &contract());
    assert_eq!(stale.status, "startup_runtime_state_drift");
    assert_eq!(stale.startup_contract_sha_matches_current_contract, Some(false));
}

#[test]
fn startup_execution_gate_defaults_the_action_kind_of_a_named_next_action() {
    let payload = obj(vec![("chat_start_restore", obj(vec![("startup_next_action", obj(vec![]))]))]);
    let gate = build_startup_execution_gate(&payload, &obj(vec![]));
    assert_eq!(at(&gate, &["action_kind"]), &s("continue_active_workline"));
    assert_eq!(at(&gate, &["blocking"]), &b(false));
    assert_eq!(at(&gate, &["must_follow_startup_next_action"]), &b(false));
    assert_eq!(at(&gate, &["unrelated_work_allowed"]), &b(true));
}
