use amai_continuity::audit::StartupRuntimeStateAudit;
use amai_continuity::human::{render_chat_start_restore_human, render_startup_runtime_state_human};
use amai_continuity::json::{get, Json};
use amai_continuity::runtime_state::{
    build_startup_runtime_state_artifact, build_startup_runtime_state_cli_json,
    compact_startup_runtime_startup_action_bundle, compact_startup_runtime_startup_next_action,
    compact_startup_runtime_state_lineage, compact_startup_state_cli_startup_next_action,
    startup_runtime_state_audit_json,
};

static NULL: Json = Json::Null;

fn from_value(v: &serde_json::Value) -> Json {
    match v {
        serde_json::Value::Null => Json::Null,
        serde_json::Value::Bool(b) => Json::Bool(*b),
        serde_json::Value::Number(n) => Json::Number(n.as_i64().expect("integer") as i128),
        serde_json::Value::String(s) => Json::Str(s.clone()),
        serde_json::Value::Array(items) => Json::Array(items.iter().map(from_value).collect()),
        serde_json::Value::Object(m) => {
            Json::Object(m.iter().map(|(k, v)| (k.clone(), from_value(v))).collect())
        }
    }
}

fn parse(text: &str) -> Json {
    from_value(&serde_json::from_str(text).expect("json text"))
}

fn ix<'a>(j: &'a Json, key: &str) -> &'a Json {
    get(j, key).unwrap_or(&NULL)
}

/// The value with the entries of every object in key order.
fn norm(j: &Json) -> Json {
    match j {
        Json::Object(es) => {
            let mut v: Vec<(String, Json)> = es.iter().map(|(k, x)| (k.clone(), norm(x))).collect();
            v.sort_by(|a, b| a.0.cmp(&b.0));
            Json::Object(v)
        }
        Json::Array(items) => Json::Array(items.iter().map(norm).collect()),
        Json::Null => Json::Null,
        Json::Bool(b) => Json::Bool(*b),
        Json::Number(n) => Json::Number(*n),
        Json::Str(t) => Json::Str(t.clone()),
    }
}

fn same(actual: &Json, expected: &str) {
    assert_eq!(norm(actual), norm(&parse(expected)));
}

fn s(t: &str) -> Json {
    Json::Str(t.to_string())
}

fn keys(j: &Json) -> Vec<String> {
    match j {
        Json::Object(es) => {
            let mut ks: Vec<String> = es.iter().map(|(k, _)| k.clone()).collect();
            ks.sort();
            ks
        }
        _ => Vec::new(),
    }
}

/// A host rule that keeps only the command id of a control surface.
fn host_rule(surface: &Json) -> Json {
    parse(&format!(
        r#"{{"command_id": {}}}"#,
        match ix(surface, "command_id") {
            Json::Str(t) => format!("\"{t}\""),
            _ => "null".to_string(),
        }
    ))
}

fn no_host(_surface: &Json) -> Json {
    panic!("the host rule is consulted only for a control surface")
}

#[test]
fn action_bundle_keeps_versions_missing_inputs_host_control_and_normalized_flow() {
    let bundle = parse(
        r#"{
            "bundle_version": "v2",
            "ready_for_automation": false,
            "other": 1,
            "missing_inputs": ["repo_root"],
            "host_current_thread_control": {"command_id": "amai.rotate", "extra": true},
            "operator_flow": {
                "primary_command": "  'amai'   continuity   startup ",
                "rotate_helper_command": "''",
                "wait_summary": "wait",
                "unknown": "x"
            }
        }"#,
    );
    let compact = compact_startup_runtime_startup_action_bundle(&bundle, &host_rule);
    assert_eq!(
        keys(&compact),
        vec![
            "bundle_version",
            "host_current_thread_control",
            "missing_inputs",
            "operator_flow",
            "ready_for_automation"
        ]
    );
    assert_eq!(ix(&compact, "missing_inputs"), &Json::Array(vec![s("repo_root")]));
    same(ix(&compact, "host_current_thread_control"), r#"{"command_id": "amai.rotate"}"#);
    let flow = ix(&compact, "operator_flow");
    assert_eq!(ix(flow, "primary_command"), &s("amai continuity startup"));
    assert_eq!(ix(flow, "rotate_helper_command"), &Json::Null);
    assert_eq!(ix(flow, "wait_summary"), &s("wait"));
    assert_eq!(ix(flow, "unknown"), &Json::Null);
}

#[test]
fn action_bundle_drops_empty_parts_and_is_null_for_non_objects() {
    let bundle = parse(
        r#"{"missing_inputs": [], "operator_flow": {"primary_command": "   "}, "host_current_thread_control": "no"}"#,
    );
    let compact = compact_startup_runtime_startup_action_bundle(&bundle, &no_host);
    assert_eq!(compact, parse("{}"));
    assert_eq!(compact_startup_runtime_startup_action_bundle(&s("x"), &no_host), Json::Null);
}

#[test]
fn next_action_compactions_keep_their_fields_and_the_bundle() {
    let action = parse(
        r#"{
            "action_version": "startup-next-action-v1",
            "action_kind": "rotate_chat_for_client_budget",
            "blocking": true,
            "headline": "Rotate",
            "next_step": "Open a fresh chat",
            "client_budget_status_label": "сожми текущий чат сейчас",
            "noise": 3,
            "action_bundle": {"bundle_version": "v1"}
        }"#,
    );
    let runtime = compact_startup_runtime_startup_next_action(&action, &no_host);
    assert_eq!(
        keys(&runtime),
        vec![
            "action_bundle",
            "action_kind",
            "action_version",
            "blocking",
            "client_budget_status_label",
            "headline",
            "next_step"
        ]
    );
    assert_eq!(ix(ix(&runtime, "action_bundle"), "bundle_version"), &s("v1"));
    let cli = compact_startup_state_cli_startup_next_action(&action, &no_host);
    assert_eq!(
        keys(&cli),
        vec!["action_bundle", "action_kind", "blocking", "client_budget_status_label"]
    );
    let without_bundle = compact_startup_state_cli_startup_next_action(
        &parse(r#"{"action_kind": "continue_active_workline"}"#),
        &no_host,
    );
    assert_eq!(without_bundle, parse(r#"{"action_kind": "continue_active_workline"}"#));
}

#[test]
fn state_lineage_counts_nodes_edges_and_supporting_events() {
    let lineage = parse(
        r#"{
            "authoritative_event_id": "event-1",
            "lineage_model_version": "v3",
            "ignored": "x",
            "nodes": [
                {"authoritative": false, "headline": "Not this"},
                {"authoritative": true, "headline": "   "},
                {"authoritative": true, "headline": "  The line  "},
                {"authoritative": true, "headline": "Later"}
            ],
            "edges": [{}, {}],
            "supporting_event_ids": []
        }"#,
    );
    let compact = compact_startup_runtime_state_lineage(&lineage);
    assert_eq!(
        keys(&compact),
        vec![
            "authoritative_event_id",
            "authoritative_headline",
            "edges_total",
            "lineage_model_version",
            "nodes_total"
        ]
    );
    assert_eq!(ix(&compact, "authoritative_headline"), &s("The line"));
    assert_eq!(ix(&compact, "nodes_total"), &Json::Number(4));
    assert_eq!(ix(&compact, "edges_total"), &Json::Number(2));
    assert_eq!(compact_startup_runtime_state_lineage(&Json::Null), Json::Null);
    assert_eq!(compact_startup_runtime_state_lineage(&parse(r#"{"nodes": []}"#)), parse("{}"));
}

fn contract() -> Json {
    parse(
        r#"{
            "startup_execution_gate_enforcement": {
                "blocking_true_requires_must_follow": true,
                "must_follow_true_blocks_unrelated_work": true,
                "no_silent_drop_must_be_true": true
            },
            "resume_enforcement": {
                "required_action_kind_when_resume_required": "resume_required_return_task",
                "no_silent_drop": true
            }
        }"#,
    )
}

fn startup_payload() -> Json {
    parse(
        r#"{
            "chat_start_restore": {
                "headline": "Current active line",
                "next_step": "Ship it.",
                "restore_confidence": "high",
                "prompt_text": "CHAT_START_RESTORE\nCurrent active line",
                "startup_next_action": {"action_kind": "continue_active_workline", "blocking": false},
                "execctl_active_lease": {"lease_owner_state": "same_session_owner", "headline": "Lease line", "noise": 1}
            },
            "working_state_restore": {
                "client_budget_guard": {
                    "status_label": "сожми текущий чат",
                    "reply_execution_gate": {
                        "action_kind": "rotate_chat_for_client_budget",
                        "blocking": false,
                        "blocking_reply_contract": {"response_kind": "rotate_chat_only"}
                    }
                },
                "state_lineage": {"authoritative_event_id": "event-9", "nodes": [{"authoritative": true, "headline": "Line"}]}
            }
        }"#,
    )
}

fn startup_summary(_payload: &Json) -> Json {
    parse(
        r#"{
            "execctl_resume_state": "clear",
            "execctl_resume_contract_summary": "clear(0)",
            "startup_next_action": {"action_kind": "continue_active_workline", "blocking": false, "noise": true},
            "required_return_task": null,
            "execctl_resume_obligation": {"resume_state": null, "no_silent_drop": true, "extra": 1},
            "execctl_active_lease": {},
            "thread_count": 0,
            "included_reasons_summary": null,
            "excluded_reasons_summary": "kept"
        }"#,
    )
}

#[test]
fn runtime_artifact_records_the_compacted_summary_and_the_gate_verdict() {
    let payload = startup_payload();
    let artifact = build_startup_runtime_state_artifact(
        "/tmp/amai-art",
        &payload,
        42,
        &contract(),
        "abc123",
        &startup_summary,
        &no_host,
    );
    assert_eq!(ix(&artifact, "artifact_version"), &s("workspace-startup-runtime-state-v4"));
    assert_eq!(ix(&artifact, "repo_root"), &s("/tmp/amai-art"));
    assert_eq!(ix(&artifact, "generated_at_epoch_ms"), &Json::Number(42));
    assert_eq!(ix(&artifact, "source_tool"), &s("amai_continuity_startup"));
    assert_eq!(ix(&artifact, "startup_contract_sha256"), &s("abc123"));
    let summary = ix(&artifact, "continuity_startup_summary");
    assert_eq!(ix(summary, "thread_count"), &Json::Null);
    assert!(!keys(summary).contains(&"thread_count".to_string()));
    assert!(!keys(summary).contains(&"included_reasons_summary".to_string()));
    assert_eq!(ix(summary, "excluded_reasons_summary"), &s("kept"));
    same(ix(summary, "startup_next_action"), r#"{"action_kind": "continue_active_workline", "blocking": false}"#);
    same(ix(summary, "execctl_active_lease"), r#"{"lease_owner_state": "same_session_owner", "headline": "Lease line"}"#);
    same(ix(summary, "execctl_resume_obligation"), r#"{"no_silent_drop": true}"#);
    same(ix(summary, "required_return_task"), "{}");
    assert_eq!(ix(ix(summary, "startup_execution_gate"), "gate_version"), &s("startup-execution-gate-v1"));
    assert_eq!(ix(&artifact, "execctl_resume_state"), &s("clear"));
    assert_eq!(ix(&artifact, "execctl_resume_contract_summary"), &s("clear(0)"));
    assert_eq!(ix(&artifact, "gate_semantics_consistent"), &Json::Bool(true));
    assert_eq!(ix(ix(&artifact, "client_budget_guard"), "status_label"), &s("сожми текущий чат"));
    assert_eq!(
        ix(ix(&artifact, "reply_execution_gate"), "action_kind"),
        &s("rotate_chat_for_client_budget")
    );
    same(ix(&artifact, "blocking_reply_contract"), r#"{"response_kind": "rotate_chat_only"}"#);
    same(ix(&artifact, "chat_start_restore"), r#"{"headline": "Current active line", "next_step": "Ship it.", "restore_confidence": "high", "prompt_text": "CHAT_START_RESTORE\nCurrent active line"}"#);
    same(ix(&artifact, "working_state_restore_lineage"), r#"{"authoritative_event_id": "event-9", "nodes_total": 1, "authoritative_headline": "Line"}"#);
}

fn audit() -> StartupRuntimeStateAudit {
    StartupRuntimeStateAudit {
        status: "ok".to_string(),
        output_path: "/tmp/state.json".to_string(),
        artifact_exists: true,
        startup_contract_sha_matches_current_contract: Some(true),
        source_summary_field_matches: Some(true),
        prompt_text_present: Some(true),
        startup_next_action_present: Some(true),
        startup_execution_gate_present: Some(true),
        required_return_task_field_present: Some(false),
        execctl_active_lease_field_present: None,
        project_task_tree_field_present: Some(true),
        project_task_tree_summary_field_present: Some(true),
        project_task_ledger_field_present: Some(true),
        project_task_ledger_summary_field_present: Some(true),
        resume_state: Some("clear".to_string()),
        action_kind: Some("continue_active_workline".to_string()),
        lease_owner_state: None,
        must_follow_startup_next_action: Some(false),
        unrelated_work_allowed: Some(true),
        must_read_prompt_text_before_reply: Some(true),
        required_action_kind_when_resume_required: Some("resume_required_return_task".to_string()),
        no_silent_drop: Some(true),
        artifact_gate_semantics_consistent_present: Some(true),
        artifact_gate_semantics_consistent_matches_recomputed: Some(true),
        gate_semantics_consistent: Some(true),
    }
}

#[test]
fn audit_json_shows_findings_and_the_compact_artifact() {
    let missing = startup_runtime_state_audit_json(&audit(), None, &no_host);
    assert_eq!(ix(&missing, "status"), &s("ok"));
    assert_eq!(ix(&missing, "execctl_active_lease_field_present"), &Json::Null);
    assert_eq!(ix(&missing, "lease_owner_state"), &Json::Null);
    assert_eq!(ix(&missing, "client_budget_guard"), &Json::Null);
    assert_eq!(keys(&missing).len(), 34);

    let artifact = parse(
        r#"{
            "client_budget_guard": {"status_label": "x", "noise": 1},
            "continuity_startup_summary": {
                "startup_next_action": {"action_kind": "continue_active_workline", "headline": "h"},
                "project_task_tree": {"open_tasks_count": 1}
            }
        }"#,
    );
    let shown = startup_runtime_state_audit_json(&audit(), Some(&artifact), &no_host);
    same(ix(&shown, "client_budget_guard"), r#"{"status_label": "x"}"#);
    same(ix(&shown, "reply_execution_gate"), "{}");
    same(ix(&shown, "startup_next_action"), r#"{"action_kind": "continue_active_workline"}"#);
    same(ix(&shown, "project_task_tree"), r#"{"open_tasks_count": 1}"#);
    assert_eq!(ix(&shown, "project_task_ledger"), &Json::Null);

    let cli = build_startup_runtime_state_cli_json(&audit(), Some(&artifact), &no_host);
    assert_eq!(ix(&cli, "startup_runtime_state"), &shown);
    same(ix(&cli, "startup_runtime_state_audit"), r#"{"status": "ok", "action_kind": "continue_active_workline", "lease_owner_state": null, "gate_semantics_consistent": true}"#);
}

#[test]
fn runtime_state_human_view_lists_every_finding() {
    let text = render_startup_runtime_state_human("/repo", &audit());
    let lines: Vec<&str> = text.lines().collect();
    assert_eq!(lines.len(), 27);
    assert_eq!(lines[0], "Amai continuity startup runtime state");
    assert_eq!(lines[1], "Workspace repo root: /repo");
    assert_eq!(lines[2], "Artifact path: /tmp/state.json");
    assert_eq!(lines[4], "Artifact present: true");
    assert_eq!(lines[10], "required_return_task field present: false");
    assert_eq!(lines[11], "execctl_active_lease field present: false");
    assert_eq!(lines[18], "lease_owner_state: n/a");
    assert_eq!(lines[26], "gate_semantics_consistent: true");
}

#[test]
fn chat_start_human_view_shows_the_pack_and_indents_the_prompt() {
    let value = parse(
        r#"{"chat_start_restore": {
            "headline": "  Line ",
            "materialized_summary": "done",
            "open_questions_summary": "   ",
            "thread_count": 7,
            "prompt_text": "CHAT_START_RESTORE\nЛиния: Line\n"
        }}"#,
    );
    assert_eq!(
        render_chat_start_restore_human(&value),
        "Chat-start restore pack:\n- Этот блок уже нужно считать восстановленным рабочим контекстом для первого содержательного ответа.\n- Продолжаем с линии: Line\n- Обязательный следующий шаг: ещё нет данных\n- Что уже materialized: done\n- Thread count в temporal index: 7\n- Prompt-text restore уже готов для первого содержательного ответа:\n  CHAT_START_RESTORE\n  Линия: Line"
    );
    let bare = render_chat_start_restore_human(&Json::Null);
    assert!(bare.ends_with("- Thread count в temporal index: n/a"));
}

fn project() -> amai_continuity::chat_start::ProjectRecord {
    amai_continuity::chat_start::ProjectRecord {
        code: "art".to_string(),
        display_name: "Art's".to_string(),
        repo_root: "/home/art/My Art".to_string(),
    }
}

fn namespace() -> amai_continuity::chat_start::NamespaceRecord {
    amai_continuity::chat_start::NamespaceRecord {
        code: "continuity".to_string(),
        display_name: "Continuity".to_string(),
    }
}

#[test]
fn startup_overview_names_the_source_and_the_current_line() {
    let continuity = parse(
        r#"{
            "continuity_source_mode": "continuity_namespace_fallback_import",
            "continuity_source_namespace_code": "legacy",
            "imported_at_epoch_ms": 1700000000123,
            "documents_imported": 4,
            "session_memory_files": 0,
            "bootstrap_summary": {"bootstrap_file": " /tmp/boot.md "}
        }"#,
    );
    let handoff = parse(r#"{"headline": " Line ", "next_step": "Ближайший обязательный следующий шаг: Step"}"#);
    let text = amai_continuity::human::render_startup_overview(&project(), &namespace(), &continuity, &handoff);
    assert_eq!(
        text,
        "Amai continuity startup\n\nПроект: Art's (art)\nКорень проекта: /home/art/My Art\nNamespace continuity: continuity\nContinuity source: fallback import из namespace legacy\nПоследний импорт continuity: epoch 1700000000\nИмпортировано документов: 4\nContinuity snapshot: /tmp/boot.md\nRendered transcripts: n/a\n\nТекущая активная линия:\n- Line\n- Ближайший обязательный следующий шаг: Step"
    );
    let bare = amai_continuity::human::render_startup_overview(&project(), &namespace(), &Json::Null, &Json::Null);
    assert!(bare.contains("Continuity source: ещё нет данных"));
    assert!(bare.contains("Дополнительные bridge-notes: ещё нет данных"));
    assert!(bare.contains("- Ближайший обязательный следующий шаг: ещё нет данных"));
}

#[test]
fn startup_usage_quotes_the_import_command() {
    let continuity = parse(
        r#"{
            "bootstrap_summary": {"bootstrap_file": "/tmp/boot file.md", "details": {"thread_count": 3}},
            "active_workline_summary": {"active_workline_file": " /tmp/active.md "}
        }"#,
    );
    let text = amai_continuity::human::render_startup_usage(&project(), &namespace(), &continuity);
    let lines: Vec<&str> = text.lines().collect();
    assert_eq!(lines[1], "- Thread count: 3");
    assert_eq!(lines[2], "- Последний rendered transcript: ещё нет данных");
    assert_eq!(
        lines[5],
        "- Для project-scoped retrieval: ./scripts/amai_exec.sh context pack --project art --namespace continuity --query 'ваш вопрос'"
    );
    assert_eq!(
        lines[6],
        "- Для обновления continuity после новых изменений: ./scripts/amai_exec.sh continuity import --project art --display-name 'Art\\'s' --repo-root '/home/art/My Art' --namespace continuity --bootstrap-file '/tmp/boot file.md' --active-workline-file /tmp/active.md"
    );
    let fallback = amai_continuity::human::render_startup_usage(&project(), &namespace(), &parse("{}"));
    assert!(fallback.ends_with("текущий startup уже восстановлен из runtime fallback."));
}

fn summary_of_startup(payload: &Json) -> Json {
    amai_continuity::json::clone_json(ix(payload, "continuity_startup"))
}

fn artifact_of(text: &str) -> Json {
    build_startup_runtime_state_artifact(
        "/tmp/amai-art",
        &parse(text),
        42,
        &contract(),
        "abc123",
        &summary_of_startup,
        &no_host,
    )
}

#[test]
fn startup_runtime_state_artifact_normalizes_blank_chat_start_restore_projection() {
    let artifact = artifact_of(r##"{
            "continuity_startup": {
                "project": {
                    "code": "art",
                    "display_name": "Art",
                    "repo_root": "/tmp/amai-art"
                },
                "namespace": {
                    "code": "continuity",
                    "display_name": "Continuity"
                },
                "headline": "Current active line",
                "next_step": "Continue foundation work.",
                "restore_confidence": "high",
                "prompt_text_present": true,
                "execctl_resume_state": "clear",
                "execctl_resume_contract_summary": "clear(0)",
                "execctl_resume_obligation": {
                    "resume_state": "clear",
                    "required_task_set_count": 0,
                    "required_task_set": [],
                    "required_task_set_summary": null
                },
                "startup_execution_gate": {
                    "action_kind": "continue_active_workline",
                    "blocking": false,
                    "must_follow_startup_next_action": true,
                    "unrelated_work_allowed": false,
                    "must_read_prompt_text_before_reply": true,
                    "required_action_kind_when_resume_required": "resume_required_return_task",
                    "no_silent_drop": true,
                    "required_return_task_present": false,
                    "required_task_set_count": 0,
                    "required_task_set_present": false,
                    "must_preserve_required_task_set": false
                },
                "startup_next_action": {
                    "action_kind": "continue_active_workline",
                    "blocking": false,
                    "headline": "Current active line",
                    "next_step": "Continue foundation work."
                },
                "execctl_active_lease": {
                    "lease_owner_state": "same_session_owner",
                    "headline": "Current active line"
                },
                "required_return_task": null,
                "required_task_set": [],
                "required_task_set_summary": null,
                "project_task_tree": {
                    "open_tasks_count": 1
                },
                "project_task_tree_summary": "active: Current active line",
                "project_task_ledger": {
                    "open_tasks_count": 1
                },
                "project_task_ledger_summary": "active: Current active line"
            },
            "chat_start_restore": {
                "headline": "   ",
                "next_step": "",
                "restore_confidence": "high",
                "prompt_text": "CHAT_START_RESTORE\nCurrent active line"
            },
            "working_state_restore": {
                "state_lineage": {
                    "authoritative_event_id": "evt_123",
                    "session_id": "sess_123"
                }
            }
        }"##);
    assert!(matches!(ix(ix(&artifact, "chat_start_restore"), "headline"), Json::Null));
    assert!(matches!(ix(ix(&artifact, "chat_start_restore"), "next_step"), Json::Null));
    assert_eq!(ix(ix(&artifact, "chat_start_restore"), "restore_confidence"), &s("high"));
}

#[test]
fn startup_runtime_state_artifact_preserves_missing_gate_resume_state_as_null() {
    let artifact = artifact_of(r##"{
            "continuity_startup": {
                "project": {
                    "code": "art",
                    "display_name": "Art",
                    "repo_root": "/tmp/amai-art"
                },
                "namespace": {
                    "code": "continuity",
                    "display_name": "Continuity"
                },
                "headline": "Current active line",
                "next_step": "Continue foundation work.",
                "restore_confidence": "high",
                "prompt_text_present": true,
                "execctl_resume_state": null,
                "execctl_resume_contract_summary": null,
                "execctl_resume_obligation": {
                    "resume_state": null,
                    "required_task_set_count": null,
                    "required_task_set": null,
                    "required_task_set_summary": null
                },
                "startup_execution_gate": {
                    "action_kind": "continue_active_workline",
                    "blocking": false,
                    "must_follow_startup_next_action": false,
                    "unrelated_work_allowed": true,
                    "must_read_prompt_text_before_reply": true,
                    "required_action_kind_when_resume_required": "resume_required_return_task",
                    "no_silent_drop": true,
                    "required_return_task_present": false,
                    "required_task_set_count": null,
                    "required_task_set_present": null,
                    "must_preserve_required_task_set": null
                },
                "startup_next_action": {
                    "action_kind": "continue_active_workline",
                    "blocking": false,
                    "headline": "Current active line",
                    "next_step": "Continue foundation work."
                },
                "execctl_active_lease": {
                    "lease_owner_state": "same_session_owner",
                    "headline": "Current active line"
                },
                "required_return_task": {
                    "headline": "   ",
                    "next_step": ""
                },
                "required_task_set": null,
                "required_task_set_summary": null,
                "project_task_tree": {
                    "open_tasks_count": 1
                },
                "project_task_tree_summary": "active: Current active line",
                "project_task_ledger": {
                    "open_tasks_count": 1
                },
                "project_task_ledger_summary": "active: Current active line"
            },
            "chat_start_restore": {
                "headline": "Current active line",
                "next_step": "Continue foundation work.",
                "restore_confidence": "high",
                "prompt_text": "CHAT_START_RESTORE\nCurrent active line",
                "execctl_resume_state": "   ",
                "required_return_task": {
                    "headline": "   ",
                    "next_step": ""
                },
                "startup_next_action": {
                    "action_kind": "continue_active_workline",
                    "blocking": false,
                    "headline": "Current active line",
                    "next_step": "Continue foundation work."
                },
                "required_task_set": null
            },
            "working_state_restore": {
                "state_lineage": {
                    "authoritative_event_id": "evt_123",
                    "session_id": "sess_123"
                }
            }
        }"##);
    let gate = ix(&artifact, "startup_execution_gate");
    assert!(matches!(ix(gate, "resume_state"), Json::Null));
    assert!(matches!(ix(gate, "required_return_task_headline"), Json::Null));
    assert!(matches!(ix(gate, "required_return_task_next_step"), Json::Null));
}

#[test]
fn startup_runtime_state_artifact_preserves_missing_startup_action_as_null_gate_fields() {
    let artifact = artifact_of(r##"{
            "continuity_startup": {
                "project": {
                    "code": "art",
                    "display_name": "Art",
                    "repo_root": "/tmp/amai-art"
                },
                "namespace": {
                    "code": "continuity",
                    "display_name": "Continuity"
                },
                "headline": "Current active line",
                "next_step": "Continue foundation work.",
                "restore_confidence": "high",
                "prompt_text_present": true,
                "execctl_resume_state": null,
                "execctl_resume_contract_summary": null,
                "execctl_resume_obligation": {
                    "resume_state": null,
                    "required_task_set_count": null,
                    "required_task_set": null,
                    "required_task_set_summary": null
                },
                "startup_execution_gate": {
                    "action_kind": null,
                    "blocking": null,
                    "must_follow_startup_next_action": null,
                    "unrelated_work_allowed": null,
                    "must_read_prompt_text_before_reply": true,
                    "required_action_kind_when_resume_required": "resume_required_return_task",
                    "no_silent_drop": true,
                    "required_return_task_present": false,
                    "required_task_set_count": null,
                    "required_task_set_present": null,
                    "must_preserve_required_task_set": null
                },
                "startup_next_action": null,
                "execctl_active_lease": {
                    "lease_owner_state": "same_session_owner",
                    "headline": "Current active line"
                },
                "required_return_task": null,
                "required_task_set": null,
                "required_task_set_summary": null,
                "project_task_tree": {
                    "open_tasks_count": 1
                },
                "project_task_tree_summary": "active: Current active line",
                "project_task_ledger": {
                    "open_tasks_count": 1
                },
                "project_task_ledger_summary": "active: Current active line"
            },
            "chat_start_restore": {
                "headline": "Current active line",
                "next_step": "Continue foundation work.",
                "restore_confidence": "high",
                "prompt_text": "CHAT_START_RESTORE\nCurrent active line",
                "required_task_set": null
            },
            "working_state_restore": {
                "state_lineage": {
                    "authoritative_event_id": "evt_123",
                    "session_id": "sess_123"
                }
            }
        }"##);
    let gate = ix(&artifact, "startup_execution_gate");
    assert!(matches!(ix(gate, "action_kind"), Json::Null));
    assert!(matches!(ix(gate, "blocking"), Json::Null));
    assert!(matches!(ix(gate, "must_follow_startup_next_action"), Json::Null));
    assert!(matches!(ix(gate, "unrelated_work_allowed"), Json::Null));
}

/// A stand-in for the working state's runtime compaction of a host control surface:
/// it keeps the command and its availability and drops the prose and alternatives.
fn runtime_host_compaction(surface: &Json) -> Json {
    let mut b = amai_continuity::json::ObjectBuilder::new();
    for key in ["command_id", "availability_state"] {
        b.push(key, amai_continuity::json::clone_json(ix(surface, key)));
    }
    b.build()
}

#[test]
fn compact_startup_runtime_action_bundle_trims_exhausted_same_thread_surface() {
    let bundle = parse(
        r#"{
            "bundle_version": "rotate-chat-action-bundle-v1",
            "ready_for_automation": true,
            "preserves_return_obligation": true,
            "host_current_thread_control": {
                "available": false,
                "automation_ready": false,
                "button_label": "Open compact window",
                "command_id": "hotkey-window-open-current",
                "control_kind": "hotkey_window_open_current",
                "thread_id": "thread-current",
                "host_context_compaction_stage": "preserve",
                "feedback_pending": false,
                "measurement_pending": false,
                "retry_allowed": false,
                "retry_blocked_reason": "rotate fallback already primary",
                "effect_verdict": "full_scale_client_burn_worsened_rotate_fallback_recommended",
                "effect_summary": "Long prose that should not survive compact startup runtime output.",
                "selection_reason": "protect_recent_host_compaction_gain",
                "availability_state": "exhausted_after_verified_failure",
                "surface_exhausted_after_verified_failure": true,
                "alternate_controls": [
                    {"button_label": "Open thread overlay", "command_id": "thread-overlay-open-current", "control_kind": "thread_overlay_open_current"}
                ]
            },
            "operator_flow": {
                "primary_command_kind": "rotate_helper_command",
                "primary_command": "'amai' 'continuity' 'rotate-chat'",
                "rotate_helper_command": "'amai' 'continuity' 'rotate-chat'",
                "startup_command": "'amai' 'continuity' 'startup'"
            }
        }"#,
    );
    let compact = compact_startup_runtime_startup_action_bundle(&bundle, &runtime_host_compaction);
    let host = ix(&compact, "host_current_thread_control");
    assert_eq!(ix(host, "command_id"), &s("hotkey-window-open-current"));
    assert_eq!(ix(host, "availability_state"), &s("exhausted_after_verified_failure"));
    assert!(get(host, "effect_summary").is_none());
    assert!(get(host, "alternate_controls").is_none());
    assert_eq!(ix(ix(&compact, "operator_flow"), "rotate_helper_command"), &s("amai continuity rotate-chat"));
}
