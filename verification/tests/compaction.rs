use amai_continuity::compaction::{
    compact_compact_chat_chat_start_restore, compact_compact_chat_host_current_thread_control,
    compact_continuity_startup_public_payload, compact_project_task_ledger_for_startup,
    compact_startup_runtime_client_budget_guard, compact_startup_runtime_reply_execution_gate,
    compact_workspace_restore_pack_for_startup, prune_startup_runtime_summary,
    MAX_COMPACT_CHAT_PENDING_RETURN_QUEUE_PREVIEW,
};
use amai_continuity::json::{get, Json, ObjectBuilder};

fn obj(entries: Vec<(&str, Json)>) -> Json {
    let mut b = ObjectBuilder::new();
    for (k, v) in entries {
        b.push(k, v);
    }
    b.build()
}

fn s(t: &str) -> Json {
    Json::Str(t.to_string())
}

fn n(v: i128) -> Json {
    Json::Number(v)
}

fn b(v: bool) -> Json {
    Json::Bool(v)
}

fn arr(items: Vec<Json>) -> Json {
    Json::Array(items)
}

static NULL: Json = Json::Null;

fn at<'a>(j: &'a Json, path: &[&str]) -> &'a Json {
    let mut cur = j;
    for key in path {
        match get(cur, key) {
            Some(next) => cur = next,
            None => return &NULL,
        }
    }
    cur
}

fn idx(j: &Json, i: usize) -> &Json {
    match j {
        Json::Array(items) => items.get(i).unwrap_or(&NULL),
        _ => &NULL,
    }
}

fn to_value(j: &Json) -> serde_json::Value {
    match j {
        Json::Null => serde_json::Value::Null,
        Json::Bool(v) => serde_json::Value::Bool(*v),
        Json::Number(v) => serde_json::Value::from(*v as i64),
        Json::Str(t) => serde_json::Value::String(t.clone()),
        Json::Array(items) => serde_json::Value::Array(items.iter().map(to_value).collect()),
        Json::Object(entries) => {
            let mut map = serde_json::Map::new();
            for (k, v) in entries {
                map.insert(k.clone(), to_value(v));
            }
            serde_json::Value::Object(map)
        }
    }
}

#[test]
fn compact_continuity_startup_public_payload_compacts_heavy_restore_surfaces() {
    let payload = obj(vec![
        (
            "continuity_startup",
            obj(vec![
                ("project", obj(vec![("code", s("amai"))])),
                ("namespace", obj(vec![("code", s("continuity"))])),
            ]),
        ),
        (
            "chat_start_restore",
            obj(vec![
                ("headline", s("Current line")),
                ("next_step", s("Keep lowering burn")),
                ("restore_confidence", s("high")),
                ("prompt_text", s("CHAT_START_RESTORE")),
                ("included_reasons_summary", s("exact_documents (1)")),
                ("excluded_reasons_summary", s("semantic_chunks")),
            ]),
        ),
        (
            "working_state_restore",
            obj(vec![
                ("project", obj(vec![("code", s("amai"))])),
                ("namespace", obj(vec![("code", s("continuity"))])),
                ("current_goal", s("Lower client burn")),
                ("next_step", s("Compact recurring startup payloads")),
                ("current_focus", s("Сейчас основной фокус: src/continuity.rs по запросу «continuity startup».")),
                ("restore_confidence", s("high")),
                ("source_summary", s("Источник истины: continuity_handoff (/tmp/live-handoff.md). Главный подтверждающий артефакт: src/continuity.rs.")),
                (
                    "state_lineage",
                    obj(vec![
                        ("authoritative_event_id", s("event-1")),
                        ("authoritative_event_kind", s("working_state_restore")),
                        ("nodes", arr(vec![obj(vec![("id", s("n1"))])])),
                        ("edges", arr(vec![obj(vec![("from", s("n1")), ("to", s("n2"))])])),
                    ]),
                ),
                (
                    "client_budget_guard",
                    obj(vec![
                        ("status_label", s("сожми текущий чат сейчас")),
                        ("client_budget_target_percent", n(90)),
                        (
                            "reply_execution_gate",
                            obj(vec![
                                ("gate_version", s("client-reply-budget-gate-v1")),
                                ("action_kind", s("rotate_chat_for_client_budget")),
                                ("blocking", b(false)),
                                ("must_rotate_before_reply", b(false)),
                                ("must_wait_for_budget_recovery_before_reply", b(false)),
                                ("reply_budget_mode", s("compact_high_signal")),
                                ("reply_prefix", s("5ч KPI: переплата 12.34%")),
                            ]),
                        ),
                    ]),
                ),
                (
                    "execctl_resume_contract",
                    obj(vec![
                        ("contract_version", s("execctl-resume-contract-v1")),
                        ("resume_state", s("return_required")),
                        ("no_silent_drop", b(true)),
                        ("pending_return_count", n(2)),
                        (
                            "required_return_task",
                            obj(vec![
                                ("headline", s("Pending task")),
                                ("next_step", s("Finish the compact startup path")),
                                ("resume_state", s("pending_return")),
                                ("task_id", s("task-1")),
                                ("task_role", s("pending_return")),
                                ("task_state", s("suspended")),
                            ]),
                        ),
                        (
                            "active_task",
                            obj(vec![
                                ("headline", s("Current line")),
                                ("next_step", s("Keep lowering burn")),
                                ("resume_state", s("active")),
                                ("task_id", s("task-0")),
                                ("task_role", s("active")),
                                ("task_state", s("active")),
                            ]),
                        ),
                    ]),
                ),
                (
                    "execctl_active_lease",
                    obj(vec![
                        ("lease_version", s("execctl-lease-v1")),
                        ("lease_owner_state", s("previous_session_owner")),
                        ("lease_state", s("active")),
                        ("headline", s("Current line")),
                        ("next_step", s("Keep lowering burn")),
                        ("storage_lane", s("ami.execctl_task_leases")),
                        ("owner_thread_id", s("thread-1")),
                    ]),
                ),
                (
                    "startup_next_action",
                    obj(vec![
                        ("action_version", s("startup-next-action-v1")),
                        ("action_kind", s("resume_required_return_task")),
                        ("blocking", b(true)),
                        ("reason", s("resume_required_return_task")),
                        ("resume_state", s("return_required")),
                        ("no_silent_drop", b(true)),
                        ("headline", s("Pending task")),
                        ("next_step", s("Finish the compact startup path")),
                    ]),
                ),
                (
                    "project_task_tree",
                    obj(vec![
                        ("open_tasks_count", n(2)),
                        ("pending_return_count", n(1)),
                        (
                            "nodes",
                            arr(vec![obj(vec![("task_id", s("task-0"))]), obj(vec![("task_id", s("task-1"))])]),
                        ),
                        (
                            "edges",
                            arr(vec![obj(vec![("from_task_id", s("root")), ("to_task_id", s("task-0"))])]),
                        ),
                    ]),
                ),
                (
                    "project_task_ledger",
                    obj(vec![
                        ("open_tasks_count", n(2)),
                        ("historical_handoffs_count", n(4)),
                        (
                            "entries",
                            arr(vec![
                                obj(vec![("task_role", s("active")), ("headline", s("Current line"))]),
                                obj(vec![("task_role", s("pending_return")), ("headline", s("Pending task"))]),
                            ]),
                        ),
                    ]),
                ),
                (
                    "pending_return_queue",
                    arr(vec![obj(vec![
                        ("headline", s("Pending task")),
                        ("next_step", s("Finish the compact startup path")),
                        ("resume_state", s("pending_return")),
                        ("queued_reason", s("interrupted_by_new_handoff")),
                        ("authoritative_event_id", s("event-1")),
                        ("authoritative_local_path", s("/tmp/handoff.md")),
                    ])]),
                ),
            ]),
        ),
        ("retrieval_science", obj(vec![("suite_key", s("continuity_startup"))])),
        ("degradation_policy", obj(vec![("status", s("ok"))])),
    ]);

    let compact = compact_continuity_startup_public_payload(&payload);
    let startup = at(&compact, &["continuity_startup"]);
    let chat_start_restore = at(&compact, &["chat_start_restore"]);
    let delivery_surface_restore = at(&compact, &["delivery_surface_restore"]);
    let restore = at(&compact, &["working_state_restore"]);
    let compact_len = serde_json::to_string(&to_value(&compact)).expect("compact").len();
    let raw_len = serde_json::to_string(&to_value(&payload)).expect("raw").len();

    assert_eq!(at(startup, &["summary_only"]), &b(true));
    assert_eq!(at(startup, &["project", "code"]), &s("amai"));
    assert_eq!(at(startup, &["canonical_eval", "verdict_counts", "recovered_useful"]), &Json::Null);
    assert_eq!(at(chat_start_restore, &["summary_only"]), &b(true));
    assert_eq!(at(chat_start_restore, &["prompt_text"]), &s("CHAT_START_RESTORE"));
    assert_eq!(delivery_surface_restore, chat_start_restore);
    assert_eq!(at(chat_start_restore, &["headline"]), &Json::Null);
    assert_eq!(at(chat_start_restore, &["included_reasons_summary"]), &Json::Null);
    assert_eq!(at(restore, &["summary_only"]), &b(true));
    assert_eq!(at(restore, &["agent_scope"]), &Json::Null);
    assert_eq!(at(restore, &["current_goal"]), &s("Lower client burn"));
    assert_eq!(at(restore, &["next_step"]), &s("Compact recurring startup payloads"));
    assert_eq!(
        at(restore, &["current_focus"]),
        &s("Сейчас основной фокус: src/continuity.rs по запросу «continuity startup».")
    );
    assert_eq!(at(restore, &["restore_confidence"]), &s("high"));
    assert_eq!(
        at(restore, &["source_summary"]),
        &s("Источник истины: continuity_handoff (/tmp/live-handoff.md). Главный подтверждающий артефакт: src/continuity.rs.")
    );
    assert_eq!(at(restore, &["project"]), &Json::Null);
    assert_eq!(at(restore, &["namespace"]), &Json::Null);
    assert_eq!(at(restore, &["state_lineage", "authoritative_event_id"]), &s("event-1"));
    assert_eq!(at(restore, &["client_budget_guard"]), &Json::Null);
    assert_eq!(at(restore, &["startup_next_action"]), &Json::Null);
    assert_eq!(at(restore, &["execctl_active_lease"]), &Json::Null);
    assert_eq!(at(restore, &["execctl_resume_contract"]), &Json::Null);
    assert_eq!(at(restore, &["project_task_tree"]), &Json::Null);
    assert_eq!(at(restore, &["project_task_ledger"]), &Json::Null);
    assert_eq!(at(restore, &["pending_return_queue"]), &Json::Null);
    assert_eq!(at(&compact, &["retrieval_science", "suite_key"]), &s("continuity_startup"));
    assert_eq!(at(&compact, &["degradation_policy"]), &Json::Null);
    assert!(compact_len < raw_len / 2);
}

fn multi_line_node() -> Json {
    obj(vec![
        ("headline", s("Current active line")),
        ("next_step", s("Finish the continuity rebase")),
        ("restore_confidence", s("high")),
        ("prompt_text", s("CHAT_START_RESTORE\nCurrent active line")),
        ("execctl_resume_state", s("pending_return_queue_present")),
        ("pending_return_summary", s("pending_return(2): Pending line; +1 more")),
        (
            "project_task_tree",
            obj(vec![
                ("open_tasks_count", n(3)),
                ("pending_return_count", n(2)),
                (
                    "nodes",
                    arr(vec![
                        obj(vec![("task_id", s("t0"))]),
                        obj(vec![("task_id", s("t1"))]),
                        obj(vec![("task_id", s("t2"))]),
                    ]),
                ),
                (
                    "edges",
                    arr(vec![
                        obj(vec![("from_task_id", s("root")), ("to_task_id", s("t0"))]),
                        obj(vec![("from_task_id", s("root")), ("to_task_id", s("t1"))]),
                    ]),
                ),
            ]),
        ),
        ("project_task_tree_summary", s("active: Current active line; pending_return(2): Pending line; +1 more")),
        (
            "project_task_ledger",
            obj(vec![
                ("open_tasks_count", n(3)),
                ("historical_handoffs_count", n(7)),
                (
                    "entries",
                    arr(vec![
                        obj(vec![("task_role", s("active"))]),
                        obj(vec![("task_role", s("pending_return"))]),
                        obj(vec![("task_role", s("pending_return"))]),
                        obj(vec![("task_role", s("historical_handoff"))]),
                    ]),
                ),
            ]),
        ),
        ("project_task_ledger_summary", s("active: Current active line; pending_return(2); historical_handoffs(1)")),
        ("required_task_set", arr(vec![s("Fix first card"), s("Verify second card")])),
        ("required_task_set_summary", s("2 задач(и): Fix first card")),
        (
            "pending_return_queue",
            arr(vec![
                obj(vec![("headline", s("Pending line")), ("next_step", s("Close same-meter live gap."))]),
                obj(vec![("headline", s("Older line")), ("next_step", s("Keep compact."))]),
            ]),
        ),
        (
            "startup_next_action",
            obj(vec![
                ("action_kind", s("resume_required_return_task")),
                ("headline", s("Pending line")),
                ("next_step", s("Close same-meter live gap.")),
            ]),
        ),
        (
            "required_return_task",
            obj(vec![("headline", s("Pending line")), ("next_step", s("Close same-meter live gap."))]),
        ),
    ])
}

#[test]
fn compact_compact_chat_chat_start_restore_keeps_multi_line_obligations() {
    let compact = compact_compact_chat_chat_start_restore(&multi_line_node());

    assert_eq!(at(&compact, &["execctl_resume_state"]), &s("pending_return_queue_present"));
    assert_eq!(at(&compact, &["pending_return_summary"]), &s("pending_return(2): Pending line; +1 more"));
    assert_eq!(at(&compact, &["project_task_tree", "summary_only"]), &b(true));
    assert_eq!(at(&compact, &["project_task_tree", "open_tasks_count"]), &n(3));
    assert_eq!(at(&compact, &["project_task_tree", "pending_return_count"]), &n(2));
    assert_eq!(at(&compact, &["project_task_tree", "nodes_total"]), &n(3));
    assert_eq!(at(&compact, &["project_task_ledger", "summary_only"]), &b(true));
    assert_eq!(at(&compact, &["project_task_ledger", "open_tasks_count"]), &n(3));
    assert_eq!(at(&compact, &["project_task_ledger", "pending_return_entries_count"]), &n(2));
    assert_eq!(idx(at(&compact, &["required_task_set"]), 0), &s("Fix first card"));
    assert_eq!(at(idx(at(&compact, &["pending_return_queue"]), 1), &["headline"]), &s("Older line"));
    assert_eq!(at(&compact, &["pending_return_queue_total"]), &n(2));
    assert_eq!(
        at(&compact, &["pending_return_queue_full_shape_preserved_in_working_state_restore"]),
        &b(true)
    );
    assert_eq!(at(&compact, &["startup_next_action"]), &Json::Null);
    assert_eq!(at(&compact, &["required_return_task"]), &Json::Null);
}

#[test]
fn compact_compact_chat_chat_start_restore_bounds_pending_return_queue_preview() {
    let item = |k: usize| {
        let mut entries = vec![
            ("task_id", s(&format!("task-{k}"))),
            ("headline", s(&format!("Pending line {k}"))),
            ("next_step", s(&format!("Close gap {k}"))),
            ("resume_state", s("pending_return")),
            ("queued_at_epoch_ms", n(100 + k as i128)),
            ("queued_reason", s("interrupted_by_new_handoff")),
            ("authoritative_event_id", s(&format!("event-{k}"))),
            ("authoritative_event_kind", s("continuity_handoff")),
            ("authoritative_local_path", s(&format!("/tmp/h{k}.md"))),
        ];
        if k == 0 {
            entries.push(("extra_field", s("must not survive")));
        }
        obj(entries)
    };
    let node = obj(vec![
        ("headline", s("Current active line")),
        ("next_step", s("Finish the continuity rebase")),
        ("restore_confidence", s("high")),
        ("prompt_text", s("CHAT_START_RESTORE\nCurrent active line")),
        ("execctl_resume_state", s("pending_return_queue_present")),
        ("pending_return_summary", s("pending_return(5): Pending line 0; +4 more")),
        ("pending_return_queue", arr((0..5).map(item).collect())),
    ]);

    let compact = compact_compact_chat_chat_start_restore(&node);
    let queue = match at(&compact, &["pending_return_queue"]) {
        Json::Array(items) => items,
        _ => panic!("pending return queue preview"),
    };

    assert_eq!(queue.len(), MAX_COMPACT_CHAT_PENDING_RETURN_QUEUE_PREVIEW);
    assert_eq!(at(&compact, &["pending_return_queue_total"]), &n(5));
    assert_eq!(
        at(&compact, &["pending_return_queue_full_shape_preserved_in_working_state_restore"]),
        &b(false)
    );
    assert_eq!(at(&queue[0], &["headline"]), &s("Pending line 0"));
    assert_eq!(at(&queue[2], &["headline"]), &s("Pending line 2"));
    assert_eq!(at(&queue[0], &["extra_field"]), &Json::Null);
    assert_eq!(at(&queue[0], &["authoritative_event_id"]), &Json::Null);
    assert_eq!(at(&queue[0], &["authoritative_local_path"]), &Json::Null);
    assert_eq!(at(&queue[0], &["queued_at_epoch_ms"]), &Json::Null);
}

#[test]
fn compact_startup_runtime_reply_execution_gate_preserves_missing_return_flag_as_null() {
    let gate = compact_startup_runtime_reply_execution_gate(&obj(vec![
        ("gate_version", s("client-reply-budget-gate-v1")),
        ("action_kind", s("continue_current_chat")),
        ("blocking", b(false)),
        ("must_rotate_before_reply", b(false)),
        ("must_wait_for_budget_recovery_before_reply", b(false)),
        ("reply_budget_mode", s("compact_high_signal")),
        ("reply_prefix", s("5ч KPI: переплата 178.24%")),
        ("rotate_now", b(false)),
        ("rotate_soon", b(false)),
        ("action_bundle", obj(vec![])),
    ]));

    assert_eq!(at(&gate, &["preserves_return_obligation"]), &Json::Null);
}

#[test]
fn runtime_reply_gate_reads_the_return_flag_from_the_bundle_first() {
    let gate = compact_startup_runtime_reply_execution_gate(&obj(vec![
        ("preserves_return_obligation", b(false)),
        ("action_bundle", obj(vec![("preserves_return_obligation", b(true))])),
    ]));
    assert_eq!(at(&gate, &["preserves_return_obligation"]), &b(true));
    let gate = compact_startup_runtime_reply_execution_gate(&obj(vec![("preserves_return_obligation", b(false))]));
    assert_eq!(at(&gate, &["preserves_return_obligation"]), &b(false));
    assert_eq!(compact_startup_runtime_reply_execution_gate(&s("x")), Json::Null);
    let guard = compact_startup_runtime_client_budget_guard(&obj(vec![
        ("status_label", s("ok")),
        ("note", s("dropped")),
        ("reply_execution_gate", obj(vec![("action_kind", s("continue_current_chat"))])),
    ]));
    assert_eq!(at(&guard, &["status_label"]), &s("ok"));
    assert_eq!(at(&guard, &["note"]), &Json::Null);
    assert_eq!(at(&guard, &["reply_execution_gate", "action_kind"]), &s("continue_current_chat"));
}

#[test]
fn thread_control_keeps_the_external_launch_only_when_it_has_fields() {
    let with_launch = compact_compact_chat_host_current_thread_control(&obj(vec![
        ("command_id", s("chatgpt.newChat")),
        ("extra", s("x")),
        ("external_uri_launch", obj(vec![("uri", s("command:chatgpt.newChat")), ("other", n(1))])),
    ]));
    assert_eq!(
        with_launch,
        obj(vec![
            ("command_id", s("chatgpt.newChat")),
            ("external_uri_launch", obj(vec![("uri", s("command:chatgpt.newChat"))])),
        ])
    );
    let without = compact_compact_chat_host_current_thread_control(&obj(vec![
        ("command_id", s("c")),
        ("external_uri_launch", obj(vec![("other", n(1))])),
    ]));
    assert_eq!(without, obj(vec![("command_id", s("c"))]));
}

#[test]
fn ledger_and_pack_summaries_count_their_lists() {
    let ledger = compact_project_task_ledger_for_startup(&obj(vec![("open_tasks_count", n(1))]));
    assert_eq!(at(&ledger, &["entries_count"]), &n(0));
    assert_eq!(at(&ledger, &["full_shape_preserved_in_working_state_restore"]), &b(false));
    let pack = compact_workspace_restore_pack_for_startup(&obj(vec![
        ("pack_version", s("v1")),
        ("active_commitments", arr(vec![n(1), n(2)])),
        ("active_constraints", arr(vec![])),
        ("important_artifacts", s("not a list")),
        ("summary", s("S")),
    ]));
    assert_eq!(at(&pack, &["active_commitments_count"]), &n(2));
    assert_eq!(at(&pack, &["important_artifacts_count"]), &n(0));
    assert_eq!(at(&pack, &["summary"]), &s("S"));
    assert_eq!(at(&pack, &["full_shape_preserved_in_working_state_restore"]), &b(true));
    assert_eq!(compact_workspace_restore_pack_for_startup(&Json::Null), Json::Null);
}

#[test]
fn prune_startup_runtime_summary_drops_null_reasons_and_zero_threads() {
    let mut summary = obj(vec![
        ("excluded_reasons_summary", Json::Null),
        ("included_reasons_summary", s("kept")),
        ("thread_count", n(0)),
        ("headline", s("h")),
    ]);
    prune_startup_runtime_summary(&mut summary);
    assert_eq!(summary, obj(vec![("included_reasons_summary", s("kept")), ("headline", s("h"))]));
    let mut busy = obj(vec![("thread_count", n(2))]);
    prune_startup_runtime_summary(&mut busy);
    assert_eq!(busy, obj(vec![("thread_count", n(2))]));
}
