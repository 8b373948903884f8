use amai_continuity::chat_start::{
    build_chat_start_restore, render_chat_start_prompt, NamespaceRecord, ProjectRecord,
};
use amai_continuity::advisory::{build_compact_chat_details, build_rotate_chat_details};
use amai_continuity::json::{get, Json};
use amai_continuity::prompt_summaries::summarize_startup_next_action_for_prompt;

static NULL: Json = Json::Null;

fn from_value(v: &serde_json::Value) -> Json {
    match v {
        serde_json::Value::Null => Json::Null,
        serde_json::Value::Bool(b) => Json::Bool(*b),
        serde_json::Value::Number(n) => Json::Number(n.as_i64().expect("integer") as i128),
        serde_json::Value::String(s) => Json::Str(s.clone()),
        serde_json::Value::Array(items) => Json::Array(items.iter().map(from_value).collect()),
        serde_json::Value::Object(m) => {
            Json::Object(m.iter().map(|(k, v)| (k.clone(), from_value(v))).collect())
        }
    }
}

fn parse(text: &str) -> Json {
    from_value(&serde_json::from_str(text).expect("json text"))
}

fn ix<'a>(j: &'a Json, key: &str) -> &'a Json {
    get(j, key).unwrap_or(&NULL)
}

fn nth(j: &Json, i: usize) -> &Json {
    match j {
        Json::Array(items) => items.get(i).unwrap_or(&NULL),
        _ => &NULL,
    }
}

fn s(t: &str) -> Json {
    Json::Str(t.to_string())
}

fn text(j: &Json) -> &str {
    match j {
        Json::Str(t) => t.as_str(),
        _ => panic!("not a string"),
    }
}

/// The compact wording of the dashboard's client-pressure labels.
fn compact_wording(label: &str) -> String {
    match label {
        "новый чат нужен сейчас" => "сожми текущий чат сейчас".to_string(),
        "новый чат рекомендован" => "сожми текущий чат".to_string(),
        other => other.to_string(),
    }
}

fn no_graph(_graph: &Json) -> Option<String> {
    None
}

fn art() -> (ProjectRecord, NamespaceRecord) {
    (
        ProjectRecord {
            code: "art".to_string(),
            display_name: "Art".to_string(),
            repo_root: "/home/art/Art".to_string(),
        },
        NamespaceRecord { code: "continuity".to_string(), display_name: "Continuity".to_string() },
    )
}

fn amai() -> (ProjectRecord, NamespaceRecord) {
    (
        ProjectRecord {
            code: "amai".to_string(),
            display_name: "Amai".to_string(),
            repo_root: "/home/art/agent-memory-index".to_string(),
        },
        NamespaceRecord { code: "continuity".to_string(), display_name: "Continuity".to_string() },
    )
}

fn pack_of(
    records: &(ProjectRecord, NamespaceRecord),
    continuity: &Json,
    handoff: &Json,
    restore: Option<&Json>,
) -> Json {
    build_chat_start_restore(
        &records.0,
        &records.1,
        continuity,
        handoff,
        restore,
        &compact_wording,
        &no_graph,
    )
}

#[test]
fn build_chat_start_restore_emits_prompt_and_compact_summaries() {
    let continuity = parse(
        r#"{
    "bootstrap_summary": {
        "details": {
            "thread_count": 16,
            "latest_rendered_transcript": "/tmp/rendered.md"
        }
    }
}"#,
    );
    let handoff = parse(
        r#"{
    "headline": "Amai upstream thread-index enrich materialized",
    "next_step": "Сделать auto-injection restore pack прямо в chat-start prompt."
}"#,
    );
    let restore = parse(
        r#"{
    "working_state_restore": {
        "current_goal": "Amai upstream thread-index enrich materialized",
        "restore_confidence": "high",
        "execctl_resume_state": "pending_return_queue_present",
        "pending_return_summary": "Same-meter spend control -> Materialize live assistant generation source.",
        "execctl_resume_contract": {
            "resume_state": "return_required",
            "no_silent_drop": true,
            "pending_return_count": 1,
            "active_task": {
                "headline": "Amai upstream thread-index enrich materialized"
            },
            "required_return_task": {
                "headline": "Same-meter spend control",
                "next_step": "Materialize live assistant generation source."
            }
        },
        "execctl_resume_contract_summary": "return_required(1): Same-meter spend control -> Materialize live assistant generation source.",
        "startup_next_action": {
            "action_kind": "resume_required_return_task",
            "blocking": true,
            "headline": "Same-meter spend control",
            "next_step": "Materialize live assistant generation source."
        },
        "startup_next_action_summary": "resume_required_return_task: Same-meter spend control -> Materialize live assistant generation source.",
        "execctl_active_lease": {
            "lease_owner_state": "previous_session_owner",
            "headline": "Amai upstream thread-index enrich materialized",
            "next_step": "Сделать auto-injection restore pack прямо в chat-start prompt.",
            "storage_lane": "ami.execctl_task_leases"
        },
        "execctl_active_lease_summary": "previous_session_owner: Amai upstream thread-index enrich materialized -> Сделать auto-injection restore pack прямо в chat-start prompt.",
        "project_task_tree": {
            "open_tasks_count": 2,
            "nodes": [
                {"task_role": "active", "headline": "Amai upstream thread-index enrich materialized"},
                {"task_role": "pending_return", "headline": "Same-meter spend control"}
            ]
        },
        "project_task_tree_summary": "active: Amai upstream thread-index enrich materialized; pending_return(1): Same-meter spend control -> Materialize live assistant generation source.",
        "project_task_ledger": {
            "open_tasks_count": 2,
            "historical_handoffs_count": 3,
            "entries": [
                {"task_role": "active", "headline": "Amai upstream thread-index enrich materialized"}
            ]
        },
        "required_task_set": [
            "Вернуть same-meter spend control в активную линию",
            "Проверить auto-injection в новом чате"
        ],
        "required_task_set_summary": "2 задач(и): Вернуть same-meter spend control в активную линию",
        "pending_return_queue": [
            {
                "headline": "Same-meter spend control",
                "next_step": "Materialize live assistant generation source."
            }
        ],
        "materialized_notes": [
            "Enriched temporal summaries теперь пишутся upstream."
        ],
        "workspace_restore_pack_summary": "active(1); paused(1); facts(1); constraints(2); artifacts(3); procedures(1)",
        "workspace_restore_pack": {
            "pack_version": "workspace-restore-pack-v1",
            "active_commitments": [{"headline": "Amai upstream thread-index enrich materialized"}],
            "blocked_waiting_items": [],
            "paused_branches": [{"headline": "Same-meter spend control"}],
            "recently_closed": [{"headline": "Older handoff"}],
            "relevant_semantic_facts": [{"summary": "Enriched temporal summaries теперь пишутся upstream."}],
            "recent_episodic_traces": [{"headline": "Проверили previous chat lookup"}],
            "active_constraints": [{"summary": "return_required(1)"}],
            "important_artifacts": [{"path": "/home/art/agent-memory-index/src/continuity.rs"}],
            "unresolved_conflicts": [{"summary": "Как сделать auto-injection без дополнительного helper-обхода?"}],
            "relevant_procedures": [{"summary": "Restore Continuity Card [trial] -> inspect startup gate"}],
            "procedural_restore_policy": {
                "raw_procedural_archive_forbidden": true,
                "materialized_surface": "compact_execution_card"
            },
            "summary": "active(1); paused(1); facts(1); constraints(2); artifacts(3); procedures(1)"
        },
        "skill_execution_card_summary": "Restore Continuity Card [trial] -> inspect startup gate",
        "skill_execution_card": {
            "skill_title": "Restore Continuity Card",
            "skill_execution_steps": ["inspect startup gate"],
            "skill_trust_state": "trial"
        },
        "recent_actions": [
            {"headline": "Проверили previous chat lookup"},
            {"headline": "Проверили exact-time lookup"}
        ],
        "active_files": [
            "/home/art/agent-memory-index/src/continuity.rs",
            "/home/art/Art/scripts/tools/amai_art_continuity_startup.sh"
        ],
        "open_questions": [
            "Как сделать auto-injection без дополнительного helper-обхода?"
        ]
    }
}"#,
    );
    let pack = pack_of(&art(), &continuity, &handoff, Some(&restore));
    let node = ix(&pack, "chat_start_restore");
    let prompt = text(ix(node, "prompt_text"));

    assert!(prompt.contains("CHAT_START_RESTORE"));
    assert!(prompt.contains("Линия: Amai upstream thread-index enrich materialized"));
    assert!(prompt.contains("Шаг: Сделать auto-injection restore pack прямо в chat-start prompt."));
    assert!(prompt.contains("Карточка: Restore Continuity Card [trial] -> inspect startup gate"));
    assert!(prompt.contains(
        "Workspace: active(1); paused(1); facts(1); constraints(2); artifacts(3); procedures(1)"
    ));
    assert!(prompt.contains(
        "Возврат: Same-meter spend control -> Materialize live assistant generation source."
    ));
    assert!(prompt.contains("Контракт: return_required(1): Same-meter spend control -> Materialize live assistant generation source."));
    assert!(prompt.contains("Задачи: 2 задач(и): Вернуть same-meter spend control в активную линию"));
    assert!(!prompt.contains("Project:"));
    assert!(!prompt.contains("Namespace:"));
    assert!(!prompt.contains("Сделано:"));
    assert!(prompt.contains("Сначала: вернись: Same-meter spend control"));
    assert!(!prompt.contains("Не переключайся до возврата."));
    assert!(!prompt.contains("Правило: follow pack; continuity не поднимай."));
    assert!(!prompt.contains("Недавнее:"));
    assert!(!prompt.contains("Файлы:"));
    assert!(!prompt.contains("Вопросы:"));
    assert!(!prompt.contains("Thread count in continuity index"));
    assert!(!prompt.contains("Активный lease ExecCtl"));
    assert_eq!(ix(node, "thread_count"), &Json::Number(16));
    assert_eq!(ix(ix(node, "workspace_restore_pack"), "active_commitments_count"), &Json::Number(1));
    assert_eq!(ix(node, "current_goal"), &Json::Null);
    assert_eq!(ix(node, "latest_rendered_transcript"), &Json::Null);
    assert_eq!(ix(node, "active_files"), &Json::Null);
    assert_eq!(ix(node, "open_questions"), &Json::Null);
    assert_eq!(
        ix(node, "skill_execution_card_summary"),
        &s("Restore Continuity Card [trial] -> inspect startup gate")
    );
    assert_eq!(ix(ix(node, "skill_execution_card"), "skill_title"), &s("Restore Continuity Card"));
    assert_eq!(ix(ix(node, "project_task_tree"), "summary_only"), &Json::Bool(true));
    assert_eq!(ix(ix(node, "project_task_tree"), "nodes"), &Json::Null);
    assert_eq!(ix(ix(node, "project_task_tree"), "edges"), &Json::Null);
    assert_eq!(ix(ix(node, "project_task_ledger"), "summary_only"), &Json::Bool(true));
    assert_eq!(ix(ix(node, "project_task_ledger"), "entries"), &Json::Null);
    assert_eq!(ix(node, "execctl_resume_state"), &s("pending_return_queue_present"));
    assert_eq!(ix(ix(node, "execctl_resume_obligation"), "resume_state"), &s("return_required"));
    assert_eq!(
        ix(ix(node, "execctl_resume_obligation"), "required_return_headline"),
        &s("Same-meter spend control")
    );
    assert_eq!(
        ix(ix(node, "startup_next_action"), "action_kind"),
        &s("resume_required_return_task")
    );
    assert_eq!(ix(ix(node, "startup_next_action"), "headline"), &s("Same-meter spend control"));
    assert_eq!(ix(ix(node, "required_return_task"), "headline"), &s("Same-meter spend control"));
    assert_eq!(
        nth(ix(node, "required_task_set"), 0),
        &s("Вернуть same-meter spend control в активную линию")
    );
    assert_eq!(
        ix(nth(ix(node, "pending_return_queue"), 0), "headline"),
        &s("Same-meter spend control")
    );
    assert_eq!(ix(ix(node, "project_task_tree"), "open_tasks_count"), &Json::Number(2));
    assert_eq!(ix(ix(node, "project_task_ledger"), "historical_handoffs_count"), &Json::Number(3));
    assert_eq!(ix(ix(node, "execctl_active_lease"), "storage_lane"), &s("ami.execctl_task_leases"));
}

#[test]
fn build_chat_start_restore_normalizes_blank_handoff_text() {
    let continuity = parse(
        r#"{
    "bootstrap_summary": {
        "details": {
            "thread_count": 0,
            "latest_rendered_transcript": ""
        }
    }
}"#,
    );
    let handoff = parse(
        r#"{
    "headline": "   ",
    "next_step": ""
}"#,
    );
    let pack = pack_of(&art(), &continuity, &handoff, None);
    let node = ix(&pack, "chat_start_restore");
    let prompt = text(ix(node, "prompt_text"));

    assert_eq!(ix(node, "headline"), &s("ещё нет данных"));
    assert_eq!(ix(node, "next_step"), &s("ещё нет данных"));
    assert_eq!(ix(node, "execctl_resume_state"), &Json::Null);
    assert_eq!(ix(ix(node, "execctl_resume_obligation"), "resume_state"), &Json::Null);
    assert!(prompt.contains("Линия: ещё нет данных"));
    assert!(prompt.contains("Шаг: ещё нет данных"));
}

#[test]
fn build_chat_start_restore_preserves_missing_thread_count_as_null() {
    let continuity = parse(
        r#"{
    "bootstrap_summary": {
        "details": {
            "latest_rendered_transcript": "/tmp/rendered.md"
        }
    }
}"#,
    );
    let handoff = parse(
        r#"{
    "headline": "Current active line",
    "next_step": "Continue foundation work."
}"#,
    );
    let pack = pack_of(&art(), &continuity, &handoff, None);
    let node = ix(&pack, "chat_start_restore");
    let prompt = text(ix(node, "prompt_text"));

    let _ = prompt;
    assert_eq!(ix(node, "thread_count"), &Json::Null);
    assert_eq!(ix(node, "restore_confidence"), &Json::Null);
}

#[test]
fn build_chat_start_restore_prefers_live_client_budget_summary_over_stale_notes() {
    let continuity = parse(
        r#"{
    "bootstrap_summary": {
        "details": {
            "thread_count": 3,
            "latest_rendered_transcript": "/tmp/rendered.md"
        }
    }
}"#,
    );
    let handoff = parse(
        r#"{
    "headline": "Продолжить активную рабочую линию",
    "next_step": "продолжить работу в новой рабочей поверхности через continuity startup"
}"#,
    );
    let restore = parse(
        r#"{
    "working_state_restore": {
        "current_goal": "Продолжить активную рабочую линию",
        "restore_confidence": "high",
        "client_budget_guard": {
            "status_label": "сожми текущий чат сейчас",
            "last_request": "162594 из 258400, остаётся 37.08% · raw 23:27:06 MSK",
            "client_limits": "5ч остаётся 8.00%, 7д остаётся 72.00% · raw 23:27:06 MSK"
        },
        "materialized_notes": [
            "Client-budget advisory signal: сожми текущий чат.",
            "Последний запрос в модель: 190690 из 258400, остаётся 26.20% · raw 23:15:46 MSK.",
            "Лимит клиента сейчас: 5ч остаётся 8.00%, 7д остаётся 72.00% · raw 23:15:46 MSK.",
            "Продолжить ту же рабочую линию: Продолжить активную рабочую линию."
        ]
    }
}"#,
    );
    let pack = pack_of(&amai(), &continuity, &handoff, Some(&restore));
    let node = ix(&pack, "chat_start_restore");
    let prompt = text(ix(node, "prompt_text"));

    let materialized = text(ix(node, "materialized_summary"));

    assert!(prompt.contains("Сделано: Client-budget advisory signal: сожми текущий чат сейчас."));
    assert!(!prompt.contains("190690 из 258400"));
    assert!(materialized.contains("162594 из 258400"));
    assert!(materialized.contains("23:27:06 MSK"));
    assert!(!materialized.contains("23:15:46 MSK"));
}

#[test]
fn rotate_and_startup_surfaces_ignore_whitespace_only_summary_text() {
    let guard = parse(
        r#"{
    "status_label": "новый чат нужен сейчас",
    "last_request": "   ",
    "client_limits": "\n\t",
    "note": "   "
}"#,
    );

    let rotate_details = build_rotate_chat_details(
        &guard,
        "Продолжить активную рабочую линию",
        "Сначала сожми текущий чат",
        &compact_wording,
    );
    let compact_details = build_compact_chat_details(
        &guard,
        "Продолжить активную рабочую линию",
        "Сначала сожми текущий чат",
        &compact_wording,
    );

    assert!(!rotate_details.contains("Последний запрос в модель:"));
    assert!(!rotate_details.contains("Лимит клиента сейчас:"));
    assert!(!rotate_details.contains("Почему advisory-сигнал рекомендует rotate/compact:"));
    assert!(!compact_details.contains("Последний запрос в модель:"));
    assert!(!compact_details.contains("Лимит клиента сейчас:"));

    let continuity = parse(
        r#"{
    "bootstrap_summary": {
        "details": {
            "thread_count": 3,
            "latest_rendered_transcript": "/tmp/rendered.md"
        }
    }
}"#,
    );
    let handoff = parse(
        r#"{
    "headline": "Продолжить активную рабочую линию",
    "next_step": "продолжить работу в новой рабочей поверхности через continuity startup"
}"#,
    );
    let restore = parse(
        r#"{
    "working_state_restore": {
        "current_goal": "   ",
        "restore_confidence": "high",
        "workspace_restore_pack_summary": "   ",
        "skill_execution_card_summary": "   ",
        "pending_return_summary": "   ",
        "execctl_resume_contract_summary": "   ",
        "client_budget_guard": {
            "status_label": "новый чат нужен сейчас"
        }
    }
}"#,
    );
    let pack = pack_of(&amai(), &continuity, &handoff, Some(&restore));
    let node = ix(&pack, "chat_start_restore");
    let prompt = text(ix(node, "prompt_text"));

    assert_eq!(ix(node, "headline"), &s("Продолжить активную рабочую линию"));
    assert_eq!(ix(node, "workspace_restore_pack_summary"), &Json::Null);
    assert_eq!(ix(node, "skill_execution_card_summary"), &Json::Null);
    assert_eq!(ix(node, "pending_return_summary"), &Json::Null);
    assert_eq!(ix(node, "execctl_resume_contract_summary"), &Json::Null);
    assert!(!prompt.contains("Карточка:"));
    assert!(!prompt.contains("Workspace:"));
    assert!(!prompt.contains("Контракт:"));
}

#[test]
fn chat_start_restore_ignores_whitespace_only_startup_summary_fields() {
    let continuity = parse(
        r#"{
    "bootstrap_summary": {
        "details": {
            "thread_count": 3,
            "latest_rendered_transcript": "/tmp/rendered.md"
        }
    }
}"#,
    );
    let handoff = parse(
        r#"{
    "headline": "Продолжить активную рабочую линию",
    "next_step": "продолжить работу в новой рабочей поверхности через continuity startup"
}"#,
    );
    let restore = parse(
        r#"{
    "working_state_restore": {
        "current_goal": "Продолжить активную рабочую линию",
        "restore_confidence": "high",
        "startup_next_action_summary": "   ",
        "execctl_active_lease_summary": "   ",
        "project_task_tree_summary": "   ",
        "project_task_ledger_summary": "   ",
        "required_task_set_summary": "   ",
        "execctl_resume_state": "   ",
        "execctl_resume_contract": {
            "resume_state": "   ",
            "required_return_task": {
                "headline": "   ",
                "next_step": "   "
            }
        },
        "execctl_resume_obligation": {
            "required_return_headline": "   ",
            "required_return_next_step": "   "
        }
    }
}"#,
    );
    let pack = pack_of(&amai(), &continuity, &handoff, Some(&restore));
    let node = ix(&pack, "chat_start_restore");
    let prompt = text(ix(node, "prompt_text"));

    assert_eq!(
        ix(node, "startup_next_action_summary"),
        &s("continue_active_workline: Продолжить активную рабочую линию -> продолжить работу в новой рабочей поверхности через continuity startup")
    );
    assert_eq!(ix(node, "execctl_active_lease_summary"), &Json::Null);
    assert_eq!(ix(node, "project_task_tree_summary"), &Json::Null);
    assert_eq!(ix(node, "project_task_ledger_summary"), &Json::Null);
    assert_eq!(ix(node, "required_task_set_summary"), &Json::Null);
    assert_eq!(ix(node, "execctl_resume_state"), &Json::Null);
    assert!(!prompt.contains("Сначала закрой возврат."));
}

#[test]
fn build_chat_start_restore_prompt_includes_blocked_reply_text_for_rotate_path() {
    let continuity = parse(
        r#"{
    "bootstrap_summary": {
        "details": {
            "thread_count": 3,
            "latest_rendered_transcript": "/tmp/rendered.md"
        }
    }
}"#,
    );
    let handoff = parse(
        r#"{
    "headline": "Продолжить активную рабочую линию",
    "next_step": "продолжить работу в новой рабочей поверхности через continuity startup"
}"#,
    );
    let restore = parse(
        r#"{
    "working_state_restore": {
        "current_goal": "Продолжить активную рабочую линию",
        "restore_confidence": "high",
        "startup_next_action": {
            "action_kind": "rotate_chat_for_client_budget",
            "blocking": true,
            "headline": "Клиентский лимит: сожми текущий чат сейчас",
            "next_step": "сначала сожми текущий чат; continuity startup используй только как fallback"
        },
        "client_budget_guard": {
            "reply_execution_gate": {
                "blocking_reply_contract": {
                    "template": "Этот чат жжёт внешний лимит клиента: сначала сожми текущий чат; continuity startup используй только если fallback действительно нужен."
                }
            }
        }
    }
}"#,
    );
    let pack = pack_of(&amai(), &continuity, &handoff, Some(&restore));
    let node = ix(&pack, "chat_start_restore");
    let prompt = text(ix(node, "prompt_text"));

    assert!(prompt.contains("Сначала: Клиентский лимит: сожми текущий чат сейчас"));
    assert!(prompt.contains("Только rotate: Этот чат жжёт внешний лимит клиента:"));
}

#[test]
fn startup_prompt_and_rotate_blocked_reply_ignore_whitespace_only_text() {
    let summary = summarize_startup_next_action_for_prompt(&parse(
        r#"{
    "action_kind": "honor_required_task_set",
    "headline": "   ",
    "next_step": "   ",
    "required_task_set_summary": "   "
}"#,
    ))
    .expect("summary");
    assert_eq!(summary, "Сначала: ещё нет данных");

    let continuity = parse(
        r#"{
    "bootstrap_summary": {
        "details": {
            "thread_count": 3,
            "latest_rendered_transcript": "/tmp/rendered.md"
        }
    }
}"#,
    );
    let handoff = parse(
        r#"{
    "headline": "Продолжить активную рабочую линию",
    "next_step": "продолжить работу в новой рабочей поверхности через continuity startup"
}"#,
    );
    let restore = parse(
        r#"{
    "working_state_restore": {
        "current_goal": "Продолжить активную рабочую линию",
        "restore_confidence": "high",
        "startup_next_action": {
            "action_kind": "rotate_chat_for_client_budget",
            "blocking": true,
            "headline": "Клиентский лимит: сожми текущий чат сейчас",
            "next_step": "сначала сожми текущий чат; continuity startup используй только как fallback"
        },
        "client_budget_guard": {
            "reply_execution_gate": {
                "blocking_reply_contract": {
                    "template": "   "
                }
            }
        }
    }
}"#,
    );
    let pack = pack_of(&amai(), &continuity, &handoff, Some(&restore));
    let prompt = text(ix(ix(&pack, "chat_start_restore"), "prompt_text"));

    assert!(!prompt.contains("Только rotate:"));
}

#[test]
fn render_chat_start_prompt_is_exact_without_a_restore() {
    let handoff = parse(r#"{"headline": " Line ", "next_step": "Step"}"#);
    assert_eq!(
        render_chat_start_prompt(&handoff, None, &compact_wording),
        "CHAT_START_RESTORE\nЛиния: Line\nШаг: Step"
    );
}

#[test]
fn chat_start_restore_carries_the_workspace_graph_summary_and_project() {
    let restore = parse(r#"{"working_state_restore": {"workspace_graph": {"files": 2}}}"#);
    let graph = |g: &Json| -> Option<String> {
        match ix(g, "files") {
            Json::Number(n) => Some(format!("files: {n}")),
            _ => None,
        }
    };
    let (project, namespace) = art();
    let pack = build_chat_start_restore(
        &project,
        &namespace,
        &parse("{}"),
        &parse("{}"),
        Some(&restore),
        &compact_wording,
        &graph,
    );
    let node = ix(&pack, "chat_start_restore");
    assert_eq!(ix(node, "workspace_graph_summary"), &s("files: 2"));
    assert_eq!(ix(ix(node, "project"), "repo_root"), &s("/home/art/Art"));
    assert_eq!(ix(ix(node, "namespace"), "display_name"), &s("Continuity"));
    assert_eq!(ix(node, "required_return_task"), &Json::Null);
    assert_eq!(ix(node, "materialized_summary"), &Json::Null);
}
