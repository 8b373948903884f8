use amai_continuity::chat_start::{build_chat_start_restore, NamespaceRecord, ProjectRecord};
use amai_continuity::json::{get, Json, ObjectBuilder};
use amai_continuity::projections::normalized_handoff_summary_json;
use amai_continuity::startup_payload::{
    build_continuity_restore_payload, build_continuity_startup_payload, StartupProbe,
};

static NULL: Json = Json::Null;

fn from_value(v: &serde_json::Value) -> Json {
    match v {
        serde_json::Value::Null => Json::Null,
        serde_json::Value::Bool(b) => Json::Bool(*b),
        serde_json::Value::Number(n) => Json::Number(n.as_i64().expect("integer") as i128),
        serde_json::Value::String(s) => Json::Str(s.clone()),
        serde_json::Value::Array(items) => Json::Array(items.iter().map(from_value).collect()),
        serde_json::Value::Object(m) => {
            Json::Object(m.iter().map(|(k, v)| (k.clone(), from_value(v))).collect())
        }
    }
}

fn parse(text: &str) -> Json {
    from_value(&serde_json::from_str(text).expect("json text"))
}

fn ix<'a>(j: &'a Json, key: &str) -> &'a Json {
    get(j, key).unwrap_or(&NULL)
}

fn s(t: &str) -> Json {
    Json::Str(t.to_string())
}

fn is_null(j: &Json) -> bool {
    matches!(j, Json::Null)
}

fn flag(j: &Json, key: &str) -> bool {
    matches!(ix(j, key), Json::Bool(true))
}

/// A stand-in for the eval layer: counts the verdicts by class and lists the probes.
fn judge(probes: &Vec<StartupProbe>) -> Json {
    let mut counts: Vec<(String, i128)> = Vec::new();
    let mut listed: Vec<Json> = Vec::new();
    for p in probes {
        let d = &p.details;
        let class = if p.expected_verdict_class == "hit_correct_target" {
            if flag(d, "boundary_clean") && flag(d, "fail_closed_ok") && !flag(d, "unexpected_present") {
                "hit_correct_target"
            } else {
                "boundary_violation"
            }
        } else if flag(d, "expected_present") && !flag(d, "unexpected_present") {
            "recovered_useful"
        } else {
            "under_retrieved"
        };
        match counts.iter_mut().find(|(k, _)| k == class) {
            Some((_, n)) => *n += 1,
            None => counts.push((class.to_string(), 1)),
        }
        let mut item = ObjectBuilder::new();
        item.push("name", s(&p.name));
        item.push("expected_eval_verdict_class", s(&p.expected_verdict_class));
        item.push("eval_verdict_class", s(class));
        item.push("details", amai_continuity::json::clone_json(d));
        listed.push(item.build());
    }
    let mut vc = ObjectBuilder::new();
    for (k, n) in counts {
        vc.push(&k, Json::Number(n));
    }
    let mut b = ObjectBuilder::new();
    b.push("verdict_counts", vc.build());
    b.push("probes", Json::Array(listed));
    b.build()
}

fn compact_wording(label: &str) -> String {
    match label {
        "новый чат нужен сейчас" => "сожми текущий чат сейчас".to_string(),
        "новый чат рекомендован" => "сожми текущий чат".to_string(),
        other => other.to_string(),
    }
}

fn no_graph(_graph: &Json) -> Option<String> {
    None
}

fn art() -> (ProjectRecord, NamespaceRecord) {
    (
        ProjectRecord {
            code: "art".to_string(),
            display_name: "Art".to_string(),
            repo_root: "/home/art/Art".to_string(),
        },
        NamespaceRecord { code: "continuity".to_string(), display_name: "Continuity".to_string() },
    )
}

fn pack(r: &(ProjectRecord, NamespaceRecord), continuity: &Json, handoff: &Json, restore: Option<&Json>) -> Json {
    build_chat_start_restore(&r.0, &r.1, continuity, handoff, restore, &compact_wording, &no_graph)
}

fn startup(r: &(ProjectRecord, NamespaceRecord), continuity: &Json, handoff: &Json, restore: Option<&Json>) -> Json {
    let chat_start = pack(r, continuity, handoff, restore);
    build_continuity_startup_payload(
        &r.0,
        &r.1,
        continuity,
        handoff,
        restore,
        &chat_start,
        &judge,
        parse(r#"{"suite_key": "continuity_startup"}"#),
        s("policy"),
    )
}

fn restore_payload(
    r: &(ProjectRecord, NamespaceRecord),
    continuity: &Json,
    handoff: &Json,
    restore: &Json,
    chat_start: &Json,
) -> Json {
    build_continuity_restore_payload(
        &r.0,
        &r.1,
        continuity,
        handoff,
        restore,
        chat_start,
        &judge,
        parse(r#"{"suite_key": "continuity_restore"}"#),
        s("policy"),
    )
}

fn probe<'a>(eval: &'a Json, name: &str) -> &'a Json {
    match ix(eval, "probes") {
        Json::Array(items) => items.iter().find(|p| ix(p, "name") == &s(name)).expect("probe present"),
        other => panic!("probes are not an array: {:?}", other),
    }
}

fn long_restore(headline: &str, next_step: &str) -> Json {
    let text = format!(
        r#"{{
            "working_state_restore": {{
                "current_goal": "{headline}",
                "next_step": "{next_step}",
                "restore_confidence": "high",
                "state_lineage": {{"authoritative_event_id": "event-1"}},
                "materialized_notes": ["temporal lookup materialized"],
                "recent_actions": [],
                "active_files": [],
                "open_questions": [],
                "latest_decision_trace": {{
                    "included": [{{"strategy": "exact_documents", "count": 1, "reason": "Нашлись точные совпадения по continuity."}}],
                    "not_included": [{{"strategy": "semantic_chunks", "reason": "Semantic layer честно abstained и не добавил фрагменты."}}]
                }},
                "workspace_graph": {{
                    "summary": {{"file_count": 0, "structure_item_count": 0, "symbol_count": 0, "chunk_count": 0, "import_count": 0, "export_count": 0, "call_count": 0, "edge_count": 0}}
                }}
            }}
        }}"#
    );
    parse(&text)
}

const RESTORE_HEADLINE: &str = "Temporal lookup materialized for the continuity restore compact prompt contour with enough detail to exceed the prompt headline limit";
const STARTUP_HEADLINE: &str = "Temporal lookup materialized for the startup compact prompt contour with enough detail to exceed the prompt headline limit";
const LONG_STEP: &str = "Проверить lookup по точному времени на реальном новом чате и убедиться, что compact prompt сохраняет рабочую линию даже после обрезки длинного следующего шага.";

#[test]
fn continuity_restore_payload_normalizes_empty_handoff_summary() {
    let r = art();
    let continuity = parse(r#"{"imported_at_epoch_ms": 1234567, "bootstrap_summary": {"details": {"thread_count": 18}}}"#);
    let handoff = parse(r#"{"headline": "   ", "next_step": ""}"#);
    let restore = parse(
        r#"{
            "working_state_restore": {"current_goal": "goal", "next_step": "step", "restore_confidence": "high", "state_lineage": {"authoritative_event_id": "event-1"}},
            "workspace_restore_pack": {"active_commitments": [], "active_constraints": [], "important_artifacts": [], "procedural_restore_policy": {"raw_procedural_archive_forbidden": true}}
        }"#,
    );
    let chat_start = parse(
        r#"{"chat_start_restore": {"headline": "   ", "next_step": "", "prompt_text": "CHAT_START_RESTORE\nещё нет данных\nещё нет данных"}}"#,
    );
    let payload = restore_payload(&r, &continuity, &handoff, &restore, &chat_start);
    assert_eq!(ix(ix(ix(&payload, "continuity_restore"), "handoff_summary"), "headline"), &s("ещё нет данных"));
    assert_eq!(ix(ix(ix(&payload, "continuity_restore"), "handoff_summary"), "next_step"), &s("ещё нет данных"));
}

#[test]
fn continuity_restore_payload_keeps_recovered_useful_eval_layer() {
    let r = art();
    let continuity = parse(
        r#"{"imported_at_epoch_ms": 1234567, "bootstrap_summary": {"details": {"thread_count": 18, "latest_rendered_transcript": "/tmp/rendered.md"}}}"#,
    );
    let handoff = parse(&format!(r#"{{"headline": "{RESTORE_HEADLINE}", "next_step": "{LONG_STEP}"}}"#));
    let restore = long_restore(RESTORE_HEADLINE, LONG_STEP);
    let chat_start = pack(&r, &continuity, &handoff, Some(&restore));
    let payload = restore_payload(&r, &continuity, &handoff, &restore, &chat_start);
    assert_eq!(
        ix(ix(ix(ix(&payload, "continuity_restore"), "canonical_eval"), "verdict_counts"), "recovered_useful"),
        &Json::Number(2)
    );
    assert!(is_null(ix(&payload, "workspace_restore_pack")));
    assert_eq!(ix(ix(&payload, "retrieval_science"), "suite_key"), &s("continuity_restore"));
    assert_eq!(
        ix(ix(&payload, "chat_start_restore"), "included_reasons_summary"),
        &s("точные совпадения (1) — Нашлись точные совпадения по continuity.")
    );
    match ix(ix(&payload, "chat_start_restore"), "prompt_text") {
        Json::Str(t) => assert!(!t.contains("Почему вошёл последний контекст:")),
        other => panic!("prompt text is not a string: {:?}", other),
    }
}

#[test]
fn continuity_startup_payload_keeps_recovered_useful_eval_layer() {
    let r = art();
    let continuity = parse(
        r#"{"imported_at_epoch_ms": 1234567, "documents_imported": 4, "rendered_transcript_files": 3, "bootstrap_summary": {"details": {"thread_count": 18, "latest_rendered_transcript": "/tmp/rendered.md"}}}"#,
    );
    let handoff = parse(&format!(r#"{{"headline": "{STARTUP_HEADLINE}", "next_step": "{LONG_STEP}"}}"#));
    let restore = long_restore(STARTUP_HEADLINE, LONG_STEP);
    let payload = startup(&r, &continuity, &handoff, Some(&restore));
    assert_eq!(
        ix(ix(ix(ix(&payload, "continuity_startup"), "canonical_eval"), "verdict_counts"), "recovered_useful"),
        &Json::Number(3)
    );
    assert_eq!(ix(ix(&payload, "retrieval_science"), "suite_key"), &s("continuity_startup"));
    assert_eq!(
        ix(ix(&payload, "chat_start_restore"), "included_reasons_summary"),
        &s("точные совпадения (1) — Нашлись точные совпадения по continuity.")
    );
}

#[test]
fn continuity_eval_probe_details_preserve_missing_state_as_null() {
    let r = art();
    let continuity = parse(
        r#"{"imported_at_epoch_ms": 1234567, "documents_imported": 1, "bootstrap_summary": {"details": {"thread_count": 0, "latest_rendered_transcript": ""}}}"#,
    );
    let handoff = parse(r#"{"headline": "   ", "next_step": ""}"#);
    let restore = parse(
        r#"{
            "working_state_restore": {"current_goal": "   ", "next_step": "", "restore_confidence": "missing", "state_lineage": {"authoritative_event_id": "   "}},
            "workspace_restore_pack": {"summary": "   ", "active_commitments": [], "active_constraints": [], "important_artifacts": [], "procedural_restore_policy": {"raw_procedural_archive_forbidden": true}}
        }"#,
    );
    let chat_start = pack(&r, &continuity, &handoff, Some(&restore));
    let startup_payload = startup(&r, &continuity, &handoff, Some(&restore));
    let section = ix(&startup_payload, "continuity_startup");
    assert_eq!(
        ix(section, "handoff_summary"),
        &parse(r#"{"headline": "ещё нет данных", "next_step": "ещё нет данных"}"#)
    );
    let eval = ix(section, "canonical_eval");
    let working = ix(probe(eval, "working_state_restore_recovered_useful"), "details");
    assert!(is_null(ix(working, "current_goal")));
    assert!(is_null(ix(working, "next_step")));
    assert!(is_null(ix(working, "authoritative_event_id")));
    assert!(is_null(ix(ix(probe(eval, "startup_summary_recovered_useful"), "details"), "headline")));
    let workspace = ix(probe(eval, "workspace_restore_pack_recovered_useful"), "details");
    assert!(is_null(ix(workspace, "summary")));
    assert!(is_null(ix(workspace, "procedural_surface")));
    assert_eq!(ix(working, "restore_confidence"), &s("missing"));

    let replay_probes = amai_continuity::self_checks::continuity_replay_guard_probes().expect("replay probes");
    let replay_summary = judge(&replay_probes);
    assert_eq!(
        ix(ix(probe(&replay_summary, "handoff_replay_rejected"), "details"), "selected_headline"),
        &s("Fresh handoff")
    );

    let restore_payload = restore_payload(&r, &continuity, &handoff, &restore, &chat_start);
    let restore_eval = ix(ix(&restore_payload, "continuity_restore"), "canonical_eval");
    assert!(is_null(ix(ix(probe(restore_eval, "working_state_restore_recovered_useful"), "details"), "current_goal")));
    assert!(is_null(ix(
        ix(probe(restore_eval, "workspace_restore_pack_recovered_useful"), "details"),
        "procedural_surface"
    )));

    let no_restore = startup(&r, &continuity, &handoff, None);
    let no_restore_eval = ix(ix(&no_restore, "continuity_startup"), "canonical_eval");
    assert!(is_null(ix(
        ix(probe(no_restore_eval, "working_state_restore_recovered_useful"), "details"),
        "restore_confidence"
    )));

    let unknown_source = parse(r#"{"imported_at_epoch_ms": 1234567, "documents_imported": 1}"#);
    let unknown = startup(&r, &unknown_source, &handoff, None);
    let unknown_section = ix(&unknown, "continuity_startup");
    assert!(is_null(ix(ix(unknown_section, "continuity_source"), "mode")));
    assert!(is_null(ix(ix(unknown_section, "continuity_source"), "source_namespace_code")));
    let summary_probe = ix(probe(ix(unknown_section, "canonical_eval"), "startup_summary_recovered_useful"), "details");
    assert!(is_null(ix(summary_probe, "continuity_source_mode")));
    assert!(is_null(ix(summary_probe, "continuity_source_namespace_code")));
}

fn blank_working_restore() -> Json {
    parse(
        r#"{"working_state_restore": {"current_goal": "   ", "next_step": "", "restore_confidence": "high", "state_lineage": {"authoritative_event_id": "   ", "session_id": "sess-1"}}}"#,
    )
}

fn blank_pack_restore() -> Json {
    parse(
        r#"{
            "working_state_restore": {"restore_confidence": "high", "state_lineage": {"session_id": "sess-1"}},
            "workspace_restore_pack": {"summary": "   ", "active_commitments": [], "active_constraints": [], "important_artifacts": [], "procedural_restore_policy": {"raw_procedural_archive_forbidden": true}}
        }"#,
    )
}

fn current_line_handoff() -> Json {
    parse(r#"{"headline": "Current line", "next_step": "Next step"}"#)
}

fn current_line_chat_start() -> Json {
    parse(
        r#"{"chat_start_restore": {"headline": "Current line", "next_step": "Next step", "prompt_text": "CHAT_START_RESTORE\nCurrent line\nNext step"}}"#,
    )
}

fn assert_blank_working_state(payload: &Json) {
    let w = ix(payload, "working_state_restore");
    assert!(is_null(ix(w, "current_goal")));
    assert!(is_null(ix(w, "next_step")));
    assert!(is_null(ix(ix(w, "state_lineage"), "authoritative_event_id")));
    assert_eq!(ix(ix(w, "state_lineage"), "session_id"), &s("sess-1"));
    assert_eq!(ix(w, "restore_confidence"), &s("high"));
}

fn assert_blank_pack(payload: &Json) {
    let p = ix(payload, "workspace_restore_pack");
    assert!(is_null(ix(p, "summary")));
    assert_eq!(ix(p, "active_commitments"), &Json::Array(vec![]));
    assert_eq!(ix(p, "active_constraints"), &Json::Array(vec![]));
    assert_eq!(ix(p, "important_artifacts"), &Json::Array(vec![]));
}

#[test]
fn continuity_restore_payload_normalizes_blank_working_state_projection() {
    let r = art();
    let continuity = parse(r#"{"imported_at_epoch_ms": 1234567, "bootstrap_summary": {"details": {"thread_count": 0, "latest_rendered_transcript": ""}}}"#);
    let mut restore = blank_working_restore();
    if let Json::Object(entries) = &mut restore {
        entries.push((
            "workspace_restore_pack".to_string(),
            parse(r#"{"active_commitments": [], "active_constraints": [], "important_artifacts": [], "procedural_restore_policy": {"raw_procedural_archive_forbidden": true}}"#),
        ));
    }
    let payload = restore_payload(&r, &continuity, &current_line_handoff(), &restore, &current_line_chat_start());
    assert_blank_working_state(&payload);
}

#[test]
fn continuity_restore_payload_normalizes_blank_workspace_restore_pack_projection() {
    let r = art();
    let continuity = parse(r#"{"imported_at_epoch_ms": 1234567, "bootstrap_summary": {"details": {"thread_count": 0, "latest_rendered_transcript": ""}}}"#);
    let payload =
        restore_payload(&r, &continuity, &current_line_handoff(), &blank_pack_restore(), &current_line_chat_start());
    assert_blank_pack(&payload);
}

#[test]
fn continuity_startup_payload_normalizes_blank_working_state_projection() {
    let r = art();
    let continuity = parse(
        r#"{"imported_at_epoch_ms": 1234567, "documents_imported": 1, "bootstrap_summary": {"details": {"thread_count": 0, "latest_rendered_transcript": ""}}}"#,
    );
    let payload = startup(&r, &continuity, &current_line_handoff(), Some(&blank_working_restore()));
    assert_blank_working_state(&payload);
}

#[test]
fn continuity_startup_payload_normalizes_blank_workspace_restore_pack_projection() {
    let r = art();
    let continuity = parse(
        r#"{"imported_at_epoch_ms": 1234567, "documents_imported": 1, "bootstrap_summary": {"details": {"thread_count": 0, "latest_rendered_transcript": ""}}}"#,
    );
    let payload = startup(&r, &continuity, &current_line_handoff(), Some(&blank_pack_restore()));
    assert_blank_pack(&payload);
}

#[test]
fn continuity_import_payload_normalizes_blank_active_workline_summary() {
    let details = normalized_handoff_summary_json(Some("   "), Some(""));
    assert_eq!(details, parse(r#"{"headline": "ещё нет данных", "next_step": "ещё нет данных"}"#));
}
