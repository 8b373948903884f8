use amai_continuity::chat_start::{NamespaceRecord, ProjectRecord};
use amai_continuity::json::{get, Json};
use amai_continuity::startup_payload::{
    build_continuity_startup_payload, continuity_startup_probes, StartupProbe,
};

static NULL: Json = Json::Null;

fn from_value(v: &serde_json::Value) -> Json {
    match v {
        serde_json::Value::Null => Json::Null,
        serde_json::Value::Bool(b) => Json::Bool(*b),
        serde_json::Value::Number(n) => Json::Number(n.as_i64().expect("integer") as i128),
        serde_json::Value::String(s) => Json::Str(s.clone()),
        serde_json::Value::Array(items) => Json::Array(items.iter().map(from_value).collect()),
        serde_json::Value::Object(m) => {
            Json::Object(m.iter().map(|(k, v)| (k.clone(), from_value(v))).collect())
        }
    }
}

fn parse(text: &str) -> Json {
    from_value(&serde_json::from_str(text).expect("json text"))
}

fn ix<'a>(j: &'a Json, key: &str) -> &'a Json {
    get(j, key).unwrap_or(&NULL)
}

fn s(t: &str) -> Json {
    Json::Str(t.to_string())
}

fn records() -> (ProjectRecord, NamespaceRecord) {
    (
        ProjectRecord {
            code: "art".to_string(),
            display_name: "Art".to_string(),
            repo_root: "/home/art/Art".to_string(),
        },
        NamespaceRecord { code: "continuity".to_string(), display_name: "Continuity".to_string() },
    )
}

fn restore() -> Json {
    parse(
        r#"{
            "working_state_restore": {
                "current_goal": "Goal",
                "next_step": "Step",
                "restore_confidence": "high",
                "state_lineage": {"authoritative_event_id": "event-1"},
                "workspace_restore_pack": {
                    "active_commitments": [],
                    "active_constraints": [],
                    "important_artifacts": [],
                    "procedural_restore_policy": {"raw_procedural_archive_forbidden": true, "materialized_surface": "card"},
                    "summary": " active(0) "
                }
            }
        }"#,
    )
}

fn chat_start() -> Json {
    parse(
        r#"{"chat_start_restore": {
            "headline": "Goal",
            "next_step": "Step",
            "prompt_text": "CHAT_START_RESTORE\nЛиния: Goal\nШаг: Step"
        }}"#,
    )
}

#[test]
fn startup_probes_gather_the_evidence_of_each_restore_layer() {
    let continuity = parse(
        r#"{"continuity_source_mode": "working_state_fallback", "continuity_source_namespace_code": " ns "}"#,
    );
    let handoff = parse(r#"{"headline": "Goal", "next_step": "Step"}"#);
    let probes = continuity_startup_probes(&continuity, &handoff, Some(&restore()), &chat_start());
    let names: Vec<&str> = probes.iter().map(|p| p.name.as_str()).collect();
    assert_eq!(
        names,
        vec![
            "startup_summary_recovered_useful",
            "chat_start_restore_recovered_useful",
            "working_state_restore_recovered_useful",
            "workspace_restore_pack_recovered_useful"
        ]
    );
    assert!(probes.iter().all(|p| p.expected_verdict_class == "recovered_useful"));
    let summary = &probes[0].details;
    assert_eq!(ix(summary, "expected_present"), &Json::Bool(true));
    assert_eq!(ix(summary, "continuity_source_namespace_code"), &s("ns"));
    assert_eq!(ix(summary, "imported_at_epoch_ms"), &Json::Null);
    assert_eq!(ix(&probes[1].details, "expected_present"), &Json::Bool(true));
    assert_eq!(ix(&probes[2].details, "authoritative_event_id"), &s("event-1"));
    assert_eq!(ix(&probes[2].details, "restore_confidence"), &s("high"));
    assert_eq!(ix(&probes[3].details, "expected_present"), &Json::Bool(true));
    assert_eq!(ix(&probes[3].details, "summary"), &s("active(0)"));
    assert_eq!(ix(&probes[3].details, "procedural_surface"), &s("card"));
}

#[test]
fn startup_probes_expect_under_retrieval_without_a_restore() {
    let continuity = parse(r#"{"imported_at_epoch_ms": 5, "documents_imported": 0}"#);
    let handoff = parse(r#"{"headline": "Goal"}"#);
    let stale_prompt = parse(
        r#"{"chat_start_restore": {"headline": "Goal", "next_step": "Step", "prompt_text": "CHAT_START_RESTORE\nЛиния: Other"}}"#,
    );
    let probes = continuity_startup_probes(&continuity, &handoff, None, &stale_prompt);
    assert_eq!(ix(&probes[0].details, "expected_present"), &Json::Bool(false));
    assert_eq!(ix(&probes[0].details, "next_step"), &s("ещё нет данных"));
    assert_eq!(ix(&probes[1].details, "expected_present"), &Json::Bool(false));
    assert_eq!(probes[2].expected_verdict_class, "under_retrieved");
    assert_eq!(probes[3].expected_verdict_class, "under_retrieved");
    assert_eq!(ix(&probes[2].details, "current_goal"), &Json::Null);
}

fn judge(probes: &Vec<StartupProbe>) -> Json {
    Json::Array(probes.iter().map(|p| Json::Str(p.name.clone())).collect())
}

#[test]
fn startup_payload_carries_the_restore_layers_and_the_judged_probes() {
    let (project, namespace) = records();
    let continuity = parse(
        r#"{"imported_at_epoch_ms": 10, "documents_imported": 2, "rendered_transcript_files": 1, "continuity_source_mode": "   "}"#,
    );
    let handoff = parse(r#"{"headline": "  ", "next_step": ""}"#);
    let payload = build_continuity_startup_payload(
        &project,
        &namespace,
        &continuity,
        &handoff,
        Some(&restore()),
        &chat_start(),
        &judge,
        s("science"),
        s("policy"),
    );
    let startup = ix(&payload, "continuity_startup");
    assert_eq!(ix(ix(startup, "project"), "repo_root"), &s("/home/art/Art"));
    assert_eq!(ix(startup, "documents_imported"), &Json::Number(2));
    assert_eq!(ix(ix(startup, "continuity_source"), "mode"), &Json::Null);
    assert_eq!(ix(ix(startup, "continuity_source"), "source_namespace_code"), &Json::Null);
    assert_eq!(ix(ix(startup, "handoff_summary"), "headline"), &s("ещё нет данных"));
    assert_eq!(ix(ix(startup, "handoff_summary"), "next_step"), &s("ещё нет данных"));
    assert_eq!(
        ix(startup, "canonical_eval"),
        &Json::Array(vec![
            s("startup_summary_recovered_useful"),
            s("chat_start_restore_recovered_useful"),
            s("working_state_restore_recovered_useful"),
            s("workspace_restore_pack_recovered_useful"),
        ])
    );
    assert_eq!(ix(&payload, "chat_start_restore"), ix(&chat_start(), "chat_start_restore"));
    assert_eq!(ix(&payload, "delivery_surface_restore"), ix(&chat_start(), "chat_start_restore"));
    assert_eq!(ix(ix(&payload, "working_state_restore"), "current_goal"), &s("Goal"));
    assert_eq!(ix(ix(&payload, "workspace_restore_pack"), "summary"), &s("active(0)"));
    assert_eq!(ix(&payload, "retrieval_science"), &s("science"));
    assert_eq!(ix(&payload, "degradation_policy"), &s("policy"));

    let bare = build_continuity_startup_payload(
        &project,
        &namespace,
        &continuity,
        &handoff,
        None,
        &chat_start(),
        &judge,
        Json::Null,
        Json::Null,
    );
    assert!(get(&bare, "working_state_restore").is_none());
    assert!(get(&bare, "workspace_restore_pack").is_none());
}

#[test]
fn restore_payload_probes_the_prompt_working_state_and_pack() {
    let (project, namespace) = records();
    let restore = parse(
        r#"{
            "working_state_restore": {"current_goal": "Goal", "next_step": "", "state_lineage": {"authoritative_event_id": "e"}},
            "workspace_restore_pack": {"active_commitments": [], "active_constraints": [], "important_artifacts": [], "summary": "own"}
        }"#,
    );
    let handoff = parse(r#"{"headline": "Goal", "next_step": "Step"}"#);
    let payload = amai_continuity::startup_payload::build_continuity_restore_payload(
        &project,
        &namespace,
        &parse(r#"{"imported_at_epoch_ms": 7}"#),
        &handoff,
        &restore,
        &chat_start(),
        &judge,
        s("science"),
        s("policy"),
    );
    let section = ix(&payload, "continuity_restore");
    assert_eq!(ix(section, "imported_at_epoch_ms"), &Json::Number(7));
    assert_eq!(ix(ix(section, "handoff_summary"), "next_step"), &s("Step"));
    assert_eq!(
        ix(section, "canonical_eval"),
        &Json::Array(vec![
            s("chat_start_restore_recovered_useful"),
            s("working_state_restore_recovered_useful"),
            s("workspace_restore_pack_recovered_useful"),
        ])
    );
    assert_eq!(ix(ix(&payload, "workspace_restore_pack"), "summary"), &s("own"));
    let probes = amai_continuity::startup_payload::continuity_restore_probes(&restore, &chat_start());
    assert_eq!(ix(&probes[0].details, "expected_present"), &Json::Bool(true));
    assert_eq!(ix(&probes[1].details, "expected_present"), &Json::Bool(false));
    assert_eq!(ix(&probes[1].details, "next_step"), &Json::Null);
    assert_eq!(ix(&probes[2].details, "expected_present"), &Json::Bool(false));
}
