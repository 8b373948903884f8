use amai_continuity::json::{get, Json};
use amai_continuity::verification::{
    continuity_verification_failure_message, continuity_verification_outcome, continuity_verification_probes,
    conclude_continuity_verification, JudgedProbe,
};
use amai_continuity::chat_start::{NamespaceRecord, ProjectRecord};

fn from_value(v: &serde_json::Value) -> Json {
    match v {
        serde_json::Value::Null => Json::Null,
        serde_json::Value::Bool(b) => Json::Bool(*b),
        serde_json::Value::Number(n) => Json::Number(n.as_i64().expect("integer") as i128),
        serde_json::Value::String(s) => Json::Str(s.clone()),
        serde_json::Value::Array(items) => Json::Array(items.iter().map(from_value).collect()),
        serde_json::Value::Object(m) => {
            Json::Object(m.iter().map(|(k, v)| (k.clone(), from_value(v))).collect())
        }
    }
}

fn parse(text: &str) -> Json {
    from_value(&serde_json::from_str(text).expect("json text"))
}

fn ix<'a>(j: &'a Json, key: &str) -> &'a Json {
    get(j, key).expect("field present")
}

fn judged(name: &str, verdict: &str, expected: &str) -> JudgedProbe {
    JudgedProbe { name: name.to_string(), verdict_class: verdict.to_string(), expected_verdict_class: expected.to_string() }
}

#[test]
fn verification_probes_report_handoff_working_state_and_prompt() {
    let handoff = parse(r#"{"headline": " Line ", "next_step": "Step"}"#);
    let working = parse(r#"{"current_goal": "  ", "restore_confidence": "high"}"#);
    let pack = parse(r#"{"chat_start_restore": {"prompt_text": " CHAT_START_RESTORE "}}"#);
    let probes = continuity_verification_probes(&handoff, Some(&handoff), Some(&working), &pack);
    assert_eq!(probes.len(), 3);
    assert_eq!(probes[0].name, "handoff_summary_present");
    assert_eq!(ix(&probes[0].details, "expected_present"), &Json::Bool(true));
    assert_eq!(ix(&probes[0].details, "source"), &Json::Str("continuity_handoff".to_string()));
    assert_eq!(ix(&probes[0].details, "headline"), &Json::Str("Line".to_string()));
    assert_eq!(ix(&probes[1].details, "restore_confidence"), &Json::Str("high".to_string()));
    assert_eq!(ix(&probes[1].details, "current_goal"), &Json::Null);
    assert_eq!(ix(&probes[2].details, "prompt_length"), &Json::Number(18));

    let placeholder = parse(r#"{"headline": "ещё нет данных"}"#);
    let none = continuity_verification_probes(&placeholder, None, None, &Json::Null);
    assert_eq!(ix(&none[0].details, "expected_present"), &Json::Bool(false));
    assert_eq!(ix(&none[0].details, "source"), &Json::Str("continuity_import_fallback".to_string()));
    assert_eq!(ix(&none[1].details, "expected_present"), &Json::Bool(false));
    assert_eq!(ix(&none[2].details, "prompt_length"), &Json::Null);
}

#[test]
fn verification_outcome_lists_the_failing_probes() {
    let probes = vec![
        judged("a", "recovered_useful", "recovered_useful"),
        judged("b", "under_retrieved", "recovered_useful"),
        judged("c", "hit_correct_target", "hit_correct_target"),
        judged("d", "boundary_violation", "hit_correct_target"),
    ];
    let (failed, pass, verified) = continuity_verification_outcome(&probes);
    assert_eq!(
        failed,
        vec![
            "b=under_retrieved (expected recovered_useful)".to_string(),
            "d=boundary_violation (expected hit_correct_target)".to_string()
        ]
    );
    assert!(!pass);
    assert_eq!(verified, 2);
    assert_eq!(
        continuity_verification_failure_message(&failed),
        "continuity verification failed: b=under_retrieved (expected recovered_useful), d=boundary_violation (expected hit_correct_target)"
    );
    let (none, pass, verified) = continuity_verification_outcome(&vec![judged("a", "x", "x")]);
    assert!(none.is_empty());
    assert!(pass);
    assert_eq!(verified, 1);
}

fn records() -> (ProjectRecord, NamespaceRecord) {
    (
        ProjectRecord { code: "amai".to_string(), display_name: "Amai".to_string(), repo_root: "/r".to_string() },
        NamespaceRecord { code: "continuity".to_string(), display_name: "Continuity".to_string() },
    )
}

#[test]
fn verification_snapshot_records_a_critical_run_before_failing() {
    let (project, namespace) = records();
    let handoff = parse(r#"{"headline":"Port the chunker","next_step":"run check"}"#);
    let probes = vec![judged("a", "recovered_useful", "recovered_useful"), judged("b", "missed", "recovered_useful")];
    let (snapshot, result) = conclude_continuity_verification(
        "run-1",
        1700000000000,
        &project,
        &namespace,
        None,
        &handoff,
        None,
        parse(r#"{"prompt_text":"x"}"#),
        &probes,
        parse(r#"{"verdict":"critical"}"#),
        Json::Null,
        Json::Null,
    );
    assert_eq!(result, Err("continuity verification failed: b=missed (expected recovered_useful)".to_string()));
    let body = ix(&snapshot, "continuity_verification");
    assert_eq!(ix(body, "verification_status"), &Json::Str("critical".to_string()));
    assert_eq!(ix(body, "probe_count"), &Json::Number(2));
    assert_eq!(ix(body, "verified_probes"), &Json::Number(1));
    assert_eq!(ix(body, "handoff_summary_source"), &Json::Str("continuity_import_fallback".to_string()));
    assert_eq!(ix(body, "working_state_restore_present"), &Json::Bool(false));
    assert_eq!(ix(body, "working_state_restore"), &Json::Null);
    assert_eq!(
        ix(body, "failed_probes"),
        &Json::Array(vec![Json::Str("b=missed (expected recovered_useful)".to_string())])
    );
    let obs = ix(&snapshot, "_observability");
    assert_eq!(ix(obs, "source_event_id"), &Json::Str("run-1".to_string()));
    assert_eq!(ix(obs, "source_kind"), &Json::Str("continuity_verification_run".to_string()));
}

#[test]
fn verification_snapshot_records_a_passing_run() {
    let (project, namespace) = records();
    let handoff = parse(r#"{"headline":"h","next_step":"n"}"#);
    let probes = vec![judged("a", "recovered_useful", "recovered_useful")];
    let (snapshot, result) = conclude_continuity_verification(
        "run-2", 5, &project, &namespace, Some(&handoff), &handoff, None, Json::Null, &probes, Json::Null, Json::Null, Json::Null,
    );
    assert!(result.is_ok());
    let body = ix(&snapshot, "continuity_verification");
    assert_eq!(ix(body, "verification_status"), &Json::Str("pass".to_string()));
    assert_eq!(ix(body, "handoff_summary_source"), &Json::Str("continuity_handoff".to_string()));
    assert_eq!(ix(body, "failed_probes"), &Json::Array(vec![]));
}
