use amai_continuity::answer::{ChatTail, ThreadTimeSliceSummary, TranscriptMessage};
use amai_continuity::answer_payload::{build_blocked_continuity_answer_payload, build_continuity_answer_payload};
use amai_continuity::answer_probe::build_continuity_answer_probe;
use amai_continuity::chat_start::{NamespaceRecord, ProjectRecord};
use amai_continuity::direct_answer::render_direct_answer;
use amai_continuity::json::{get, Json, ObjectBuilder};
use amai_continuity::self_checks::{
    continuity_replay_guard_probes, continuity_temporal_lookup_probes, degradation_proof_scenarios,
};
use amai_continuity::startup_payload::StartupProbe;

/// The blocking reply that a rotate-only contract asks for (a stand-in text).
const ROTATE_BLOCKING_REPLY: &str = "Сначала сожми текущий чат: компакт_чат";

fn from_value(v: &serde_json::Value) -> Json {
    match v {
        serde_json::Value::Null => Json::Null,
        serde_json::Value::Bool(b) => Json::Bool(*b),
        serde_json::Value::Number(n) => Json::Number(n.as_i64().expect("integer") as i128),
        serde_json::Value::String(s) => Json::Str(s.clone()),
        serde_json::Value::Array(items) => Json::Array(items.iter().map(from_value).collect()),
        serde_json::Value::Object(m) => {
            Json::Object(m.iter().map(|(k, v)| (k.clone(), from_value(v))).collect())
        }
    }
}

fn parse(text: &str) -> Json {
    from_value(&serde_json::from_str(text).expect("json text"))
}

fn ix<'a>(j: &'a Json, key: &str) -> &'a Json {
    static NULL: Json = Json::Null;
    get(j, key).unwrap_or(&NULL)
}

fn s(t: &str) -> Json {
    Json::Str(t.to_string())
}

fn flag(j: &Json, key: &str) -> bool {
    matches!(ix(j, key), Json::Bool(true))
}

fn compact_wording(label: &str) -> String {
    match label {
        "новый чат нужен сейчас" => "сожми текущий чат сейчас".to_string(),
        "новый чат рекомендован" => "сожми текущий чат".to_string(),
        other => other.to_string(),
    }
}

/// A stand-in for the eval layer: a recovery probe is `recovered_useful` when it found
/// what it expected and nothing stale, a boundary probe is `hit_correct_target` when it
/// failed closed cleanly; the judgement counts the verdicts by class.
fn judge(probes: &Vec<StartupProbe>) -> Json {
    let mut counts: Vec<(String, i128)> = Vec::new();
    for p in probes {
        let d = &p.details;
        let class = if p.expected_verdict_class == "hit_correct_target" {
            if flag(d, "boundary_clean") && flag(d, "fail_closed_ok") && !flag(d, "unexpected_present") {
                "hit_correct_target"
            } else {
                "boundary_violation"
            }
        } else if flag(d, "expected_present") && !flag(d, "unexpected_present") {
            "recovered_useful"
        } else {
            "missed"
        };
        match counts.iter_mut().find(|(k, _)| k == class) {
            Some((_, n)) => *n += 1,
            None => counts.push((class.to_string(), 1)),
        }
    }
    let mut vc = ObjectBuilder::new();
    for (k, n) in counts {
        vc.push(&k, Json::Number(n));
    }
    let mut b = ObjectBuilder::new();
    b.push("verdict_counts", vc.build());
    b.build()
}

fn science() -> Json {
    parse(r#"{"suite_key": "continuity_answer"}"#)
}

fn records() -> (ProjectRecord, NamespaceRecord) {
    (
        ProjectRecord {
            code: "art".to_string(),
            display_name: "Art".to_string(),
            repo_root: "/home/art/Art".to_string(),
        },
        NamespaceRecord { code: "continuity".to_string(), display_name: "Continuity".to_string() },
    )
}

fn project_handoff() -> Json {
    parse(r#"{"headline": "Current project line", "next_step": "Current project next step."}"#)
}

fn rotate_guard() -> Json {
    let mut contract = ObjectBuilder::new();
    contract.push("response_kind", s("rotate_chat_only"));
    contract.push("template", s(ROTATE_BLOCKING_REPLY));
    let mut gate = ObjectBuilder::new();
    gate.push("must_rotate_before_reply", Json::Bool(true));
    gate.push("blocking_reply_contract", contract.build());
    let mut guard = ObjectBuilder::new();
    guard.push("status_label", s("сожми текущий чат сейчас"));
    guard.push("should_rotate_chat_now", Json::Bool(true));
    guard.push("reply_execution_gate", gate.build());
    guard.build()
}

#[test]
fn continuity_answer_json_marks_last_chat_as_recovered_useful() {
    let (project, namespace) = records();
    let handoff = parse(
        r#"{"headline": "Temporal lookup materialized", "next_step": "Проверить lookup по точному времени на реальном новом чате."}"#,
    );
    let restore = parse(
        r#"{
            "working_state_restore": {
                "materialized_notes": ["temporal lookup materialized"],
                "recent_actions": [],
                "active_files": ["src/continuity.rs"],
                "restore_confidence": "high",
                "latest_decision_trace": {
                    "included": [{"strategy": "exact_documents", "count": 1, "reason": "Нашлись точные совпадения по continuity."}],
                    "not_included": [{"strategy": "semantic_chunks", "reason": "Semantic layer честно abstained и не добавил фрагменты."}]
                }
            }
        }"#,
    );
    let answer = render_direct_answer(&handoff, Some(&restore), None, "last_chat", None, 1, &compact_wording);
    let payload = build_continuity_answer_payload(
        &project,
        &namespace,
        &handoff,
        Some(&restore),
        None,
        "last_chat",
        Some("на чем остановились"),
        None,
        None,
        2,
        false,
        1,
        &answer,
        &judge,
        science(),
        s("policy"),
    );
    let a = ix(&payload, "continuity_answer");
    assert_eq!(ix(ix(ix(a, "canonical_eval"), "verdict_counts"), "recovered_useful"), &Json::Number(1));
    assert_eq!(ix(ix(&payload, "retrieval_science"), "suite_key"), &s("continuity_answer"));
    assert_eq!(
        ix(a, "included_reasons_summary"),
        &s("точные совпадения (1) — Нашлись точные совпадения по continuity.")
    );
    assert!(matches!(ix(ix(a, "chat_lookup"), "messages_count"), Json::Null));
    match ix(a, "answer_text") {
        Json::Str(t) => assert!(t.contains("Почему вошёл текущий контекст:")),
        other => panic!("answer text is not a string: {:?}", other),
    }
}

fn continuity_tail() -> ChatTail {
    ChatTail {
        thread_id: "thread-2".to_string(),
        title: "чат про continuity".to_string(),
        summary_headline: Some("Закончили на temporal contour.".to_string()),
        summary_next_step: Some("Проверить новый чат ещё раз.".to_string()),
        selected_time_slice: None,
        messages: vec![TranscriptMessage {
            role: "assistant".to_string(),
            text: "Закончили на temporal contour.".to_string(),
        }],
    }
}

#[test]
fn continuity_answer_json_marks_previous_chat_as_recovered_useful() {
    let (project, namespace) = records();
    let handoff = project_handoff();
    let chat_tail = continuity_tail();
    let answer = render_direct_answer(&handoff, None, Some(&chat_tail), "previous_chat", None, 1, &compact_wording);
    let payload = build_continuity_answer_payload(
        &project,
        &namespace,
        &handoff,
        None,
        Some(&chat_tail),
        "previous_chat",
        Some("что было в прошлом чате"),
        Some("previous"),
        None,
        2,
        true,
        1,
        &answer,
        &judge,
        science(),
        s("policy"),
    );
    let a = ix(&payload, "continuity_answer");
    assert_eq!(ix(ix(ix(a, "canonical_eval"), "verdict_counts"), "recovered_useful"), &Json::Number(1));
    assert_eq!(ix(ix(a, "chat_lookup"), "found"), &Json::Bool(true));
    assert_eq!(ix(ix(a, "chat_lookup"), "thread_id"), &s("thread-2"));
    assert_eq!(ix(ix(a, "chat_lookup"), "messages_count"), &Json::Number(1));
}

#[test]
fn continuity_answer_payload_normalizes_empty_projection_text_fields() {
    let (project, namespace) = records();
    let handoff = parse(r#"{"headline": "   ", "next_step": ""}"#);
    let chat_tail = ChatTail {
        thread_id: "thread-2".to_string(),
        title: "чат про continuity".to_string(),
        summary_headline: Some("   ".to_string()),
        summary_next_step: Some(String::new()),
        selected_time_slice: Some(ThreadTimeSliceSummary {
            started_at: "2026-03-21T12:00:00Z".to_string(),
            ended_at: "2026-03-21T12:05:00Z".to_string(),
            started_at_epoch_s: 1,
            ended_at_epoch_s: 2,
            summary_headline: "   ".to_string(),
            summary_next_step: String::new(),
            user_anchor: "пользователь спросил".to_string(),
            assistant_anchor: "агент ответил".to_string(),
        }),
        messages: vec![TranscriptMessage {
            role: "assistant".to_string(),
            text: "Закончили на temporal contour.".to_string(),
        }],
    };
    let payload = build_continuity_answer_payload(
        &project,
        &namespace,
        &handoff,
        None,
        Some(&chat_tail),
        "previous_chat",
        Some("что было в прошлом чате"),
        Some("previous"),
        None,
        2,
        true,
        1,
        "answer",
        &judge,
        science(),
        s("policy"),
    );
    let a = ix(&payload, "continuity_answer");
    assert_eq!(ix(ix(a, "handoff_summary"), "headline"), &s("ещё нет данных"));
    assert_eq!(ix(ix(a, "handoff_summary"), "next_step"), &s("ещё нет данных"));
    assert_eq!(ix(ix(a, "chat_lookup"), "summary_headline"), &Json::Null);
    assert_eq!(ix(ix(a, "chat_lookup"), "summary_next_step"), &Json::Null);
    assert_eq!(ix(ix(ix(a, "chat_lookup"), "selected_time_slice"), "summary_headline"), &Json::Null);
    assert_eq!(ix(ix(ix(a, "chat_lookup"), "selected_time_slice"), "summary_next_step"), &Json::Null);
}

#[test]
fn continuity_answer_json_marks_missing_exact_time_as_fail_closed_hit() {
    let (project, namespace) = records();
    let handoff = project_handoff();
    let answer = render_direct_answer(
        &handoff,
        None,
        None,
        "chat_at_time",
        Some("2099-01-01T12:00:00Z"),
        1,
        &compact_wording,
    );
    let payload = build_continuity_answer_payload(
        &project,
        &namespace,
        &handoff,
        None,
        None,
        "chat_at_time",
        Some("что было в прошлую среду"),
        None,
        Some("2099-01-01T12:00:00Z"),
        2,
        true,
        1,
        &answer,
        &judge,
        science(),
        s("policy"),
    );
    let a = ix(&payload, "continuity_answer");
    assert_eq!(ix(ix(ix(a, "canonical_eval"), "verdict_counts"), "hit_correct_target"), &Json::Number(1));
}

#[test]
fn continuity_answer_blocked_payload_surfaces_rotate_only_contract() {
    let (project, namespace) = records();
    let handoff = project_handoff();
    let restore = parse(r#"{"working_state_restore": {"latest_decision_trace": {"included": [], "not_included": []}}}"#);
    let guard = rotate_guard();
    let payload = build_blocked_continuity_answer_payload(
        &project,
        &namespace,
        &handoff,
        Some(&restore),
        "last_chat",
        Some("на чем остановились"),
        None,
        None,
        2,
        false,
        1,
        ROTATE_BLOCKING_REPLY,
        &guard,
        "Ответ заблокирован.",
        "live_continuity_startup",
        &judge,
        science(),
        s("policy"),
    );
    let a = ix(&payload, "continuity_answer");
    assert_eq!(ix(a, "blocked_by_client_budget_guard"), &Json::Bool(true));
    assert_eq!(ix(ix(a, "blocking_reply_contract"), "response_kind"), &s("rotate_chat_only"));
    assert_eq!(ix(ix(ix(a, "canonical_eval"), "verdict_counts"), "hit_correct_target"), &Json::Number(1));
}

#[test]
fn blocked_continuity_answer_payload_normalizes_empty_handoff_summary() {
    let (project, namespace) = records();
    let handoff = parse(r#"{"headline": "   ", "next_step": ""}"#);
    let payload = build_blocked_continuity_answer_payload(
        &project,
        &namespace,
        &handoff,
        None,
        "last_chat",
        Some("на чем остановились"),
        None,
        None,
        2,
        false,
        1,
        ROTATE_BLOCKING_REPLY,
        &rotate_guard(),
        "Ответ заблокирован.",
        "live_continuity_startup",
        &judge,
        science(),
        s("policy"),
    );
    let a = ix(&payload, "continuity_answer");
    assert_eq!(ix(ix(a, "handoff_summary"), "headline"), &s("ещё нет данных"));
    assert_eq!(ix(ix(a, "handoff_summary"), "next_step"), &s("ещё нет данных"));
}

#[test]
fn blocked_answer_probe_uses_the_default_reply_without_a_contract_template() {
    let (project, namespace) = records();
    let guard = parse(r#"{"reply_execution_gate": {"must_rotate_before_reply": true, "blocking_reply_contract": {"template": "  "}}}"#);
    let payload = build_blocked_continuity_answer_payload(
        &project,
        &namespace,
        &project_handoff(),
        None,
        "last_chat",
        None,
        None,
        None,
        0,
        false,
        0,
        "  Ответ заблокирован.\n",
        &guard,
        "Ответ заблокирован.",
        "live_continuity_startup",
        &judge,
        science(),
        s("policy"),
    );
    let a = ix(&payload, "continuity_answer");
    assert_eq!(ix(ix(ix(a, "canonical_eval"), "verdict_counts"), "hit_correct_target"), &Json::Number(1));
    assert_eq!(ix(ix(a, "chat_lookup"), "found"), &Json::Bool(false));
    assert_eq!(ix(a, "restore_present"), &Json::Bool(false));
}

#[test]
fn answer_probe_flags_a_stale_project_line_in_place_of_the_previous_chat() {
    let handoff = project_handoff();
    let tail = continuity_tail();
    let probe = build_continuity_answer_probe(
        &handoff,
        Some(&tail),
        "previous_chat",
        None,
        1,
        "Current project line\nничего о прошлом чате",
    );
    assert_eq!(probe.name, "previous_chat_answer_recovered_useful");
    assert_eq!(ix(&probe.details, "expected_present"), &Json::Bool(false));
    assert_eq!(ix(&probe.details, "unexpected_present"), &Json::Bool(true));
    assert_eq!(ix(&probe.details, "offset"), &Json::Number(1));
}

#[test]
fn answer_probe_for_other_intents_checks_the_project_line() {
    let probe = build_continuity_answer_probe(
        &project_handoff(),
        None,
        "last_chat",
        None,
        0,
        "Current project line. Current project next step.",
    );
    assert_eq!(probe.name, "continuity_answer_recovered_useful");
    assert_eq!(probe.expected_verdict_class, "recovered_useful");
    assert_eq!(ix(&probe.details, "expected_present"), &Json::Bool(true));
    assert_eq!(ix(&probe.details, "intent"), &s("last_chat"));
}

#[test]
fn continuity_temporal_lookup_probes_cover_useful_and_fail_closed_paths() {
    let probes = continuity_temporal_lookup_probes();
    assert_eq!(probes.len(), 4);
    let summary = judge(&probes);
    assert_eq!(ix(ix(&summary, "verdict_counts"), "recovered_useful"), &Json::Number(2));
    assert_eq!(ix(ix(&summary, "verdict_counts"), "hit_correct_target"), &Json::Number(2));
}

#[test]
fn degradation_proof_scenarios_cover_temporal_gap_classes() {
    // The temporal lookup over the partial thread index finds no chat for the moment.
    let scenarios = degradation_proof_scenarios(None);
    assert_eq!(scenarios.len(), 2);
    assert!(scenarios.iter().all(|scenario| ix(scenario, "status") == &s("pass")));
    assert!(scenarios.iter().any(|scenario| {
        ix(scenario, "class_key") == &s("partial_thread_index")
            && matches!(ix(ix(scenario, "details"), "answer"), Json::Str(t) if t.contains("нет точного совпадения"))
    }));
}

#[test]
fn degradation_scenario_is_critical_when_a_neighbouring_slice_is_substituted() {
    let tail = continuity_tail();
    let scenarios = degradation_proof_scenarios(Some(&tail));
    assert_eq!(ix(&scenarios[0], "status"), &s("pass"));
    assert_eq!(ix(&scenarios[1], "status"), &s("critical"));
    assert_eq!(
        ix(&scenarios[1], "reason"),
        &s("temporal lookup подменил неполный thread index случайным соседним chat slice.")
    );
}

#[test]
fn continuity_replay_guard_probes_are_recovered_useful() {
    let probes = continuity_replay_guard_probes().expect("probes");
    assert_eq!(probes.len(), 2);
    let summary = judge(&probes);
    assert_eq!(ix(ix(&summary, "verdict_counts"), "recovered_useful"), &Json::Number(2));
    assert_eq!(ix(&probes[0].details, "selected_headline"), &s("Fresh handoff"));
    assert_eq!(ix(&probes[1].details, "selected_semantic_epoch_ms"), &Json::Number(2000));
}
