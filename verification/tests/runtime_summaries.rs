use amai_continuity::json::{get, Json, ObjectBuilder};
use amai_continuity::runtime_summaries::{
    client_limits_surface_label, continuity_decision_trace_summary, continuity_with_source_metadata,
    summarize_recent_actions, summarize_string_list, synthetic_continuity_from_runtime,
};

fn obj(entries: Vec<(&str, Json)>) -> Json {
    let mut b = ObjectBuilder::new();
    for (k, v) in entries {
        b.push(k, v);
    }
    b.build()
}

fn s(t: &str) -> Json {
    Json::Str(t.to_string())
}

fn at<'a>(j: &'a Json, path: &[&str]) -> Option<&'a Json> {
    let mut cur = j;
    for key in path {
        cur = get(cur, key)?;
    }
    Some(cur)
}

fn is_null(j: &Json, path: &[&str]) -> bool {
    matches!(at(j, path), None | Some(Json::Null))
}

#[test]
fn synthetic_continuity_from_runtime_preserves_missing_counts_as_null() {
    let handoff = obj(vec![("headline", s("   ")), ("next_step", s(""))]);

    let continuity = synthetic_continuity_from_runtime("continuity", Some(&handoff), None);

    assert!(is_null(&continuity, &["documents_imported"]));
    assert!(is_null(&continuity, &["rendered_transcript_files"]));
    assert!(is_null(&continuity, &["session_memory_files"]));
    assert!(is_null(&continuity, &["bootstrap_summary", "details", "thread_count"]));
    assert!(is_null(
        &continuity,
        &["bootstrap_summary", "details", "latest_rendered_transcript"]
    ));
    assert!(is_null(&continuity, &["active_workline_summary", "details", "headline"]));
    assert!(is_null(&continuity, &["active_workline_summary", "details", "next_step"]));
}

#[test]
fn synthetic_continuity_falls_back_to_the_working_state_restore() {
    let restore = obj(vec![(
        "working_state_restore",
        obj(vec![("current_goal", s("  ship the release  ")), ("next_step", s("run the suite"))]),
    )]);
    let continuity = synthetic_continuity_from_runtime("continuity", None, Some(&restore));
    assert_eq!(
        at(&continuity, &["active_workline_summary", "details", "headline"]),
        Some(&s("ship the release"))
    );
    assert_eq!(
        at(&continuity, &["continuity_source_mode"]),
        Some(&s("working_state_fallback"))
    );
    assert_eq!(
        at(&continuity, &["continuity_source_namespace_code"]),
        Some(&s("continuity"))
    );
    assert!(matches!(
        at(&continuity, &["active_workline_summary", "details", "next_step"]),
        Some(Json::Str(_))
    ));
}

#[test]
fn synthetic_continuity_prefers_the_handoff_headline() {
    let handoff = obj(vec![("headline", s("from handoff"))]);
    let restore = obj(vec![(
        "working_state_restore",
        obj(vec![("current_goal", s("from restore"))]),
    )]);
    let continuity = synthetic_continuity_from_runtime("ns", Some(&handoff), Some(&restore));
    assert_eq!(
        at(&continuity, &["active_workline_summary", "details", "headline"]),
        Some(&s("from handoff"))
    );
}

#[test]
fn source_metadata_is_added_to_objects_only() {
    let marked = continuity_with_source_metadata(obj(vec![("a", s("b"))]), "imported", "continuity");
    assert_eq!(
        marked,
        obj(vec![
            ("a", s("b")),
            ("continuity_source_mode", s("imported")),
            ("continuity_source_namespace_code", s("continuity")),
        ])
    );
    assert_eq!(continuity_with_source_metadata(s("x"), "imported", "c"), s("x"));
    let replaced = continuity_with_source_metadata(
        obj(vec![("continuity_source_mode", s("old"))]),
        "new",
        "c",
    );
    assert_eq!(at(&replaced, &["continuity_source_mode"]), Some(&s("new")));
}

#[test]
fn recent_actions_take_the_first_two_headlines_or_summaries() {
    let actions = Json::Array(vec![
        obj(vec![("headline", s("  first  "))]),
        obj(vec![("headline", s(" ")), ("summary", s("second"))]),
        obj(vec![("headline", s("third"))]),
    ]);
    assert_eq!(summarize_recent_actions(&actions), Some("first; second".to_string()));
    assert_eq!(summarize_recent_actions(&Json::Array(vec![obj(vec![])])), None);
    assert_eq!(summarize_recent_actions(&s("not a list")), None);
}

#[test]
fn string_list_keeps_up_to_the_limit_of_non_blank_strings() {
    let list = Json::Array(vec![s(" a "), s(""), Json::Number(3), s("b"), s("c")]);
    assert_eq!(summarize_string_list(&list, 2), Some("a; b".to_string()));
    assert_eq!(summarize_string_list(&list, 10), Some("a; b; c".to_string()));
    assert_eq!(summarize_string_list(&list, 0), None);
    assert_eq!(summarize_string_list(&Json::Null, 3), None);
}

#[test]
fn decision_trace_summary_describes_the_first_three_steps() {
    let trace = obj(vec![(
        "steps",
        Json::Array(vec![
            obj(vec![
                ("strategy", s("lexical_chunks")),
                ("count", Json::Number(4)),
                ("reason", s(" matched words ")),
            ]),
            obj(vec![("strategy", s("other")), ("count", Json::Number(0)), ("reason", s("none left"))]),
            obj(vec![("strategy", s("skipped")), ("reason", s("   "))]),
            obj(vec![("strategy", s("fourth")), ("reason", s("too late"))]),
        ]),
    )]);
    assert_eq!(
        continuity_decision_trace_summary(Some(&trace), "steps"),
        Some("текстовые фрагменты (4) — matched words • other — none left".to_string())
    );
    assert_eq!(continuity_decision_trace_summary(Some(&trace), "missing"), None);
    assert_eq!(continuity_decision_trace_summary(None, "steps"), None);
}

#[test]
fn client_limits_label_follows_the_live_meter_binding() {
    let live = obj(vec![("client_limits", s("5h: 40%"))]);
    assert_eq!(client_limits_surface_label(&live), "Лимит клиента сейчас");
    let unbound = obj(vec![("client_live_meter_current_thread_bound", Json::Bool(false))]);
    assert_eq!(client_limits_surface_label(&unbound), "Последний observed лимит клиента");
    let no_binding = obj(vec![(
        "client_live_meter_thread_binding_state",
        s("no_current_thread_binding"),
    )]);
    assert_eq!(client_limits_surface_label(&no_binding), "Последний observed лимит клиента");
    let observed = obj(vec![("client_limits", s("  последнее observed: 5h 10%"))]);
    assert_eq!(client_limits_surface_label(&observed), "Последний observed лимит клиента");
}
