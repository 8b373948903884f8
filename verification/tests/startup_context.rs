use amai_continuity::json::{get, Json};
use amai_continuity::startup_context::assemble_startup_context;

fn from_value(v: &serde_json::Value) -> Json {
    match v {
        serde_json::Value::Null => Json::Null,
        serde_json::Value::Bool(b) => Json::Bool(*b),
        serde_json::Value::Number(n) => Json::Number(n.as_i64().expect("integer") as i128),
        serde_json::Value::String(s) => Json::Str(s.clone()),
        serde_json::Value::Array(items) => Json::Array(items.iter().map(from_value).collect()),
        serde_json::Value::Object(m) => {
            Json::Object(m.iter().map(|(k, v)| (k.clone(), from_value(v))).collect())
        }
    }
}

fn parse(text: &str) -> Json {
    from_value(&serde_json::from_str(text).expect("json text"))
}

fn ix<'a>(j: &'a Json, key: &str) -> &'a Json {
    get(j, key).expect("field present")
}

fn s(t: &str) -> Json {
    Json::Str(t.to_string())
}

#[test]
fn startup_context_prefers_the_scoped_import_and_the_stored_handoff() {
    let scoped = parse(r#"{"continuity_import": {"documents_imported": 3, "active_workline_summary": {"details": {"headline": "Import line"}}}}"#);
    let handoff = parse(r#"{"headline": " Handoff line ", "next_step": "Do it."}"#);
    let restore = parse(r#"{"working_state_restore": {"current_goal": "Goal"}}"#);
    let (continuity, summary, kept) = assemble_startup_context(
        "art",
        "continuity",
        None,
        Some(&scoped),
        None,
        Some(&handoff),
        None,
        Some(&restore),
        None,
    )
    .expect("context");
    assert_eq!(ix(&continuity, "continuity_source_mode"), &s("scoped_import"));
    assert_eq!(ix(&continuity, "continuity_source_namespace_code"), &s("continuity"));
    assert_eq!(ix(&continuity, "documents_imported"), &Json::Number(3));
    assert_eq!(ix(&summary, "headline"), &s("Handoff line"));
    assert_eq!(ix(&summary, "next_step"), &s("Do it."));
    assert_eq!(kept, Some(restore));
}

#[test]
fn startup_context_falls_back_to_the_fallback_namespace_and_the_import_line() {
    let fallback = parse(r#"{"continuity_import": {"active_workline_summary": {"details": {"headline": "Import line", "next_step": "Import step."}}}}"#);
    let fallback_restore = parse(r#"{"working_state_restore": {}}"#);
    let (continuity, summary, kept) = assemble_startup_context(
        "art",
        "ops",
        Some("continuity"),
        None,
        Some(&fallback),
        None,
        None,
        None,
        Some(&fallback_restore),
    )
    .expect("context");
    assert_eq!(ix(&continuity, "continuity_source_mode"), &s("continuity_namespace_fallback_import"));
    assert_eq!(ix(&continuity, "continuity_source_namespace_code"), &s("continuity"));
    assert_eq!(ix(&summary, "headline"), &s("Import line"));
    assert_eq!(kept, Some(fallback_restore));
}

#[test]
fn startup_context_without_any_import_is_made_from_the_runtime_state() {
    let (continuity, summary, kept) =
        assemble_startup_context("art", "ops", None, None, None, None, None, None, None).expect("context");
    assert_eq!(ix(&continuity, "continuity_source_mode"), &s("working_state_fallback"));
    assert_eq!(ix(&summary, "headline"), &s("ещё нет данных"));
    assert!(kept.is_none());
}
