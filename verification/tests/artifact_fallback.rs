use amai_continuity::artifact_fallback::{
    compact_chat_payload_from_runtime_artifact, runtime_artifact_prompt_text,
};
use amai_continuity::json::{get, Json};

fn from_value(v: &serde_json::Value) -> Json {
    match v {
        serde_json::Value::Null => Json::Null,
        serde_json::Value::Bool(b) => Json::Bool(*b),
        serde_json::Value::Number(n) => Json::Number(n.as_i64().expect("integer") as i128),
        serde_json::Value::String(s) => Json::Str(s.clone()),
        serde_json::Value::Array(items) => Json::Array(items.iter().map(from_value).collect()),
        serde_json::Value::Object(m) => {
            Json::Object(m.iter().map(|(k, v)| (k.clone(), from_value(v))).collect())
        }
    }
}

fn parse(text: &str) -> Json {
    from_value(&serde_json::from_str(text).expect("json text"))
}

fn ix<'a>(j: &'a Json, key: &str) -> &'a Json {
    get(j, key).expect("field present")
}

fn is_null_or_missing(j: &Json, key: &str) -> bool {
    matches!(get(j, key), None | Some(Json::Null))
}

fn s(t: &str) -> Json {
    Json::Str(t.to_string())
}

fn unknown_client() -> Json {
    parse(
        r#"{
            "client_key": "unknown",
            "display_name": "Unknown client",
            "startup_instruction_path": null,
            "startup_instruction_mode": null
        }"#,
    )
}

fn no_launch() -> Json {
    parse(r#"{"launch_clean_chat_command": null, "launch_clean_chat_fallback_command": null, "command_kind": null}"#)
}

#[test]
fn compact_chat_runtime_fallback_preserves_missing_scope_as_null() {
    let artifact = parse(
        r#"{
            "artifact_version": "amai-startup-runtime-state/v1",
            "chat_start_restore": {"prompt_text": "   "},
            "reply_execution_gate": {"reply_prefix": "5ч KPI: переплата 2.46%"},
            "continuity_startup_summary": {
                "project_code": "   ",
                "namespace_code": "",
                "headline": "   ",
                "next_step": ""
            }
        }"#,
    );
    let prompt = runtime_artifact_prompt_text(&artifact);
    assert!(prompt.is_none());
    let payload = compact_chat_payload_from_runtime_artifact(
        "/tmp/amai-compact-runtime-fallback",
        &artifact,
        prompt.as_deref(),
        &unknown_client(),
        &no_launch(),
        None,
        &Json::Null,
    );
    let compact = ix(&payload, "continuity_compact_chat");
    assert_eq!(ix(compact, "source_mode"), &s("startup_runtime_artifact_fallback"));
    assert!(is_null_or_missing(ix(compact, "project"), "code"));
    assert!(is_null_or_missing(ix(compact, "project"), "display_name"));
    assert!(is_null_or_missing(ix(compact, "namespace"), "code"));
    assert!(is_null_or_missing(ix(compact, "namespace"), "display_name"));
    assert!(is_null_or_missing(ix(compact, "operator_flow"), "startup_command"));
}

#[test]
fn runtime_fallback_with_scope_offers_the_startup_command() {
    let artifact = parse(
        r#"{
            "chat_start_restore": {"prompt_text": "CHAT_START_RESTORE\nЛиния: Goal"},
            "reply_execution_gate": {"reply_prefix": "prefix"},
            "startup_next_action": {"kind": "resume"},
            "continuity_startup_summary": {
                "project_code": " amai ",
                "namespace_code": "continuity",
                "headline": " Goal ",
                "next_step": "Step"
            }
        }"#,
    );
    let prompt = runtime_artifact_prompt_text(&artifact);
    assert_eq!(prompt.as_deref(), Some("CHAT_START_RESTORE\nЛиния: Goal"));
    let payload = compact_chat_payload_from_runtime_artifact(
        "/home/art/My Repo",
        &artifact,
        Some("/tmp/prompt.md"),
        &unknown_client(),
        &no_launch(),
        Some("thread-1"),
        &Json::Null,
    );
    let compact = ix(&payload, "continuity_compact_chat");
    assert_eq!(ix(ix(compact, "project"), "code"), &s("amai"));
    assert_eq!(ix(ix(compact, "project"), "display_name"), &s("amai"));
    assert_eq!(ix(ix(compact, "project"), "repo_root"), &s("/home/art/My Repo"));
    assert_eq!(ix(ix(compact, "namespace"), "code"), &s("continuity"));
    assert_eq!(
        ix(ix(compact, "operator_flow"), "startup_command"),
        &s("amai continuity startup --project amai --namespace continuity --repo-root '/home/art/My Repo' --token-source-kind live_continuity_startup --json")
    );
    assert_eq!(ix(ix(compact, "handoff"), "headline"), &s("Goal"));
    assert_eq!(ix(ix(compact, "handoff"), "next_step"), &s("Step"));
    assert_eq!(ix(compact, "startup_next_action"), &parse(r#"{"kind": "resume"}"#));
    assert!(get(compact, "client_budget_guard").is_none());
    assert!(get(compact, "startup_execution_gate").is_none());
    let notice = ix(compact, "operator_notice");
    assert_eq!(ix(notice, "kind"), &s("client_budget_compact_chat_requested"));
    assert_eq!(ix(notice, "exact_chat_command"), &s("компакт_чат"));
    assert_eq!(ix(notice, "reply_prefix"), &s("prefix"));
    assert_eq!(ix(notice, "thread_id"), &s("thread-1"));
    assert_eq!(ix(notice, "prompt_file"), &s("/tmp/prompt.md"));
    assert_eq!(ix(notice, "launch_clean_chat_command_kind"), &Json::Null);
    match ix(notice, "manual_fallback_steps") {
        Json::Array(steps) => assert!(!steps.is_empty()),
        other => panic!("steps are not an array: {:?}", other),
    }
}

#[test]
fn runtime_fallback_names_the_launch_kind_only_with_a_launch_command() {
    let artifact = parse(r#"{"continuity_startup_summary": {}}"#);
    let launch = parse(
        r#"{"launch_clean_chat_command": "code --new-window", "launch_clean_chat_fallback_command": "open", "command_kind": "vscode"}"#,
    );
    let payload = compact_chat_payload_from_runtime_artifact(
        "/repo",
        &artifact,
        None,
        &unknown_client(),
        &launch,
        None,
        &Json::Null,
    );
    let notice = ix(ix(&payload, "continuity_compact_chat"), "operator_notice");
    assert_eq!(ix(notice, "launch_clean_chat_command"), &s("code --new-window"));
    assert_eq!(ix(notice, "launch_clean_chat_fallback_command"), &s("open"));
    assert_eq!(ix(notice, "launch_clean_chat_command_kind"), &s("vscode"));
    assert_eq!(ix(notice, "clean_chat_launch"), &launch);
}
