use amai_continuity::answer::{
    compact_prompt_fragment, continuity_answer_requires_live_reply_gate,
    extract_next_step_from_text, parse_chat_reference_spec, resolve_answer_intent,
};
use amai_continuity::handoff::{
    continuity_handoff_document_index_refresh_due_from_previous, is_meta_continuity_handoff,
    CONTINUITY_HANDOFF_DOCUMENT_INDEX_REFRESH_MIN_INTERVAL_MS,
};
use amai_continuity::labels::{
    format_compact_restore_prompt_text, format_optional_text_for_human,
    format_optional_text_for_prompt, format_optional_u64_for_human,
    format_optional_u64_for_prompt, format_project_scope_for_human, format_reply_prefix_for_human,
    format_startup_surface_label, is_meaningful_restore_value, optional_non_empty_text,
};
use amai_continuity::launch::{
    build_vscode_code_chat_launch_command_with_binary, compact_chat_prompt_artifact_path,
    workspace_bound_vscode_chat_profile_name,
};

#[test]
fn compact_chat_launch_command_uses_code_chat_cli_and_prompt_artifact() {
    let repo_root = "/home/art/agent-memory-index";
    let prompt_path = compact_chat_prompt_artifact_path(repo_root);
    let command =
        build_vscode_code_chat_launch_command_with_binary("code", repo_root, &prompt_path, true);
    assert!(command.contains("code chat --mode agent --new-window --profile "));
    assert!(command.contains("/home/art/agent-memory-index"));
    assert!(command.contains(".amai/continuity/compact-chat-prompt.txt"));
    assert!(command.contains("Amai-agent-memory-index-"));
}

#[test]
fn workspace_bound_vscode_chat_profile_name_is_repo_scoped_and_deterministic() {
    let first = workspace_bound_vscode_chat_profile_name("/home/art/agent-memory-index");
    let second = workspace_bound_vscode_chat_profile_name("/home/art/Bug-Bounty");
    assert_ne!(first, second);
    assert!(first.starts_with("Amai-agent-memory-index-"));
    assert!(second.starts_with("Amai-Bug-Bounty-"));
    assert_eq!(
        first,
        workspace_bound_vscode_chat_profile_name("/home/art/agent-memory-index")
    );
}

#[test]
fn meta_continuity_handoff_is_detected() {
    assert!(is_meta_continuity_handoff(
        "Continuity restored and reported for new chat",
        "Ждать указание пользователя",
        "Пользователь спросил, на чём остановились в прошлом чате."
    ));
    assert!(!is_meta_continuity_handoff(
        "Amai startup restore pack enriched and committed",
        "Сделать auto-injection restore pack прямо в chat-start prompt.",
        "Materialized рабочий контур в continuity."
    ));
}

#[test]
fn continuity_handoff_document_index_refresh_due_without_previous_refresh() {
    assert!(continuity_handoff_document_index_refresh_due_from_previous(None, 10_000));
}

#[test]
fn continuity_handoff_document_index_refresh_due_blocks_recent_refresh() {
    let previous_refresh_epoch_ms = 10_000;
    let still_recent_epoch_ms =
        previous_refresh_epoch_ms + CONTINUITY_HANDOFF_DOCUMENT_INDEX_REFRESH_MIN_INTERVAL_MS - 1;
    assert!(!continuity_handoff_document_index_refresh_due_from_previous(
        Some(previous_refresh_epoch_ms),
        still_recent_epoch_ms
    ));
}

#[test]
fn continuity_handoff_document_index_refresh_due_allows_refresh_after_interval() {
    let previous_refresh_epoch_ms = 10_000;
    let due_epoch_ms =
        previous_refresh_epoch_ms + CONTINUITY_HANDOFF_DOCUMENT_INDEX_REFRESH_MIN_INTERVAL_MS + 1;
    assert!(continuity_handoff_document_index_refresh_due_from_previous(
        Some(previous_refresh_epoch_ms),
        due_epoch_ms
    ));
}

#[test]
fn continuity_answer_live_reply_gate_is_only_required_for_live_source_kinds() {
    assert!(continuity_answer_requires_live_reply_gate("live_continuity_startup"));
    assert!(!continuity_answer_requires_live_reply_gate("operator_continuity_startup"));
    assert!(!continuity_answer_requires_live_reply_gate("proof_continuity_startup"));
    assert!(!continuity_answer_requires_live_reply_gate("verify_continuity_startup"));
}

#[test]
fn extract_next_step_normalizes_nested_labels() {
    let text = "Сводка.\nБлижайший обязательный следующий шаг: Следующий обязательный шаг: materialize compact thread summaries.`|";
    let next_step = extract_next_step_from_text(text).expect("next step");
    assert_eq!(next_step, "materialize compact thread summaries.");
}

#[test]
fn parse_chat_reference_spec_supports_previous_offsets() {
    assert_eq!(parse_chat_reference_spec("previous"), ("previous", 1));
    assert_eq!(parse_chat_reference_spec("previous:2"), ("previous", 2));
    assert_eq!(parse_chat_reference_spec("current"), ("current", 1));
}

#[test]
fn resolve_answer_intent_promotes_previous_and_exact_time_paths() {
    assert_eq!(
        resolve_answer_intent("last_chat", None, Some("previous"), false),
        "previous_chat"
    );
    assert_eq!(
        resolve_answer_intent("last_chat", None, Some("current"), true),
        "chat_at_time"
    );
    assert_eq!(
        resolve_answer_intent("last_chat", Some("previous_chat"), Some("current"), false),
        "previous_chat"
    );
}

#[test]
fn compact_prompt_fragment_truncates_long_text() {
    let value = "Rolling-window token card now isolates historical startup drag from fresh profitable startup";
    let compact = compact_prompt_fragment(value, 36);
    assert!(compact.ends_with("..."));
    assert!(compact.chars().count() <= 39);
}

#[test]
fn meaningful_restore_value_rejects_placeholder_text() {
    assert!(!is_meaningful_restore_value(""));
    assert!(!is_meaningful_restore_value("   "));
    assert!(!is_meaningful_restore_value("ещё нет данных"));
    assert!(!is_meaningful_restore_value("Продолжить активную рабочую линию"));
    assert!(is_meaningful_restore_value("Same-meter spend control"));
}

#[test]
fn format_optional_u64_for_human_preserves_missing_state() {
    assert_eq!(format_optional_u64_for_human(Some(0)), "0");
    assert_eq!(format_optional_u64_for_human(Some(3)), "3");
    assert_eq!(format_optional_u64_for_human(None), "n/a");
    assert_eq!(format_optional_u64_for_prompt(Some(0)), "0");
    assert_eq!(format_optional_u64_for_prompt(Some(3)), "3");
    assert_eq!(format_optional_u64_for_prompt(None), "?");
}

#[test]
fn format_optional_text_for_human_preserves_missing_state() {
    assert_eq!(
        format_optional_text_for_human(Some("/home/art/project")),
        "/home/art/project"
    );
    assert_eq!(format_optional_text_for_human(Some("   ")), "ещё нет данных");
    assert_eq!(format_optional_text_for_human(None), "ещё нет данных");
}

#[test]
fn optional_non_empty_text_drops_blank_values() {
    assert_eq!(optional_non_empty_text(Some(" useful text ")), Some("useful text"));
    assert_eq!(optional_non_empty_text(Some("   ")), None);
    assert_eq!(optional_non_empty_text(None), None);
}

#[test]
fn format_startup_surface_label_preserves_missing_mode_as_human_unknown() {
    assert_eq!(
        format_startup_surface_label("/tmp/startup.md", Some("managed_append_block")),
        "Startup surface: /tmp/startup.md (managed_append_block)"
    );
    assert_eq!(
        format_startup_surface_label("/tmp/startup.md", None),
        "Startup surface: /tmp/startup.md (ещё нет данных)"
    );
    assert_eq!(
        format_startup_surface_label("/tmp/startup.md", Some("   ")),
        "Startup surface: /tmp/startup.md (ещё нет данных)"
    );
}

#[test]
fn format_compact_restore_prompt_text_preserves_missing_state_as_human_unknown() {
    assert_eq!(
        format_compact_restore_prompt_text(Some("CHAT_START_RESTORE\nNext step")),
        "CHAT_START_RESTORE\nNext step"
    );
    assert_eq!(format_compact_restore_prompt_text(Some("   ")), "ещё нет данных");
    assert_eq!(format_compact_restore_prompt_text(None), "ещё нет данных");
}

#[test]
fn format_project_scope_for_human_preserves_missing_state() {
    assert_eq!(
        format_project_scope_for_human(Some("Amai"), Some("amai")),
        "Amai (amai)"
    );
    assert_eq!(
        format_project_scope_for_human(Some("   "), None),
        "ещё нет данных (ещё нет данных)"
    );
}

#[test]
fn format_reply_prefix_for_human_preserves_missing_state() {
    assert_eq!(
        format_reply_prefix_for_human(Some("5ч KPI: переплата 2.46%")),
        "5ч KPI: переплата 2.46%"
    );
    assert_eq!(format_reply_prefix_for_human(Some("   ")), "ещё нет данных");
    assert_eq!(format_reply_prefix_for_human(None), "ещё нет данных");
}

#[test]
fn format_optional_text_for_prompt_preserves_missing_state() {
    assert_eq!(format_optional_text_for_prompt(Some("return_required")), "return_required");
    assert_eq!(format_optional_text_for_prompt(Some("   ")), "?");
    assert_eq!(format_optional_text_for_prompt(None), "?");
}
