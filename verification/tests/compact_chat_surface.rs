use amai_continuity::fallback::{compact_chat_manual_fallback_note, compact_chat_manual_fallback_steps};
use amai_continuity::json::{get, get_str, Json, ObjectBuilder};
use amai_continuity::launch::compact_chat_prompt_artifact_path;
use amai_continuity::surface::build_compact_chat_clean_launch_surface_with_vscode_contracts;

fn client_surface(key: &str, name: &str) -> Json {
    let mut b = ObjectBuilder::new();
    b.push("client_key", Json::Str(key.to_string()));
    b.push("display_name", Json::Str(name.to_string()));
    b.build()
}

fn text<'a>(j: &'a Json, key: &str) -> Option<&'a str> {
    get_str(j, key)
}

fn is_null(j: &Json, key: &str) -> bool {
    matches!(get(j, key), None | Some(Json::Null))
}

fn boolean(j: &Json, key: &str) -> Option<bool> {
    match get(j, key) {
        Some(Json::Bool(b)) => Some(*b),
        _ => None,
    }
}

#[test]
fn compact_chat_clean_launch_surface_is_vscode_only_command_contract() {
    let repo_root = "/home/art/agent-memory-index";
    let prompt_path = compact_chat_prompt_artifact_path(repo_root);
    let vscode_surface = build_compact_chat_clean_launch_surface_with_vscode_contracts(
        &client_surface("vscode", "VS Code"),
        repo_root,
        Some(&prompt_path),
        Some("code"),
        None,
        false,
        false,
    );

    assert_eq!(text(&vscode_surface, "status"), Some("launch_command_available"));
    assert_eq!(boolean(&vscode_surface, "supported_auto_launch"), Some(true));
    assert_eq!(text(&vscode_surface, "command_kind"), Some("vscode_code_chat_cli"));
    assert_eq!(text(&vscode_surface, "proof_boundary"), Some("command_contract_only"));
    assert_eq!(
        text(&vscode_surface, "ux_verdict"),
        Some("not_seamless_until_live_client_proof")
    );
    assert!(text(&vscode_surface, "launch_clean_chat_command")
        .is_some_and(|value| value.contains("code chat --mode agent --new-window")));
    assert!(text(&vscode_surface, "launch_clean_chat_fallback_command")
        .is_some_and(|value| value.contains("code chat --mode agent --reuse-window")));

    let codex_surface = build_compact_chat_clean_launch_surface_with_vscode_contracts(
        &client_surface("codex", "Codex"),
        repo_root,
        Some(&prompt_path),
        Some("code"),
        None,
        false,
        false,
    );
    assert_eq!(text(&codex_surface, "status"), Some("manual_only"));
    assert_eq!(boolean(&codex_surface, "supported_auto_launch"), Some(false));
    assert!(is_null(&codex_surface, "launch_clean_chat_command"));
    assert_eq!(
        text(&codex_surface, "unavailable_reason"),
        Some("client_has_no_automatic_clean_chat_bridge")
    );
    assert_eq!(
        text(&codex_surface, "ux_verdict"),
        Some("not_seamless_until_live_client_proof")
    );
}

#[test]
fn compact_chat_clean_launch_surface_reports_missing_vscode_cli_and_prompt() {
    let repo_root = "/home/art/agent-memory-index";
    let prompt_path = compact_chat_prompt_artifact_path(repo_root);
    let missing_cli = build_compact_chat_clean_launch_surface_with_vscode_contracts(
        &client_surface("vscode", "VS Code"),
        repo_root,
        Some(&prompt_path),
        None,
        None,
        false,
        false,
    );

    assert_eq!(text(&missing_cli, "status"), Some("bridge_unavailable"));
    assert_eq!(boolean(&missing_cli, "supported_auto_launch"), Some(true));
    assert_eq!(text(&missing_cli, "unavailable_reason"), Some("vscode_code_cli_unavailable"));
    assert!(is_null(&missing_cli, "launch_clean_chat_command"));

    let missing_prompt = build_compact_chat_clean_launch_surface_with_vscode_contracts(
        &client_surface("vscode", "VS Code"),
        repo_root,
        None,
        Some("code"),
        None,
        false,
        false,
    );
    assert_eq!(text(&missing_prompt, "status"), Some("bridge_unavailable"));
    assert_eq!(text(&missing_prompt, "unavailable_reason"), Some("prompt_artifact_unavailable"));
    assert!(is_null(&missing_prompt, "launch_clean_chat_command"));
}

#[test]
fn compact_chat_clean_launch_surface_recovers_when_prompt_contract_is_rebuilt() {
    let repo_root = "/home/art/agent-memory-index";
    let prompt_path = compact_chat_prompt_artifact_path(repo_root);
    let surface = client_surface("vscode", "VS Code");

    let missing_prompt = build_compact_chat_clean_launch_surface_with_vscode_contracts(
        &surface, repo_root, None, Some("code"), None, false, false,
    );
    assert_eq!(text(&missing_prompt, "status"), Some("bridge_unavailable"));
    assert_eq!(text(&missing_prompt, "unavailable_reason"), Some("prompt_artifact_unavailable"));

    let rebuilt_prompt = build_compact_chat_clean_launch_surface_with_vscode_contracts(
        &surface,
        repo_root,
        Some(&prompt_path),
        Some("code"),
        None,
        false,
        false,
    );
    assert_eq!(text(&rebuilt_prompt, "status"), Some("launch_command_available"));
    assert!(is_null(&rebuilt_prompt, "unavailable_reason"));
    assert!(text(&rebuilt_prompt, "launch_clean_chat_command")
        .is_some_and(|value| value.contains(".amai/continuity/compact-chat-prompt.txt")));
}

#[test]
fn compact_chat_clean_launch_surface_keeps_public_vscode_uri_bridge_fail_closed_without_live_verification(
) {
    let repo_root = "/home/art/agent-memory-index";
    let prompt_path = compact_chat_prompt_artifact_path(repo_root);
    let surface = build_compact_chat_clean_launch_surface_with_vscode_contracts(
        &client_surface("vscode", "VS Code"),
        repo_root,
        Some(&prompt_path),
        Some("code"),
        Some("xdg-open"),
        true,
        false,
    );

    assert_eq!(text(&surface, "status"), Some("launch_command_available"));
    assert_eq!(boolean(&surface, "supported_auto_launch"), Some(true));
    assert_eq!(text(&surface, "command_kind"), Some("vscode_code_chat_cli"));
    assert_eq!(text(&surface, "proof_boundary"), Some("command_contract_only"));
    assert_eq!(text(&surface, "bridge_live_verification_state"), Some("missing"));
    assert!(text(&surface, "launch_clean_chat_command")
        .is_some_and(|value| value.contains("code chat --mode agent --new-window")));
}

#[test]
fn compact_chat_clean_launch_surface_prefers_public_vscode_uri_bridge_when_live_verified() {
    let repo_root = "/home/art/agent-memory-index";
    let prompt_path = compact_chat_prompt_artifact_path(repo_root);
    let surface = build_compact_chat_clean_launch_surface_with_vscode_contracts(
        &client_surface("vscode", "VS Code"),
        repo_root,
        Some(&prompt_path),
        Some("code"),
        Some("xdg-open"),
        true,
        true,
    );

    assert_eq!(text(&surface, "status"), Some("launch_command_available"));
    assert_eq!(boolean(&surface, "supported_auto_launch"), Some(true));
    assert_eq!(text(&surface, "command_kind"), Some("vscode_uri_amai_bridge"));
    assert_eq!(text(&surface, "proof_boundary"), Some("public_bridge_live_contract_only"));
    assert_eq!(text(&surface, "bridge_live_verification_state"), Some("verified"));
    assert!(text(&surface, "launch_clean_chat_command").is_some_and(|value| value
        .contains("code --open-url 'vscode://amai.amai-vscode-bridge/open-clean-chat")));
    assert!(text(&surface, "launch_clean_chat_fallback_command")
        .is_some_and(|value| value.contains("code chat --mode agent --reuse-window")));
    assert!(text(&surface, "bridge_result_file")
        .is_some_and(|value| value.contains(".amai/continuity/compact-chat-launch-result.json")));
}

#[test]
fn compact_chat_clean_launch_surface_uses_xdg_open_fallback_when_code_binary_is_missing() {
    let repo_root = "/home/art/agent-memory-index";
    let prompt_path = compact_chat_prompt_artifact_path(repo_root);
    let surface = build_compact_chat_clean_launch_surface_with_vscode_contracts(
        &client_surface("vscode", "VS Code"),
        repo_root,
        Some(&prompt_path),
        None,
        Some("xdg-open"),
        true,
        true,
    );

    assert_eq!(text(&surface, "status"), Some("launch_command_available"));
    assert_eq!(text(&surface, "command_kind"), Some("vscode_uri_amai_bridge"));
    assert!(text(&surface, "launch_clean_chat_command").is_some_and(|value| value
        .contains("xdg-open 'vscode://amai.amai-vscode-bridge/open-clean-chat")));
    assert!(is_null(&surface, "launch_clean_chat_fallback_command"));
}

fn surface_with_startup(
    key: &str,
    name: &str,
    path: &str,
    mode: &str,
    fresh_chat_assist_summary: &str,
) -> Json {
    let mut b = ObjectBuilder::new();
    b.push("client_key", Json::Str(key.to_string()));
    b.push("display_name", Json::Str(name.to_string()));
    b.push("startup_instruction_path", Json::Str(path.to_string()));
    b.push("startup_instruction_mode", Json::Str(mode.to_string()));
    b.push("fresh_chat_assist_summary", Json::Str(fresh_chat_assist_summary.to_string()));
    b.build()
}

#[test]
fn compact_chat_manual_fallback_steps_preserve_codex_specific_actions() {
    let steps = compact_chat_manual_fallback_steps(&surface_with_startup(
        "codex",
        "Codex",
        "/repo/AGENTS.md",
        "managed_append_block",
        "Для front-door новой чистой рабочей поверхности используй ./scripts/reconnect_local.sh --client codex или ./scripts/amai_exec.sh bootstrap reconnect --client codex --yes.",
    ));

    assert!(steps.iter().any(|value| value.contains("chatgpt.newChat")));
    assert!(steps.iter().any(|value| value.contains("chatgpt.newCodexPanel")));
    assert!(steps.iter().any(|value| value.contains("/repo/AGENTS.md")));
    assert!(steps.iter().any(|value| value.contains("bootstrap reconnect --client codex")));
}

#[test]
fn compact_chat_manual_fallback_steps_surface_generic_client_context() {
    let steps = compact_chat_manual_fallback_steps(&surface_with_startup(
        "generic",
        "Generic",
        "/repo/tmp/onboarding/generic-amai-startup.md",
        "manual_snippet_only",
        "Для front-door новой чистой рабочей поверхности используй ./scripts/reconnect_local.sh --client generic или ./scripts/amai_exec.sh bootstrap reconnect --client generic --yes.",
    ));

    assert!(steps
        .iter()
        .any(|value| value.contains("новую чистую рабочую поверхность в Generic")));
    assert!(steps.iter().any(|value| value.contains("generic-amai-startup.md")));
    assert!(steps.iter().any(|value| value.contains("bootstrap reconnect --client generic")));
}

#[test]
fn compact_chat_manual_fallback_note_fail_closes_to_unknown_client() {
    let note = compact_chat_manual_fallback_note(&ObjectBuilder::new().build());
    assert!(note.contains("Unknown client"));
    assert!(note.contains("prompt_text"));
}

#[test]
fn compact_chat_manual_fallback_steps_exact_for_a_bare_generic_client() {
    let steps = compact_chat_manual_fallback_steps(&client_surface("cursor", "  Cursor  "));
    assert_eq!(
        steps,
        vec!["Открой новую чистую рабочую поверхность в Cursor и используй prompt_text как единственный startup prompt.".to_string()]
    );
    let mut b = ObjectBuilder::new();
    b.push("startup_instruction_path", Json::Str("/r/A.md".to_string()));
    b.push("delivery_surface_assist_summary", Json::Str(" hint ".to_string()));
    b.push("fresh_chat_assist_summary", Json::Str("other".to_string()));
    let steps = compact_chat_manual_fallback_steps(&b.build());
    assert_eq!(steps.len(), 3);
    assert!(steps[0].contains("Unknown client"));
    assert_eq!(steps[1], "Startup surface: /r/A.md (unknown)");
    assert_eq!(steps[2], "hint");
}
