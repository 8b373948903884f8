use amai_continuity::bridge::{
    continuity_profile_enabled_from, expected_bridge_version_from_package, is_amai_bridge_extension_dir,
    launch_command_failure_text, public_bridge_live_verified,
};
use amai_continuity::json::Json;

fn from_value(v: &serde_json::Value) -> Json {
    match v {
        serde_json::Value::Null => Json::Null,
        serde_json::Value::Bool(b) => Json::Bool(*b),
        serde_json::Value::Number(n) => Json::Number(n.as_i64().expect("integer") as i128),
        serde_json::Value::String(s) => Json::Str(s.clone()),
        serde_json::Value::Array(items) => Json::Array(items.iter().map(from_value).collect()),
        serde_json::Value::Object(m) => {
            Json::Object(m.iter().map(|(k, v)| (k.clone(), from_value(v))).collect())
        }
    }
}

fn parse(text: &str) -> Json {
    from_value(&serde_json::from_str(text).expect("json text"))
}

fn live_state(version: &str, tabs: i64) -> Json {
    parse(&format!(
        r#"{{
            "status": "live_launch_verified",
            "public_bridge": {{"authority": "amai.amai-vscode-bridge", "version": "{version}"}},
            "ui_cleanup": {{
                "success": true,
                "uri_cleanup_requested": true,
                "matching_tabs_after": {tabs},
                "active_editor_matches_bridge_uri_after": false
            }}
        }}"#
    ))
}

#[test]
fn bridge_is_verified_only_for_the_shipped_version_with_clean_tabs() {
    assert!(public_bridge_live_verified(&live_state("0.4.1", 0), "0.4.1"));
    assert!(!public_bridge_live_verified(&live_state("0.4.0", 0), "0.4.1"));
    assert!(!public_bridge_live_verified(&live_state("0.4.1", 1), "0.4.1"));
    assert!(!public_bridge_live_verified(&Json::Null, "0.4.1"));
}

#[test]
fn bridge_version_is_read_trimmed_from_the_package_manifest() {
    assert_eq!(
        expected_bridge_version_from_package(&parse(r#"{"version": " 0.4.1 "}"#)).as_deref(),
        Some("0.4.1")
    );
    assert_eq!(expected_bridge_version_from_package(&parse(r#"{"version": "  "}"#)), None);
    assert_eq!(expected_bridge_version_from_package(&parse(r#"{"name": "bridge"}"#)), None);
}

#[test]
fn extension_directories_of_the_bridge_are_recognised() {
    assert!(is_amai_bridge_extension_dir("amai.amai-vscode-bridge-0.4.1"));
    assert!(!is_amai_bridge_extension_dir("amai.amai-vscode-bridge"));
    assert!(!is_amai_bridge_extension_dir("ms-python.python-2024.1"));
}

#[test]
fn profiling_switch_reads_common_spellings() {
    assert!(continuity_profile_enabled_from(Some("1")));
    assert!(continuity_profile_enabled_from(Some(" yes ")));
    assert!(!continuity_profile_enabled_from(Some(" 0 ")));
    assert!(!continuity_profile_enabled_from(Some("FALSE")));
    assert!(!continuity_profile_enabled_from(Some("False")));
    assert!(!continuity_profile_enabled_from(Some("   ")));
    assert!(!continuity_profile_enabled_from(None));
}

#[test]
fn launch_failures_name_the_status_and_the_error_output() {
    assert_eq!(
        launch_command_failure_text(Some(2), "  not found\n"),
        "clean-surface launch command exited with status 2: not found"
    );
    assert_eq!(launch_command_failure_text(Some(-1), ""), "clean-surface launch command exited with status -1");
    assert_eq!(
        launch_command_failure_text(None, " "),
        "clean-surface launch command exited with status terminated-by-signal"
    );
}
