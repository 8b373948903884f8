use amai_continuity::chat_start::{NamespaceRecord, ProjectRecord};
use amai_continuity::json::{get, Json};
use amai_continuity::target_update::{build_client_budget_target_update, render_client_budget_target_human};

fn from_value(v: &serde_json::Value) -> Json {
    match v {
        serde_json::Value::Null => Json::Null,
        serde_json::Value::Bool(b) => Json::Bool(*b),
        serde_json::Value::Number(n) => Json::Number(n.as_i64().expect("integer") as i128),
        serde_json::Value::String(s) => Json::Str(s.clone()),
        serde_json::Value::Array(items) => Json::Array(items.iter().map(from_value).collect()),
        serde_json::Value::Object(m) => {
            Json::Object(m.iter().map(|(k, v)| (k.clone(), from_value(v))).collect())
        }
    }
}

fn parse(text: &str) -> Json {
    from_value(&serde_json::from_str(text).expect("json text"))
}

fn ix<'a>(j: &'a Json, key: &str) -> &'a Json {
    get(j, key).expect("field present")
}

fn s(t: &str) -> Json {
    Json::Str(t.to_string())
}

fn same_label(label: &str) -> String {
    label.to_string()
}

fn records() -> (ProjectRecord, NamespaceRecord) {
    (
        ProjectRecord {
            code: "amai".to_string(),
            display_name: "Amai".to_string(),
            repo_root: "/home/art/Amai".to_string(),
        },
        NamespaceRecord { code: "continuity".to_string(), display_name: "Continuity".to_string() },
    )
}

#[test]
fn target_update_reports_the_new_target_and_its_command() {
    let (project, namespace) = records();
    let write_status = parse(r#"{"status": "degraded", "warning": "working state was not written"}"#);
    let restore = parse(
        r#"{"working_state_restore": {"current_goal": "  Goal  ", "next_step": "", "restore_confidence": "high"}}"#,
    );
    let guard = parse(r#"{"reply_prefix": "5ч KPI", "status_label": "ok"}"#);
    let payload = build_client_budget_target_update(
        &project,
        &namespace,
        20,
        40,
        10,
        &write_status,
        &restore,
        &guard,
        Some("thread-7"),
    );
    let u = ix(&payload, "client_budget_target_update");
    assert_eq!(ix(ix(u, "project"), "code"), &s("amai"));
    assert_eq!(ix(ix(u, "namespace"), "display_name"), &s("Continuity"));
    assert_eq!(ix(u, "target_percent"), &Json::Number(20));
    let allowed = Json::Array(vec![
        Json::Number(0),
        Json::Number(10),
        Json::Number(20),
        Json::Number(30),
        Json::Number(40),
    ]);
    assert_eq!(ix(u, "allowed_target_percents"), &allowed);
    assert_eq!(ix(u, "working_state_write_status"), &write_status);
    assert_eq!(ix(ix(u, "working_state_restore"), "current_goal"), &s("Goal"));
    assert_eq!(ix(ix(u, "working_state_restore"), "next_step"), &Json::Null);
    assert_eq!(ix(u, "client_budget_guard"), &guard);
    let notice = ix(u, "operator_notice");
    assert_eq!(ix(notice, "kind"), &s("client_budget_target_changed"));
    assert_eq!(
        ix(notice, "message_text"),
        &s("Режим целевой экономии переключён на 20%. working state was not written")
    );
    assert_eq!(ix(notice, "reply_prefix"), &s("5ч KPI"));
    assert_eq!(ix(notice, "exact_chat_command"), &s("экономия_20%"));
    assert_eq!(ix(notice, "chat_command_pattern"), &s("^экономия_(0|10|20|30|40)%$"));
    assert_eq!(ix(notice, "thread_id"), &s("thread-7"));
    assert_eq!(ix(notice, "allowed_target_percents"), &allowed);
}

#[test]
fn target_update_without_restore_or_warning() {
    let (project, namespace) = records();
    let payload = build_client_budget_target_update(
        &project,
        &namespace,
        0,
        20,
        10,
        &parse(r#"{"status": "written"}"#),
        &Json::Null,
        &Json::Null,
        None,
    );
    let u = ix(&payload, "client_budget_target_update");
    assert_eq!(ix(u, "working_state_restore"), &Json::Null);
    let notice = ix(u, "operator_notice");
    assert_eq!(ix(notice, "message_text"), &s("Режим целевой экономии переключён на 0%."));
    assert_eq!(ix(notice, "reply_prefix"), &Json::Null);
    assert_eq!(ix(notice, "thread_id"), &Json::Null);
}

#[test]
fn target_update_human_view_lists_what_is_known() {
    let (project, namespace) = records();
    let payload = build_client_budget_target_update(
        &project,
        &namespace,
        20,
        40,
        10,
        &parse(r#"{"warning": "  late write  "}"#),
        &parse(r#"{"working_state_restore": {"current_goal": "Goal", "next_step": "Step"}}"#),
        &parse(r#"{"reply_prefix": "5ч KPI", "status_label": "новый чат рекомендован"}"#),
        None,
    );
    let text = render_client_budget_target_human(&payload, 30, 40, 10, &same_label);
    let expected = [
        "Amai continuity client-budget-target",
        "",
        "Проект: Amai (amai)",
        "Корень проекта: /home/art/Amai",
        "Namespace continuity: continuity",
        "Целевой target клиентской экономии: 20%",
        "Разрешённые значения: 0%, 10%, 20%, 30%, 40%",
        "Live client-budget guard: новый чат рекомендован",
        "Текущий reply prefix: 5ч KPI",
        "Exact chat-команда: экономия_20%",
        "Активная линия: Goal",
        "Следующий шаг: Step",
        "Degraded write-state:   late write  ",
    ]
    .join("\n");
    assert_eq!(text, expected);
}

#[test]
fn target_update_human_view_falls_back_to_the_requested_target() {
    let text = render_client_budget_target_human(&Json::Null, 30, 30, 30, &same_label);
    let expected = [
        "Amai continuity client-budget-target",
        "",
        "Проект: ещё нет данных (ещё нет данных)",
        "Корень проекта: ещё нет данных",
        "Namespace continuity: ещё нет данных",
        "Целевой target клиентской экономии: 30%",
        "Разрешённые значения: 0%, 30%",
        "Live client-budget guard: ещё нет данных",
    ]
    .join("\n");
    assert_eq!(text, expected);
}

#[test]
fn target_refusal_lists_the_allowed_targets() {
    assert_eq!(
        amai_continuity::target_update::client_budget_target_choices_error(30, 10),
        "client budget target must be one of 0, 10, 20, 30"
    );
}
