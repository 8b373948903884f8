use amai_continuity::json::{get, Json, ObjectBuilder};
use amai_continuity::prompt_summaries::{
    summarize_execctl_resume_contract_for_prompt, summarize_pending_return_for_prompt,
    summarize_required_task_set_for_human_surface, summarize_required_task_set_for_prompt,
    summarize_startup_next_action_for_prompt,
};
use amai_continuity::startup::{
    default_execctl_resume_obligation, default_startup_next_action,
    summarize_execctl_resume_obligation, summarize_startup_next_action,
};

fn obj(entries: Vec<(&str, Json)>) -> Json {
    let mut b = ObjectBuilder::new();
    for (k, v) in entries {
        b.push(k, v);
    }
    b.build()
}

fn s(t: &str) -> Json {
    Json::Str(t.to_string())
}

fn arr(items: &[&str]) -> Json {
    Json::Array(items.iter().map(|t| s(t)).collect())
}

fn f<'a>(j: &'a Json, key: &str) -> &'a Json {
    static NULL: Json = Json::Null;
    get(j, key).unwrap_or(&NULL)
}

fn relocation_obligation(resume_state: &str, headline: Json, next_step: Json) -> Json {
    obj(vec![
        ("resume_state", s(resume_state)),
        ("no_silent_drop", Json::Bool(true)),
        ("active_task_headline", s("Project relocation contour")),
        ("required_return_headline", headline),
        ("required_return_next_step", next_step),
    ])
}

#[test]
fn summarize_execctl_resume_obligation_preserves_missing_required_task_set_as_null() {
    let obligation = summarize_execctl_resume_obligation(&obj(vec![
        ("resume_state", s("return_required")),
        ("no_silent_drop", Json::Bool(true)),
        (
            "required_return_task",
            obj(vec![("headline", s("Pending line")), ("next_step", s("Close drift."))]),
        ),
    ]));

    assert_eq!(f(&obligation, "pending_return_count"), &Json::Null);
    assert_eq!(f(&obligation, "required_task_set_count"), &Json::Null);
    assert_eq!(f(&obligation, "required_task_set"), &Json::Null);
    assert_eq!(f(&obligation, "required_task_set_summary"), &Json::Null);
}

#[test]
fn summarize_execctl_resume_obligation_preserves_missing_resume_state_as_null() {
    let obligation = summarize_execctl_resume_obligation(&obj(vec![
        ("resume_state", s("   ")),
        ("no_silent_drop", Json::Bool(true)),
        ("pending_return_count", Json::Number(1)),
        (
            "required_return_task",
            obj(vec![("headline", s("Pending line")), ("next_step", s("Close drift."))]),
        ),
    ]));

    assert_eq!(f(&obligation, "resume_state"), &Json::Null);
}

#[test]
fn summarize_execctl_resume_obligation_preserves_missing_contract_as_null_resume_state() {
    let obligation = summarize_execctl_resume_obligation(&Json::Null);

    assert_eq!(f(&obligation, "resume_state"), &Json::Null);
    assert_eq!(f(&obligation, "pending_return_count"), &Json::Number(0));
    assert_eq!(f(&obligation, "required_task_set_count"), &Json::Number(0));
}

#[test]
fn execctl_resume_summaries_ignore_whitespace_only_text() {
    let obligation = summarize_execctl_resume_obligation(&obj(vec![
        ("resume_state", s("return_required")),
        ("no_silent_drop", Json::Bool(true)),
        ("pending_return_count", Json::Number(1)),
        ("active_task", obj(vec![("headline", s("   "))])),
        ("required_return_task", obj(vec![("headline", s("   ")), ("next_step", s("  "))])),
        ("required_task_set_count", Json::Number(1)),
        ("required_task_set", arr(&["   "])),
        ("required_task_set_summary", s("   ")),
    ]));

    assert_eq!(f(&obligation, "active_task_headline"), &Json::Null);
    assert_eq!(f(&obligation, "required_return_headline"), &Json::Null);
    assert_eq!(f(&obligation, "required_return_next_step"), &Json::Null);
    assert_eq!(f(&obligation, "required_task_set_summary"), &Json::Null);

    let action = default_startup_next_action(
        "Fallback current goal",
        "Fallback next step",
        &obligation,
        None,
    );

    assert_eq!(f(&action, "headline"), &s("Fallback current goal"));
    assert_eq!(f(&action, "next_step"), &s("Fallback next step"));
}

#[test]
fn default_startup_next_action_keeps_rotate_now_warning_as_resume_obligation() {
    let obligation = relocation_obligation(
        "return_required",
        s("Same-meter spend control"),
        s("Materialize live assistant generation source."),
    );
    let guard = obj(vec![
        ("should_rotate_chat_now", Json::Bool(true)),
        ("should_rotate_chat_soon", Json::Bool(true)),
        ("status_label", s("сожми текущий чат сейчас")),
        ("note", s("live client budget is already under pressure")),
    ]);

    let action = default_startup_next_action(
        "Project relocation contour",
        "Dovetail runtime auto-start guarantees.",
        &obligation,
        Some(&guard),
    );

    assert_eq!(f(&action, "action_kind"), &s("resume_required_return_task"));
    assert_eq!(f(&action, "blocking"), &Json::Bool(true));
    assert_eq!(f(&action, "resume_state"), &s("return_required"));
    assert_eq!(f(&action, "preserves_return_obligation"), &Json::Null);
    assert_eq!(f(&action, "action_bundle"), &Json::Null);
}

#[test]
fn default_startup_next_action_keeps_rotate_soon_as_advisory() {
    let obligation = relocation_obligation(
        "return_required",
        s("Same-meter spend control"),
        s("Materialize live assistant generation source."),
    );
    let guard = obj(vec![
        ("should_rotate_chat_now", Json::Bool(false)),
        ("should_rotate_chat_soon", Json::Bool(true)),
        ("status_label", s("сожми текущий чат")),
        ("note", s("soft rotate recommendation only")),
        (
            "reply_execution_gate",
            obj(vec![
                ("action_kind", s("rotate_chat_for_client_budget")),
                ("blocking", Json::Bool(false)),
                ("must_rotate_before_reply", Json::Bool(false)),
            ]),
        ),
    ]);

    let action = default_startup_next_action(
        "Project relocation contour",
        "Dovetail runtime auto-start guarantees.",
        &obligation,
        Some(&guard),
    );

    assert_eq!(f(&action, "action_kind"), &s("resume_required_return_task"));
    assert_eq!(f(&action, "blocking"), &Json::Bool(true));
}

#[test]
fn default_startup_next_action_keeps_global_budget_wait_as_advisory() {
    let obligation = relocation_obligation("return_required", Json::Null, Json::Null);
    let guard = obj(vec![
        ("status_label", s("глобальный лимит клиента почти исчерпан")),
        ("note", s("global client budget is almost exhausted")),
        (
            "reply_execution_gate",
            obj(vec![
                ("action_kind", s("wait_for_global_client_budget_recovery")),
                ("blocking", Json::Bool(true)),
            ]),
        ),
    ]);

    let action = default_startup_next_action(
        "Project relocation contour",
        "Dovetail runtime auto-start guarantees.",
        &obligation,
        Some(&guard),
    );

    assert_eq!(f(&action, "action_kind"), &s("continue_active_workline"));
    assert_eq!(f(&action, "blocking"), &Json::Bool(false));
}

#[test]
fn default_startup_next_action_preserves_missing_resume_state_as_null() {
    let obligation = relocation_obligation(
        "   ",
        s("Same-meter spend control"),
        s("Materialize live assistant generation source."),
    );

    let action = default_startup_next_action(
        "Project relocation contour",
        "Dovetail runtime auto-start guarantees.",
        &obligation,
        None,
    );

    assert_eq!(f(&action, "action_kind"), &s("continue_active_workline"));
    assert_eq!(f(&action, "blocking"), &Json::Bool(false));
    assert_eq!(f(&action, "resume_state"), &Json::Null);
}

#[test]
fn default_startup_next_action_honours_a_required_task_set_and_clear_resume_state() {
    let obligation = obj(vec![
        ("resume_state", s("clear")),
        ("required_return_headline", s("Same-meter spend control")),
        ("required_task_set", arr(&["  Fix card A ", "Fix card B"])),
        ("required_task_set_summary", s("2 задач(и): Fix card A")),
    ]);
    let action = default_startup_next_action("Goal", "Step", &obligation, None);
    assert_eq!(f(&action, "action_kind"), &s("honor_required_task_set"));
    assert_eq!(f(&action, "reason"), &s("required_task_set_present"));
    assert_eq!(f(&action, "headline"), &s("Goal"));
    assert_eq!(f(&action, "next_step"), &s("Fix card A"));
    assert_eq!(f(&action, "no_silent_drop"), &Json::Bool(true));
    assert_eq!(f(&action, "required_task_set"), &arr(&["  Fix card A ", "Fix card B"]));
    assert_eq!(
        summarize_startup_next_action(&action).as_deref(),
        Some("honor_required_task_set: Goal -> Fix card A (2 задач(и): Fix card A)")
    );
    assert_eq!(summarize_startup_next_action_for_prompt(&action).as_deref(), Some("Сначала: Goal"));
}

#[test]
fn startup_next_action_summaries_name_kind_headline_and_step() {
    let action = obj(vec![
        ("action_kind", s("resume_required_return_task")),
        ("headline", s(" Client-budget guard: return ")),
    ]);
    assert_eq!(
        summarize_startup_next_action(&action).as_deref(),
        Some("resume_required_return_task: Client-budget advisory signal: return -> ещё нет данных")
    );
    assert_eq!(
        summarize_startup_next_action_for_prompt(&action).as_deref(),
        Some("Сначала: вернись: Client-budget advisory signal: return")
    );
    let resting = obj(vec![("action_kind", s("continue_active_workline")), ("headline", s("x"))]);
    assert!(summarize_startup_next_action_for_prompt(&resting).is_none());
    assert!(summarize_startup_next_action(&obj(vec![("action_kind", s(""))])).is_none());
    let waiting = obj(vec![("action_kind", s("wait_for_global_client_budget_recovery"))]);
    assert_eq!(
        summarize_startup_next_action_for_prompt(&waiting).as_deref(),
        Some("Сначала: жди budget: ещё нет данных")
    );
}

#[test]
fn default_execctl_resume_obligation_counts_a_known_return_task() {
    let task = obj(vec![("headline", s(" Pending line ")), ("next_step", s("   "))]);
    let obligation = default_execctl_resume_obligation(Some(&task), Some("return_required"));
    assert_eq!(f(&obligation, "pending_return_count"), &Json::Number(1));
    assert_eq!(f(&obligation, "required_return_headline"), &s("Pending line"));
    assert_eq!(f(&obligation, "required_return_next_step"), &Json::Null);
    assert_eq!(f(&obligation, "resume_state"), &s("return_required"));
    assert_eq!(f(&obligation, "required_task_set"), &Json::Array(vec![]));
}

#[test]
fn summarize_execctl_resume_contract_for_prompt_preserves_missing_state() {
    let summary = summarize_execctl_resume_contract_for_prompt(
        None,
        &obj(vec![("required_return_headline", s("Pending line"))]),
    )
    .expect("prompt summary");

    assert_eq!(summary, "?(?): Pending line -> ещё нет данных");
}

#[test]
fn summarize_execctl_resume_contract_for_prompt_ignores_whitespace_only_state() {
    let summary = summarize_execctl_resume_contract_for_prompt(
        None,
        &obj(vec![
            ("resume_state", s("   ")),
            ("required_return_headline", s("   ")),
            ("required_return_next_step", s("   ")),
        ]),
    );

    assert!(summary.is_none());
}

#[test]
fn summarize_execctl_resume_contract_for_prompt_prefers_the_restore_summary() {
    let restore = obj(vec![("execctl_resume_contract_summary", s(" return_required(1): A -> B "))]);
    let summary = summarize_execctl_resume_contract_for_prompt(
        Some(&restore),
        &obj(vec![("required_return_headline", s("Other"))]),
    );
    assert_eq!(summary.as_deref(), Some("return_required(1): A -> B"));
    let stated = summarize_execctl_resume_contract_for_prompt(
        None,
        &obj(vec![
            ("resume_state", s("return_required")),
            ("pending_return_count", Json::Number(2)),
            ("required_return_headline", s("A")),
            ("required_return_next_step", s("B")),
        ]),
    );
    assert_eq!(stated.as_deref(), Some("return_required(2): A -> B"));
}

#[test]
fn human_surface_required_task_set_summary_is_projection_only() {
    let node = obj(vec![
        ("required_task_set", arr(&["Fix card A", "Fix card B"])),
        ("required_task_set_summary", Json::Null),
    ]);

    assert_eq!(
        summarize_required_task_set_for_human_surface(&node).as_deref(),
        Some("2 задач(и): Fix card A")
    );

    let missing = obj(vec![]);
    assert!(summarize_required_task_set_for_human_surface(&missing).is_none());
}

#[test]
fn required_task_set_prompt_summary_uses_summary_then_first_task() {
    let with_summary = obj(vec![("required_task_set_summary", s("  2 tasks  "))]);
    assert_eq!(summarize_required_task_set_for_prompt(Some(&with_summary)).as_deref(), Some("2 tasks"));
    let single = obj(vec![("required_task_set", Json::Array(vec![Json::Number(3), s(" only ")]))]);
    assert_eq!(summarize_required_task_set_for_prompt(Some(&single)).as_deref(), Some("2 задач(и): only"));
    let one = obj(vec![("required_task_set", arr(&["one"]))]);
    assert_eq!(summarize_required_task_set_for_prompt(Some(&one)).as_deref(), Some("one"));
    assert!(summarize_required_task_set_for_prompt(None).is_none());
    assert!(summarize_required_task_set_for_prompt(Some(&obj(vec![("required_task_set", arr(&[" "]))]))).is_none());
}

#[test]
fn pending_return_prompt_summary_counts_the_queue() {
    let queue = obj(vec![(
        "pending_return_queue",
        Json::Array(vec![
            obj(vec![("headline", s(" First "))]),
            obj(vec![("headline", s("Second"))]),
            obj(vec![]),
        ]),
    )]);
    assert_eq!(
        summarize_pending_return_for_prompt(Some(&queue)).as_deref(),
        Some("pending_return(3): First; +2 more")
    );
    let single = obj(vec![("pending_return_queue", Json::Array(vec![obj(vec![("headline", s("Only"))])]))]);
    assert_eq!(summarize_pending_return_for_prompt(Some(&single)).as_deref(), Some("pending_return(1): Only"));
    let blank_first = obj(vec![(
        "pending_return_queue",
        Json::Array(vec![obj(vec![("headline", s("  "))]), obj(vec![("headline", s("Later"))])]),
    )]);
    assert!(summarize_pending_return_for_prompt(Some(&blank_first)).is_none());
    let summary = obj(vec![("pending_return_summary", s("pending_return(9): X"))]);
    assert_eq!(summarize_pending_return_for_prompt(Some(&summary)).as_deref(), Some("pending_return(9): X"));
}
