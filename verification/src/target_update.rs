//! The answer to a change of the client-budget target: the update payload and its
//! human view.
use vstd::prelude::*;
use crate::budget::{
    allowed_client_budget_target_values, allowed_targets, alternatives, client_budget_target_chat_command,
    client_budget_target_chat_command_pattern, target_command_prefix,
};
use crate::chat_start::{namespace_json, namespace_view, project_json, project_view, NamespaceRecord, ProjectRecord};
use crate::json::{
    clone_json, field, get, opt_str_json, opt_str_view, Json, JsonView, ObjectBuilder,
};
use crate::projections::{
    append_working_state_warning_to_message, message_with_warning, normalized_working_state_restore_projection,
    working_state_projection,
};
use crate::advisory::{format_client_budget_status_label_for_human, shown_status_label};
use crate::human::{join_lines, line_if, prefixed, push_line};
use crate::json::{as_str, as_text, as_u64, get_str, get_u64};
use crate::labels::{format_optional_text_for_human, format_project_scope_for_human, no_data, text_or};
use crate::text::{chars_of, decimal, decimal_chars, join, push_all, push_str, string_of, trim, trim_str, views};

verus! {

/// The targets as a JSON array of numbers.
pub open spec fn targets_view(values: Seq<u64>) -> JsonView {
    JsonView::Array(values.map_values(|v: u64| JsonView::Number(v as int)))
}

/// The message that confirms the new target.
pub open spec fn target_changed_message(target_percent: u64) -> Seq<char> {
    "Режим целевой экономии переключён на "@ + decimal(target_percent as nat) + "%."@
}

/// The notice shown to the operator once the target has changed.
pub open spec fn target_notice(
    target_percent: u64,
    max_percent: u64,
    step_percent: u64,
    write_status: JsonView,
    guard: JsonView,
    thread_id: Option<Seq<char>>,
) -> JsonView {
    JsonView::Object(
        seq![
            ("kind"@, JsonView::Str("client_budget_target_changed"@)),
            ("message_text"@, JsonView::Str(message_with_warning(target_changed_message(target_percent), write_status))),
            ("reply_prefix"@, field(guard, "reply_prefix"@)),
            ("exact_chat_command"@, JsonView::Str(target_command_prefix() + decimal(target_percent as nat) + "%"@)),
            (
                "chat_command_pattern"@,
                JsonView::Str(
                    "^"@ + target_command_prefix() + "("@ + alternatives(allowed_targets(max_percent, step_percent))
                        + ")%$"@,
                ),
            ),
            ("thread_id"@, opt_str_view(thread_id)),
            ("allowed_target_percents"@, targets_view(allowed_targets(max_percent, step_percent))),
            ("working_state_write_status"@, write_status),
        ],
    )
}

/// The client-budget target update for `project` and `namespace`: the new target, the
/// allowed targets (multiples of `step_percent` up to `max_percent`), how the working
/// state recorded it, the recent restore, the live budget guard and the notice.
pub open spec fn target_update(
    project: ProjectRecord,
    namespace: NamespaceRecord,
    target_percent: u64,
    max_percent: u64,
    step_percent: u64,
    write_status: JsonView,
    restore: JsonView,
    guard: JsonView,
    thread_id: Option<Seq<char>>,
) -> JsonView {
    JsonView::Object(
        seq![
            (
                "client_budget_target_update"@,
                JsonView::Object(
                    seq![
                        ("project"@, project_view(project)),
                        ("namespace"@, namespace_view(namespace)),
                        ("target_percent"@, JsonView::Number(target_percent as int)),
                        ("allowed_target_percents"@, targets_view(allowed_targets(max_percent, step_percent))),
                        ("working_state_write_status"@, write_status),
                        ("working_state_restore"@, working_state_projection(field(restore, "working_state_restore"@))),
                        ("client_budget_guard"@, guard),
                        (
                            "operator_notice"@,
                            target_notice(target_percent, max_percent, step_percent, write_status, guard, thread_id),
                        ),
                    ],
                ),
            ),
        ],
    )
}

fn field_ref<'a>(v: &'a Json, key: &str) -> (r: &'a Json)
    ensures
        r@ == field(v@, key@),
{
    match get(v, key) {
        Some(x) => x,
        None => &Json::Null,
    }
}


/// The string at `v` as it stands, when it is not blank.
pub open spec fn raw_text(v: JsonView) -> Option<Seq<char>> {
    match as_str(v) {
        Some(t) => if trim(t).len() > 0 {
            Some(t)
        } else {
            None
        },
        None => None,
    }
}

/// The targets as `v%` joined by `, `.
pub open spec fn percent_list(values: Seq<u64>) -> Seq<char>
    decreases values.len(),
{
    if values.len() == 0 {
        Seq::empty()
    } else if values.len() == 1 {
        decimal(values[0] as nat) + "%"@
    } else {
        percent_list(values.drop_last()) + ", "@ + decimal(values.last() as nat) + "%"@
    }
}

/// The human view of a target update payload, one line per entry; `requested_percent`
/// is shown when the payload holds no target, and `status_label` is the shown guard
/// status.
pub open spec fn target_update_human_lines(
    payload: JsonView,
    requested_percent: u64,
    max_percent: u64,
    step_percent: u64,
    status_label: Seq<char>,
) -> Seq<Seq<char>> {
    let u = field(payload, "client_budget_target_update"@);
    let project = field(u, "project"@);
    let target = match as_u64(field(u, "target_percent"@)) {
        Some(t) => t,
        None => requested_percent,
    };
    let restore = field(u, "working_state_restore"@);
    seq![
        "Amai continuity client-budget-target"@,
        Seq::empty(),
        "Проект: "@ + text_or(as_text(field(project, "display_name"@)), no_data()) + " ("@ + text_or(
            as_text(field(project, "code"@)),
            no_data(),
        ) + ")"@,
        "Корень проекта: "@ + text_or(as_text(field(project, "repo_root"@)), no_data()),
        "Namespace continuity: "@ + text_or(as_text(field(field(u, "namespace"@), "code"@)), no_data()),
        "Целевой target клиентской экономии: "@ + decimal(target as nat) + "%"@,
        "Разрешённые значения: "@ + percent_list(allowed_targets(max_percent, step_percent)),
        "Live client-budget guard: "@ + status_label,
    ] + line_if(raw_text(field(field(u, "client_budget_guard"@), "reply_prefix"@)), "Текущий reply prefix: "@)
        + line_if(as_str(field(field(u, "operator_notice"@), "exact_chat_command"@)), "Exact chat-команда: "@)
        + (if restore is Object {
        line_if(raw_text(field(restore, "current_goal"@)), "Активная линия: "@) + line_if(
            raw_text(field(restore, "next_step"@)),
            "Следующий шаг: "@,
        )
    } else {
        Seq::empty()
    }) + line_if(raw_text(field(field(u, "working_state_write_status"@), "warning"@)), "Degraded write-state: "@)
}

fn raw_text_exec<'a>(v: &'a Json, key: &str) -> (r: Option<&'a str>)
    ensures
        match r {
            Some(t) => raw_text(field(v@, key@)) == Some(t@),
            None => raw_text(field(v@, key@)) is None,
        },
{
    match get_str(v, key) {
        Some(t) => {
            let trimmed = trim_str(t);
            if trimmed.unicode_len() > 0 {
                Some(t)
            } else {
                None
            }
        },
        None => None,
    }
}

fn push_opt_line(lines: &mut Vec<Vec<char>>, o: Option<&str>, prefix: &str)
    ensures
        views(final(lines)@) == views(old(lines)@) + line_if(crate::answer::opt_view(o), prefix@),
{
    let ghost start = views(lines@);
    match o {
        Some(t) => push_line(lines, prefixed(prefix, t)),
        None => {},
    }
    assert(views(lines@) =~= start + line_if(crate::answer::opt_view(o), prefix@));
}

fn percent_list_exec(values: &Vec<u64>) -> (r: Vec<char>)
    ensures
        r@ == percent_list(values@),
{
    let mut out: Vec<char> = Vec::new();
    let mut i: usize = 0;
    while i < values.len()
        invariant
            i <= values@.len(),
            out@ == percent_list(values@.take(i as int)),
        decreases values@.len() - i,
    {
        if i > 0 {
            push_str(&mut out, ", ");
        }
        let d = decimal_chars(values[i]);
        push_all(&mut out, d.as_slice());
        push_str(&mut out, "%");
        proof {
            let t = values@.take(i + 1);
            assert(t.drop_last() =~= values@.take(i as int));
            if i == 0 {
                assert(values@.take(0) =~= Seq::<u64>::empty());
                assert(out@ =~= decimal(t[0] as nat) + "%"@);
            } else {
                assert(out@ =~= percent_list(t.drop_last()) + ", "@ + decimal(t.last() as nat) + "%"@);
            }
        }
        i = i + 1;
    }
    assert(values@.take(values@.len() as int) =~= values@);
    out
}

/// The human view of a client-budget target update payload. `requested_percent` is
/// the target that was asked for, shown when the payload holds none; `max_percent` and
/// `step_percent` are the limits of the allowed targets, and `status_label_display` is
/// the dashboard rule that turns a guard status into the label shown.
pub fn render_client_budget_target_human<F: Fn(&str) -> String>(
    payload: &Json,
    requested_percent: u64,
    max_percent: u64,
    step_percent: u64,
    status_label_display: &F,
) -> (r: String)
    requires
        step_percent > 0,
        forall|s: &str| #[trigger] status_label_display.requires((s,)),
    ensures
        exists|shown: Option<Seq<char>>|
            #[trigger] shown_status_label(
                *status_label_display,
                field(field(payload@, "client_budget_target_update"@), "client_budget_guard"@),
                shown,
            ) && r@ == join(
                target_update_human_lines(
                    payload@,
                    requested_percent,
                    max_percent,
                    step_percent,
                    text_or(shown, no_data()),
                ),
                "\n"@,
            ),
{
    let u = field_ref(payload, "client_budget_target_update");
    let project = field_ref(u, "project");
    let namespace = field_ref(u, "namespace");
    let guard = field_ref(u, "client_budget_guard");
    let label = format_client_budget_status_label_for_human(guard, status_label_display);
    let ghost shown = choose|shown: Option<Seq<char>>|
        #[trigger] shown_status_label(*status_label_display, guard@, shown) && label@ == text_or(shown, no_data());
    let target = match get_u64(u, "target_percent") {
        Some(t) => t,
        None => requested_percent,
    };
    let allowed = allowed_client_budget_target_values(max_percent, step_percent);
    let mut lines: Vec<Vec<char>> = Vec::new();
    assert(views(lines@) =~= Seq::<Seq<char>>::empty());
    push_line(&mut lines, chars_of("Amai continuity client-budget-target"));
    push_line(&mut lines, Vec::new());
    assert(views(lines@) =~= seq!["Amai continuity client-budget-target"@, Seq::empty()]);
    let scope = format_project_scope_for_human(get_str(project, "display_name"), get_str(project, "code"));
    push_line(&mut lines, prefixed("Проект: ", scope.as_str()));
    let root = format_optional_text_for_human(get_str(project, "repo_root"));
    push_line(&mut lines, prefixed("Корень проекта: ", root.as_str()));
    let code = format_optional_text_for_human(get_str(namespace, "code"));
    push_line(&mut lines, prefixed("Namespace continuity: ", code.as_str()));
    let mut t: Vec<char> = Vec::new();
    push_str(&mut t, "Целевой target клиентской экономии: ");
    let d = decimal_chars(target);
    push_all(&mut t, d.as_slice());
    push_str(&mut t, "%");
    assert(t@ =~= "Целевой target клиентской экономии: "@ + decimal(target as nat) + "%"@);
    push_line(&mut lines, t);
    let mut a: Vec<char> = Vec::new();
    push_str(&mut a, "Разрешённые значения: ");
    let pl = percent_list_exec(&allowed);
    push_all(&mut a, pl.as_slice());
    assert(a@ =~= "Разрешённые значения: "@ + percent_list(allowed_targets(max_percent, step_percent)));
    push_line(&mut lines, a);
    push_line(&mut lines, prefixed("Live client-budget guard: ", label.as_str()));
    let ghost head = views(lines@);
    let reply = raw_text_exec(guard, "reply_prefix");
    assert(crate::answer::opt_view(reply) == raw_text(field(guard@, "reply_prefix"@)));
    push_opt_line(&mut lines, reply, "Текущий reply prefix: ");
    let exact = get_str(field_ref(u, "operator_notice"), "exact_chat_command");
    assert(crate::answer::opt_view(exact) == as_str(field(field(u@, "operator_notice"@), "exact_chat_command"@)));
    push_opt_line(&mut lines, exact, "Exact chat-команда: ");
    let ghost mid = views(lines@);
    let restore = field_ref(u, "working_state_restore");
    if matches!(restore, Json::Object(_)) {
        let goal = raw_text_exec(restore, "current_goal");
        assert(crate::answer::opt_view(goal) == raw_text(field(restore@, "current_goal"@)));
        push_opt_line(&mut lines, goal, "Активная линия: ");
        let step = raw_text_exec(restore, "next_step");
        assert(crate::answer::opt_view(step) == raw_text(field(restore@, "next_step"@)));
        push_opt_line(&mut lines, step, "Следующий шаг: ");
    }
    let ghost mid2 = views(lines@);
    let warning = raw_text_exec(field_ref(u, "working_state_write_status"), "warning");
    assert(crate::answer::opt_view(warning) == raw_text(field(field(u@, "working_state_write_status"@), "warning"@)));
    push_opt_line(&mut lines, warning, "Degraded write-state: ");
    proof {
        let p = payload@;
        let uv = field(p, "client_budget_target_update"@);
        let rv = field(uv, "working_state_restore"@);
        let rest = if rv is Object {
            line_if(raw_text(field(rv, "current_goal"@)), "Активная линия: "@) + line_if(
                raw_text(field(rv, "next_step"@)),
                "Следующий шаг: "@,
            )
        } else {
            Seq::<Seq<char>>::empty()
        };
        let pv = field(uv, "project"@);
        let target_v = match as_u64(field(uv, "target_percent"@)) {
            Some(t) => t,
            None => requested_percent,
        };
        assert(target_v == target);
        assert(scope@ == text_or(as_text(field(pv, "display_name"@)), no_data()) + " ("@ + text_or(
            as_text(field(pv, "code"@)),
            no_data(),
        ) + ")"@);
        assert(root@ == text_or(as_text(field(pv, "repo_root"@)), no_data()));
        assert(code@ == text_or(as_text(field(field(uv, "namespace"@), "code"@)), no_data()));
        assert(head =~= seq![
            "Amai continuity client-budget-target"@,
            Seq::empty(),
            "Проект: "@ + scope@,
            "Корень проекта: "@ + root@,
            "Namespace continuity: "@ + code@,
            "Целевой target клиентской экономии: "@ + decimal(target as nat) + "%"@,
            "Разрешённые значения: "@ + percent_list(allowed_targets(max_percent, step_percent)),
            "Live client-budget guard: "@ + label@,
        ]);
        assert(mid2 =~= mid + rest);
        let l1 = line_if(raw_text(field(field(uv, "client_budget_guard"@), "reply_prefix"@)), "Текущий reply prefix: "@);
        let l2 = line_if(as_str(field(field(uv, "operator_notice"@), "exact_chat_command"@)), "Exact chat-команда: "@);
        let l4 = line_if(raw_text(field(field(uv, "working_state_write_status"@), "warning"@)), "Degraded write-state: "@);
        assert(mid =~= head + l1 + l2);
        assert(views(lines@) =~= mid2 + l4);
        assert(views(lines@) =~= head + l1 + l2 + rest + l4);
        assert("Проект: "@ + scope@ =~= "Проект: "@ + text_or(as_text(field(pv, "display_name"@)), no_data()) + " ("@
            + text_or(as_text(field(pv, "code"@)), no_data()) + ")"@);
        assert(views(lines@) =~~= target_update_human_lines(p, requested_percent, max_percent, step_percent, label@));
    }
    join_lines(&lines)
}

fn targets_json(values: &Vec<u64>) -> (r: Json)
    ensures
        r@ == targets_view(values@),
{
    let mut items: Vec<Json> = Vec::new();
    let mut i: usize = 0;
    while i < values.len()
        invariant
            i <= values@.len(),
            crate::json::items_view(items@) == values@.take(i as int).map_values(|v: u64| JsonView::Number(v as int)),
        decreases values@.len() - i,
    {
        let item = Json::Number(values[i] as i128);
        proof {
            crate::json::lemma_items_push(items@, item);
            assert(values@.take(i + 1).map_values(|v: u64| JsonView::Number(v as int)) =~= values@.take(
                i as int,
            ).map_values(|v: u64| JsonView::Number(v as int)).push(JsonView::Number(values@[i as int] as int)));
        }
        items.push(item);
        i = i + 1;
    }
    assert(values@.take(values@.len() as int) =~= values@);
    Json::Array(items)
}

fn target_changed_message_exec(target_percent: u64) -> (r: String)
    ensures
        r@ == target_changed_message(target_percent),
{
    let mut out: Vec<char> = Vec::new();
    push_str(&mut out, "Режим целевой экономии переключён на ");
    let d = decimal_chars(target_percent);
    push_all(&mut out, d.as_slice());
    push_str(&mut out, "%.");
    string_of(out.as_slice())
}

/// The client-budget target update payload. `target_percent` is the target after the
/// working state normalised it, `max_percent` and `step_percent` the limits of the
/// allowed targets, `write_status` how the working state recorded the change,
/// `restore` the recent restore bundle (`null` when there is none), `guard` the live
/// client-budget guard and `thread_id` the chat thread the change came from.
pub fn build_client_budget_target_update(
    project: &ProjectRecord,
    namespace: &NamespaceRecord,
    target_percent: u64,
    max_percent: u64,
    step_percent: u64,
    write_status: &Json,
    restore: &Json,
    guard: &Json,
    thread_id: Option<&str>,
) -> (r: Json)
    requires
        step_percent > 0,
    ensures
        r@ == target_update(
            *project,
            *namespace,
            target_percent,
            max_percent,
            step_percent,
            write_status@,
            restore@,
            guard@,
            crate::answer::opt_view(thread_id),
        ),
{
    let allowed = allowed_client_budget_target_values(max_percent, step_percent);
    let base = target_changed_message_exec(target_percent);
    let message = append_working_state_warning_to_message(base.as_str(), write_status);
    let command = client_budget_target_chat_command(target_percent);
    let pattern = client_budget_target_chat_command_pattern(max_percent, step_percent);
    let ghost ws = write_status@;
    let ghost g = guard@;
    let ghost tid = crate::answer::opt_view(thread_id);
    let mut nb = ObjectBuilder::new();
    nb.push("kind", Json::Str("client_budget_target_changed".to_string()));
    nb.push("message_text", Json::Str(message));
    nb.push("reply_prefix", clone_json(field_ref(guard, "reply_prefix")));
    nb.push("exact_chat_command", Json::Str(command));
    nb.push("chat_command_pattern", Json::Str(pattern));
    nb.push("thread_id", opt_str_json(thread_id));
    nb.push("allowed_target_percents", targets_json(&allowed));
    nb.push("working_state_write_status", clone_json(write_status));
    proof {
        reveal_strlit("client_budget_target_changed");
    }
    assert(nb.view_entries() =~= target_notice(target_percent, max_percent, step_percent, ws, g, tid)->Object_0);
    let working_state = match get(restore, "working_state_restore") {
        Some(node) => normalized_working_state_restore_projection(Some(node)),
        None => normalized_working_state_restore_projection(None),
    };
    let mut ub = ObjectBuilder::new();
    ub.push("project", project_json(project));
    ub.push("namespace", namespace_json(namespace));
    ub.push("target_percent", Json::Number(target_percent as i128));
    ub.push("allowed_target_percents", targets_json(&allowed));
    ub.push("working_state_write_status", clone_json(write_status));
    ub.push("working_state_restore", working_state);
    ub.push("client_budget_guard", clone_json(guard));
    let notice = nb.build();
    let ghost nv = notice@;
    ub.push("operator_notice", notice);
    assert(ub.view_entries() =~= seq![
        ("project"@, project_view(*project)),
        ("namespace"@, namespace_view(*namespace)),
        ("target_percent"@, JsonView::Number(target_percent as int)),
        ("allowed_target_percents"@, targets_view(allowed_targets(max_percent, step_percent))),
        ("working_state_write_status"@, ws),
        ("working_state_restore"@, working_state_projection(field(restore@, "working_state_restore"@))),
        ("client_budget_guard"@, g),
        ("operator_notice"@, nv),
    ]);
    let inner = ub.build();
    let ghost iv = inner@;
    let mut outer = ObjectBuilder::new();
    outer.push("client_budget_target_update", inner);
    assert(outer.view_entries() =~= seq![("client_budget_target_update"@, iv)]);
    let r = outer.build();
    assert(r@ == target_update(*project, *namespace, target_percent, max_percent, step_percent, ws, restore@, g, tid));
    r
}

/// The targets as decimals joined by `, `.
pub open spec fn decimal_list(values: Seq<u64>) -> Seq<char>
    decreases values.len(),
{
    if values.len() == 0 {
        Seq::empty()
    } else if values.len() == 1 {
        decimal(values[0] as nat)
    } else {
        decimal_list(values.drop_last()) + ", "@ + decimal(values.last() as nat)
    }
}

/// The refusal of a target that is not one of the allowed ones.
pub fn client_budget_target_choices_error(max_percent: u64, step_percent: u64) -> (r: String)
    requires
        step_percent > 0,
    ensures
        r@ == "client budget target must be one of "@ + decimal_list(allowed_targets(max_percent, step_percent)),
{
    let values = allowed_client_budget_target_values(max_percent, step_percent);
    let mut out: Vec<char> = Vec::new();
    push_str(&mut out, "client budget target must be one of ");
    let ghost o0 = out@;
    let mut i: usize = 0;
    while i < values.len()
        invariant
            i <= values@.len(),
            out@ == o0 + decimal_list(values@.take(i as int)),
        decreases values@.len() - i,
    {
        if i > 0 {
            push_str(&mut out, ", ");
        }
        let d = decimal_chars(values[i]);
        push_all(&mut out, d.as_slice());
        proof {
            let t = values@.take(i + 1);
            assert(t.drop_last() =~= values@.take(i as int));
            if i == 0 {
                assert(values@.take(0) =~= Seq::<u64>::empty());
                assert(out@ =~= o0 + decimal(t[0] as nat));
            } else {
                assert(out@ =~= o0 + (decimal_list(t.drop_last()) + ", "@ + decimal(t.last() as nat)));
            }
        }
        i = i + 1;
    }
    assert(values@.take(values@.len() as int) =~= values@);
    string_of(out.as_slice())
}

} // verus!
