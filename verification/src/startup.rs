//! The startup contract of a restored session: the resume obligation that execution
//! control imposes, the next action startup recommends from it, and its one-line summary.
use vstd::prelude::*;
use crate::answer::{collapsed_answer, compact_prompt_fragment};
use crate::budget::{advisory_text, normalize_client_budget_advisory_text};
use crate::json::{
    as_array, as_bool, as_str, as_text, as_u64, field, get, get_bool, get_cloned, get_str,
    get_text, get_u64, is_object, items_view, lemma_items_view, opt_str_json, opt_str_view,
    opt_u64_json, opt_u64_view, str_json, Json, JsonView, ObjectBuilder,
};
use crate::labels::{no_data, optional_non_empty_text, text_or};
use crate::text::{non_empty_trimmed, push_str, str_eq, string_of};

verus! {

/// `j[k1][k2]` as trimmed text, when it holds any.
pub open spec fn text_at2(j: JsonView, k1: Seq<char>, k2: Seq<char>) -> Option<Seq<char>> {
    as_text(field(field(j, k1), k2))
}

fn get_text2<'a>(j: &'a Json, k1: &str, k2: &str) -> (r: Option<&'a str>)
    ensures
        match r {
            Some(t) => text_at2(j@, k1@, k2@) == Some(t@),
            None => text_at2(j@, k1@, k2@) is None,
        },
{
    match get(j, k1) {
        Some(x) => get_text(x, k2),
        None => None,
    }
}

/// The resume obligation when execution control gave none: no silent drop, and one
/// pending return exactly when a required return task with a headline is known.
pub open spec fn default_obligation(task: Option<JsonView>, resume_state: Option<Seq<char>>) -> JsonView {
    let h = match task {
        Some(t) => as_text(field(t, "headline"@)),
        None => None,
    };
    let n = match task {
        Some(t) => as_text(field(t, "next_step"@)),
        None => None,
    };
    JsonView::Object(
        seq![
            ("resume_state"@, opt_str_view(resume_state)),
            ("no_silent_drop"@, JsonView::Bool(true)),
            ("pending_return_count"@, JsonView::Number(if h is Some { 1 } else { 0 })),
            ("active_task_headline"@, JsonView::Null),
            ("required_return_headline"@, opt_str_view(h)),
            ("required_return_next_step"@, opt_str_view(n)),
            ("required_task_set_count"@, JsonView::Number(0)),
            ("required_task_set"@, JsonView::Array(Seq::empty())),
            ("required_task_set_summary"@, JsonView::Null),
        ],
    )
}

pub open spec fn opt_seq(o: Option<&str>) -> Option<Seq<char>> {
    match o {
        Some(t) => Some(t@),
        None => None,
    }
}

pub fn default_execctl_resume_obligation(
    required_return_task: Option<&Json>,
    resume_state: Option<&str>,
) -> (r: Json)
    ensures
        r@ == default_obligation(
            match required_return_task {
                Some(t) => Some(t@),
                None => None,
            },
            opt_seq(resume_state),
        ),
{
    let headline = match required_return_task {
        Some(t) => get_text(t, "headline"),
        None => None,
    };
    let next_step = match required_return_task {
        Some(t) => get_text(t, "next_step"),
        None => None,
    };
    let count: i128 = if headline.is_some() { 1 } else { 0 };
    let mut b = ObjectBuilder::new();
    let rs = opt_str_json(resume_state);
    assert(rs@ == opt_str_view(opt_seq(resume_state)));
    b.push("resume_state", rs);
    b.push("no_silent_drop", Json::Bool(true));
    b.push("pending_return_count", Json::Number(count));
    b.push("active_task_headline", Json::Null);
    b.push("required_return_headline", opt_str_json(headline));
    b.push("required_return_next_step", opt_str_json(next_step));
    b.push("required_task_set_count", Json::Number(0));
    b.push("required_task_set", Json::Array(Vec::new()));
    b.push("required_task_set_summary", Json::Null);
    proof {
        assert(items_view(Seq::<Json>::empty()) =~= Seq::<JsonView>::empty());
    }
    let ghost task = match required_return_task {
        Some(t) => Some(t@),
        None => None,
    };
    let ghost h = match task {
        Some(t) => as_text(field(t, "headline"@)),
        None => None,
    };
    let ghost n = match task {
        Some(t) => as_text(field(t, "next_step"@)),
        None => None,
    };
    assert(b.view_entries() =~= seq![
        ("resume_state"@, opt_str_view(opt_seq(resume_state))),
        ("no_silent_drop"@, JsonView::Bool(true)),
        ("pending_return_count"@, JsonView::Number(if h is Some { 1 } else { 0 })),
        ("active_task_headline"@, JsonView::Null),
        ("required_return_headline"@, opt_str_view(h)),
        ("required_return_next_step"@, opt_str_view(n)),
        ("required_task_set_count"@, JsonView::Number(0)),
        ("required_task_set"@, JsonView::Array(Seq::empty())),
        ("required_task_set_summary"@, JsonView::Null),
    ]);
    b.build()
}

/// The resume obligation execution control recorded, its text fields trimmed (blank
/// ones `null`), `no_silent_drop` defaulting to true; a contract that is not an object
/// gives the default obligation.
pub open spec fn obligation_summary(c: JsonView) -> JsonView {
    if !(c is Object) {
        default_obligation(None, None)
    } else {
        JsonView::Object(
            seq![
                ("resume_state"@, opt_str_view(as_text(field(c, "resume_state"@)))),
                (
                    "no_silent_drop"@,
                    JsonView::Bool(
                        match as_bool(field(c, "no_silent_drop"@)) {
                            Some(b) => b,
                            None => true,
                        },
                    ),
                ),
                ("pending_return_count"@, opt_u64_view(as_u64(field(c, "pending_return_count"@)))),
                ("active_task_headline"@, opt_str_view(text_at2(c, "active_task"@, "headline"@))),
                (
                    "required_return_headline"@,
                    opt_str_view(text_at2(c, "required_return_task"@, "headline"@)),
                ),
                (
                    "required_return_next_step"@,
                    opt_str_view(text_at2(c, "required_return_task"@, "next_step"@)),
                ),
                (
                    "required_task_set_count"@,
                    opt_u64_view(as_u64(field(c, "required_task_set_count"@))),
                ),
                ("required_task_set"@, field(c, "required_task_set"@)),
                (
                    "required_task_set_summary"@,
                    opt_str_view(as_text(field(c, "required_task_set_summary"@))),
                ),
            ],
        )
    }
}

pub fn summarize_execctl_resume_obligation(contract: &Json) -> (r: Json)
    ensures
        r@ == obligation_summary(contract@),
{
    if !is_object(contract) {
        return default_execctl_resume_obligation(None, None);
    }
    let no_silent_drop = match get_bool(contract, "no_silent_drop") {
        Some(b) => b,
        None => true,
    };
    let mut b = ObjectBuilder::new();
    b.push("resume_state", opt_str_json(get_text(contract, "resume_state")));
    b.push("no_silent_drop", Json::Bool(no_silent_drop));
    b.push("pending_return_count", opt_u64_json(get_u64(contract, "pending_return_count")));
    b.push("active_task_headline", opt_str_json(get_text2(contract, "active_task", "headline")));
    b.push(
        "required_return_headline",
        opt_str_json(get_text2(contract, "required_return_task", "headline")),
    );
    b.push(
        "required_return_next_step",
        opt_str_json(get_text2(contract, "required_return_task", "next_step")),
    );
    b.push("required_task_set_count", opt_u64_json(get_u64(contract, "required_task_set_count")));
    b.push("required_task_set", get_cloned(contract, "required_task_set"));
    b.push(
        "required_task_set_summary",
        opt_str_json(get_text(contract, "required_task_set_summary")),
    );
    let ghost c = contract@;
    assert(b.view_entries() =~= seq![
        ("resume_state"@, opt_str_view(as_text(field(c, "resume_state"@)))),
        (
            "no_silent_drop"@,
            JsonView::Bool(
                match as_bool(field(c, "no_silent_drop"@)) {
                    Some(b) => b,
                    None => true,
                },
            ),
        ),
        ("pending_return_count"@, opt_u64_view(as_u64(field(c, "pending_return_count"@)))),
        ("active_task_headline"@, opt_str_view(text_at2(c, "active_task"@, "headline"@))),
        ("required_return_headline"@, opt_str_view(text_at2(c, "required_return_task"@, "headline"@))),
        ("required_return_next_step"@, opt_str_view(text_at2(c, "required_return_task"@, "next_step"@))),
        ("required_task_set_count"@, opt_u64_view(as_u64(field(c, "required_task_set_count"@)))),
        ("required_task_set"@, field(c, "required_task_set"@)),
        ("required_task_set_summary"@, opt_str_view(as_text(field(c, "required_task_set_summary"@)))),
    ]);
    b.build()
}

/// The tasks that must be carried, as recorded (none when it is not an array).
pub open spec fn task_set(o: JsonView) -> Seq<JsonView> {
    match as_array(field(o, "required_task_set"@)) {
        Some(items) => items,
        None => Seq::empty(),
    }
}

/// The first task of the set as trimmed text, when it is text.
pub open spec fn task_set_next_step(o: JsonView) -> Option<Seq<char>> {
    let set = task_set(o);
    if set.len() > 0 {
        match as_str(set[0]) {
            Some(t) => non_empty_trimmed(t),
            None => None,
        }
    } else {
        None
    }
}

/// Which next action startup recommends.
pub enum NextActionKind {
    /// A return task is owed and the resume state is not `clear`.
    ResumeRequiredReturnTask,
    /// A required task set is recorded.
    HonorRequiredTaskSet,
    /// Nothing blocks the restored active workline.
    ContinueActiveWorkline,
}

pub open spec fn next_action_kind(o: JsonView) -> NextActionKind {
    let rs = as_text(field(o, "resume_state"@));
    if rs matches Some(v) && v != "clear"@ && as_text(field(o, "required_return_headline"@)) is Some {
        NextActionKind::ResumeRequiredReturnTask
    } else if task_set(o).len() > 0 {
        NextActionKind::HonorRequiredTaskSet
    } else {
        NextActionKind::ContinueActiveWorkline
    }
}

/// The next action startup recommends from the resume obligation `o`.
pub open spec fn startup_next_action(current_goal: Seq<char>, next_step: Seq<char>, o: JsonView) -> JsonView {
    let rs = opt_str_view(as_text(field(o, "resume_state"@)));
    let nsd = JsonView::Bool(
        match as_bool(field(o, "no_silent_drop"@)) {
            Some(b) => b,
            None => true,
        },
    );
    let active = text_or(as_text(field(o, "active_task_headline"@)), current_goal);
    let set = JsonView::Array(task_set(o));
    let set_summary = opt_str_view(as_text(field(o, "required_task_set_summary"@)));
    match next_action_kind(o) {
        NextActionKind::ResumeRequiredReturnTask => JsonView::Object(
            seq![
                ("action_version"@, JsonView::Str("startup-next-action-v1"@)),
                ("action_kind"@, JsonView::Str("resume_required_return_task"@)),
                ("blocking"@, JsonView::Bool(true)),
                ("reason"@, JsonView::Str("execctl_return_required"@)),
                ("resume_state"@, rs),
                ("no_silent_drop"@, nsd),
                ("headline"@, opt_str_view(as_text(field(o, "required_return_headline"@)))),
                ("next_step"@, opt_str_view(as_text(field(o, "required_return_next_step"@)))),
                ("required_task_set"@, set),
                ("required_task_set_summary"@, set_summary),
            ],
        ),
        NextActionKind::HonorRequiredTaskSet => JsonView::Object(
            seq![
                ("action_version"@, JsonView::Str("startup-next-action-v1"@)),
                ("action_kind"@, JsonView::Str("honor_required_task_set"@)),
                ("blocking"@, JsonView::Bool(true)),
                ("reason"@, JsonView::Str("required_task_set_present"@)),
                ("resume_state"@, rs),
                ("no_silent_drop"@, nsd),
                ("headline"@, JsonView::Str(active)),
                ("next_step"@, JsonView::Str(text_or(task_set_next_step(o), next_step))),
                ("required_task_set"@, set),
                ("required_task_set_summary"@, set_summary),
            ],
        ),
        NextActionKind::ContinueActiveWorkline => JsonView::Object(
            seq![
                ("action_version"@, JsonView::Str("startup-next-action-v1"@)),
                ("action_kind"@, JsonView::Str("continue_active_workline"@)),
                ("blocking"@, JsonView::Bool(false)),
                ("reason"@, JsonView::Str("active_workline_restored"@)),
                ("resume_state"@, rs),
                ("no_silent_drop"@, nsd),
                ("headline"@, JsonView::Str(active)),
                ("next_step"@, JsonView::Str(next_step)),
            ],
        ),
    }
}

fn task_set_exec(o: &Json) -> (r: Vec<Json>)
    ensures
        items_view(r@) == task_set(o@),
{
    match get_cloned(o, "required_task_set") {
        Json::Array(v) => v,
        _ => Vec::new(),
    }
}

/// The next action startup recommends: resume the owed return task while execution
/// control says so, else honour a recorded required task set, else continue the restored
/// active workline. The budget guard does not enter the decision.
pub fn default_startup_next_action(
    current_goal: &str,
    next_step: &str,
    execctl_resume_obligation: &Json,
    client_budget_guard: Option<&Json>,
) -> (r: Json)
    ensures
        r@ == startup_next_action(current_goal@, next_step@, execctl_resume_obligation@),
{
    let o = execctl_resume_obligation;
    let ghost ov = o@;
    let resume_state = get_text(o, "resume_state");
    let no_silent_drop = match get_bool(o, "no_silent_drop") {
        Some(b) => b,
        None => true,
    };
    let active = match get_text(o, "active_task_headline") {
        Some(t) => t,
        None => current_goal,
    };
    let required_headline = get_text(o, "required_return_headline");
    let required_next_step = get_text(o, "required_return_next_step");
    let set = task_set_exec(o);
    let set_summary = get_text(o, "required_task_set_summary");
    proof {
        lemma_items_view(set@);
    }
    let set_next = if set.len() > 0 {
        match &set[0] {
            Json::Str(t) => optional_non_empty_text(Some(t.as_str())),
            _ => None,
        }
    } else {
        None
    };
    assert(match set_next {
        Some(t) => task_set_next_step(ov) == Some(t@),
        None => task_set_next_step(ov) is None,
    });
    let resume_blocks = match resume_state {
        Some(v) => !str_eq(v, "clear"),
        None => false,
    };
    let mut b = ObjectBuilder::new();
    b.push("action_version", str_json("startup-next-action-v1"));
    if resume_blocks && required_headline.is_some() {
        b.push("action_kind", str_json("resume_required_return_task"));
        b.push("blocking", Json::Bool(true));
        b.push("reason", str_json("execctl_return_required"));
        b.push("resume_state", opt_str_json(resume_state));
        b.push("no_silent_drop", Json::Bool(no_silent_drop));
        b.push("headline", opt_str_json(required_headline));
        b.push("next_step", opt_str_json(required_next_step));
        b.push("required_task_set", Json::Array(set));
        b.push("required_task_set_summary", opt_str_json(set_summary));
        assert(next_action_kind(ov) == NextActionKind::ResumeRequiredReturnTask);
        assert(b.view_entries() =~= startup_next_action(current_goal@, next_step@, ov)->Object_0);
    } else if set.len() > 0 {
        let step = match set_next {
            Some(t) => t,
            None => next_step,
        };
        b.push("action_kind", str_json("honor_required_task_set"));
        b.push("blocking", Json::Bool(true));
        b.push("reason", str_json("required_task_set_present"));
        b.push("resume_state", opt_str_json(resume_state));
        b.push("no_silent_drop", Json::Bool(no_silent_drop));
        b.push("headline", str_json(active));
        b.push("next_step", str_json(step));
        b.push("required_task_set", Json::Array(set));
        b.push("required_task_set_summary", opt_str_json(set_summary));
        assert(next_action_kind(ov) == NextActionKind::HonorRequiredTaskSet);
        assert(b.view_entries() =~= startup_next_action(current_goal@, next_step@, ov)->Object_0);
    } else {
        b.push("action_kind", str_json("continue_active_workline"));
        b.push("blocking", Json::Bool(false));
        b.push("reason", str_json("active_workline_restored"));
        b.push("resume_state", opt_str_json(resume_state));
        b.push("no_silent_drop", Json::Bool(no_silent_drop));
        b.push("headline", str_json(active));
        b.push("next_step", str_json(next_step));
        assert(next_action_kind(ov) == NextActionKind::ContinueActiveWorkline);
        assert(b.view_entries() =~= startup_next_action(current_goal@, next_step@, ov)->Object_0);
    }
    b.build()
}

/// A headline or next step of an action as shown in its summary.
pub open spec fn action_text(v: JsonView, key: Seq<char>) -> Seq<char> {
    match as_text(field(v, key)) {
        Some(t) => advisory_text(t),
        None => no_data(),
    }
}

/// `<kind>: <headline> -> <next step>`, with the task-set summary cut to 72 characters
/// for a required task set; nothing when the action has no kind.
pub open spec fn next_action_summary(v: JsonView) -> Option<Seq<char>> {
    match as_str(field(v, "action_kind"@)) {
        Some(kind) => if kind.len() > 0 {
            let base = kind + ": "@ + action_text(v, "headline"@) + " -> "@ + action_text(v, "next_step"@);
            Some(
                if kind == "honor_required_task_set"@ {
                    match as_text(field(v, "required_task_set_summary"@)) {
                        Some(t) => base + " ("@ + collapsed_answer(t, 72) + ")"@,
                        None => base,
                    }
                } else {
                    base
                },
            )
        } else {
            None
        },
        None => None,
    }
}

fn action_text_exec(v: &Json, key: &str) -> (r: String)
    ensures
        r@ == action_text(v@, key@),
{
    match get_text(v, key) {
        Some(t) => normalize_client_budget_advisory_text(t),
        None => "ещё нет данных".to_string(),
    }
}

pub fn summarize_startup_next_action(value: &Json) -> (r: Option<String>)
    ensures
        match r {
            Some(t) => next_action_summary(value@) == Some(t@),
            None => next_action_summary(value@) is None,
        },
{
    let kind = match get_str(value, "action_kind") {
        Some(k) => k,
        None => {
            return None;
        },
    };
    if kind.unicode_len() == 0 {
        return None;
    }
    let headline = action_text_exec(value, "headline");
    let next_step = action_text_exec(value, "next_step");
    let mut out: Vec<char> = Vec::new();
    push_str(&mut out, kind);
    push_str(&mut out, ": ");
    push_str(&mut out, headline.as_str());
    push_str(&mut out, " -> ");
    push_str(&mut out, next_step.as_str());
    if str_eq(kind, "honor_required_task_set") {
        match get_text(value, "required_task_set_summary") {
            Some(t) => {
                let fragment = compact_prompt_fragment(t, 72);
                push_str(&mut out, " (");
                push_str(&mut out, fragment.as_str());
                push_str(&mut out, ")");
            },
            None => {},
        }
    }
    Some(string_of(out.as_slice()))
}

} // verus!
