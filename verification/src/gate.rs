//! The startup execution gate: what a restored session must do before anything else,
//! derived from the chat-start restore and the project's startup contract, and the check
//! that a recorded gate still agrees with that contract.
use vstd::prelude::*;
use crate::json::{
    as_array, as_bool, as_str, as_text, field, get, get_bool, get_str, has_key, contains_key, is_object,
    items_view, lemma_items_view, opt_str_json, opt_str_view, str_json, Json, JsonView,
    ObjectBuilder,
};
use crate::labels::text_or;
use crate::text::{str_eq, trim, trim_str};

verus! {

/// `j[k1][k2]`.
pub open spec fn field2(j: JsonView, k1: Seq<char>, k2: Seq<char>) -> JsonView {
    field(field(j, k1), k2)
}

/// `j[k1][k2][k3]`.
pub open spec fn field3(j: JsonView, k1: Seq<char>, k2: Seq<char>, k3: Seq<char>) -> JsonView {
    field(field(field(j, k1), k2), k3)
}

fn at2<'a>(j: &'a Json, k1: &str, k2: &str) -> (r: Option<&'a Json>)
    ensures
        match r {
            Some(x) => x@ == field2(j@, k1@, k2@),
            None => field2(j@, k1@, k2@) == JsonView::Null,
        },
{
    match get(j, k1) {
        Some(x) => get(x, k2),
        None => None,
    }
}

fn str2<'a>(j: &'a Json, k1: &str, k2: &str) -> (r: Option<&'a str>)
    ensures
        match r {
            Some(t) => as_str(field2(j@, k1@, k2@)) == Some(t@),
            None => as_str(field2(j@, k1@, k2@)) is None,
        },
{
    match get(j, k1) {
        Some(x) => get_str(x, k2),
        None => None,
    }
}

fn bool2(j: &Json, k1: &str, k2: &str) -> (r: Option<bool>)
    ensures
        r == as_bool(field2(j@, k1@, k2@)),
{
    match get(j, k1) {
        Some(x) => get_bool(x, k2),
        None => None,
    }
}

fn str3<'a>(j: &'a Json, k1: &str, k2: &str, k3: &str) -> (r: Option<&'a str>)
    ensures
        match r {
            Some(t) => as_str(field3(j@, k1@, k2@, k3@)) == Some(t@),
            None => as_str(field3(j@, k1@, k2@, k3@)) is None,
        },
{
    match at2(j, k1, k2) {
        Some(x) => get_str(x, k3),
        None => None,
    }
}

fn bool3(j: &Json, k1: &str, k2: &str, k3: &str) -> (r: Option<bool>)
    ensures
        r == as_bool(field3(j@, k1@, k2@, k3@)),
{
    match at2(j, k1, k2) {
        Some(x) => get_bool(x, k3),
        None => None,
    }
}

pub open spec fn opt_seq(o: Option<&str>) -> Option<Seq<char>> {
    match o {
        Some(t) => Some(t@),
        None => None,
    }
}

fn opt_str_eq(a: Option<&str>, b: Option<&str>) -> (r: bool)
    ensures
        r == (opt_seq(a) == opt_seq(b)),
{
    match (a, b) {
        (Some(x), Some(y)) => str_eq(x, y),
        (None, None) => true,
        _ => false,
    }
}

/// The value a contract names, or its default.
pub open spec fn str_or(o: Option<Seq<char>>, d: Seq<char>) -> Seq<char> {
    text_or(o, d)
}

/// The startup next action's kind, `continue_active_workline` when missing.
#[verifier::opaque]
pub open spec fn gate_action_kind(p: JsonView) -> Seq<char> {
    str_or(
        as_str(field3(p, "chat_start_restore"@, "startup_next_action"@, "action_kind"@)),
        "continue_active_workline"@,
    )
}

/// Whether the startup next action blocks; not when unknown.
#[verifier::opaque]
pub open spec fn gate_blocking(p: JsonView) -> bool {
    match as_bool(field3(p, "chat_start_restore"@, "startup_next_action"@, "blocking"@)) {
        Some(b) => b,
        None => false,
    }
}

/// The action kind the contract requires while a return is owed.
#[verifier::opaque]
pub open spec fn gate_required_kind(contract: JsonView) -> Seq<char> {
    str_or(
        as_str(field(field(contract, "resume_enforcement"@), "required_action_kind_when_resume_required"@)),
        "resume_required_return_task"@,
    )
}

/// Whether the session must follow the startup next action: it blocks, or the contract
/// demands that an owed return is resumed first and that is the action, or the previous
/// session still owns the lease.
#[verifier::opaque]
pub open spec fn must_follow_next_action(p: JsonView, contract: JsonView) -> bool {
    let re = field(contract, "resume_enforcement"@);
    let lease_owner = as_str(field3(p, "chat_start_restore"@, "execctl_active_lease"@, "lease_owner_state"@));
    let previous_owner = str_or(as_str(field(re, "previous_session_owner_value"@)), "previous_session_owner"@);
    let resume_first = match as_bool(field(re, "must_resume_required_return_task_before_unrelated_work"@)) {
        Some(b) => b,
        None => false,
    };
    gate_blocking(p) || (resume_first && gate_action_kind(p) == gate_required_kind(contract))
        || lease_owner == Some(previous_owner)
}

/// The number of required tasks the chat-start restore lists.
#[verifier::opaque]
pub open spec fn task_set_count(p: JsonView) -> nat {
    match as_array(field2(p, "chat_start_restore"@, "required_task_set"@)) {
        Some(items) => items.len(),
        None => 0,
    }
}

/// The recorded resume state, trimmed; none when missing or blank.
#[verifier::opaque]
pub open spec fn gate_resume_state(p: JsonView) -> JsonView {
    opt_str_view(as_text(field2(p, "chat_start_restore"@, "execctl_resume_state"@)))
}

/// Whether the chat-start restore names a startup next action.
#[verifier::opaque]
pub open spec fn gate_has_next_action(p: JsonView) -> bool {
    field2(p, "chat_start_restore"@, "startup_next_action"@) is Object
}

/// `v`, or `null` when the chat-start restore names no startup next action.
pub open spec fn if_next_action(p: JsonView, v: JsonView) -> JsonView {
    if gate_has_next_action(p) {
        v
    } else {
        JsonView::Null
    }
}

/// Whether the chat-start restore holds a required return task.
#[verifier::opaque]
pub open spec fn gate_task_present(p: JsonView) -> bool {
    field2(p, "chat_start_restore"@, "required_return_task"@) is Object
}

/// A text field of the chat-start restore's required return task, trimmed; none when
/// missing or blank.
#[verifier::opaque]
pub open spec fn gate_task_text(p: JsonView, key: Seq<char>) -> JsonView {
    opt_str_view(as_text(field3(p, "chat_start_restore"@, "required_return_task"@, key)))
}

/// The owner state of the active lease.
#[verifier::opaque]
pub open spec fn gate_lease_owner(p: JsonView) -> JsonView {
    opt_str_view(as_str(field3(p, "chat_start_restore"@, "execctl_active_lease"@, "lease_owner_state"@)))
}

/// Whether the chat-start restore carries prompt text.
#[verifier::opaque]
pub open spec fn gate_prompt_present(p: JsonView) -> bool {
    match as_str(field2(p, "chat_start_restore"@, "prompt_text"@)) {
        Some(t) => trim(t).len() > 0,
        None => false,
    }
}

/// Whether the contract forbids silent drops.
#[verifier::opaque]
pub open spec fn gate_no_silent_drop(contract: JsonView) -> bool {
    match as_bool(field(field(contract, "resume_enforcement"@), "no_silent_drop"@)) {
        Some(b) => b,
        None => false,
    }
}

/// The startup execution gate for a startup payload under the startup contract.
pub open spec fn execution_gate_view(p: JsonView, contract: JsonView) -> JsonView {
    let n = task_set_count(p);
    let must_follow = must_follow_next_action(p, contract);
    JsonView::Object(
        seq![
            ("gate_version"@, JsonView::Str("startup-execution-gate-v1"@)),
            ("action_kind"@, if_next_action(p, JsonView::Str(gate_action_kind(p)))),
            ("blocking"@, if_next_action(p, JsonView::Bool(gate_blocking(p)))),
            ("required_task_set_count"@, JsonView::Number(n as int)),
            ("resume_state"@, gate_resume_state(p)),
            ("required_return_task_present"@, JsonView::Bool(gate_task_present(p))),
            ("required_return_task_headline"@, gate_task_text(p, "headline"@)),
            ("required_return_task_next_step"@, gate_task_text(p, "next_step"@)),
            ("required_task_set_present"@, JsonView::Bool(n > 0)),
            ("must_preserve_required_task_set"@, JsonView::Bool(n > 0)),
            ("lease_owner_state"@, gate_lease_owner(p)),
            ("must_follow_startup_next_action"@, if_next_action(p, JsonView::Bool(must_follow))),
            ("unrelated_work_allowed"@, if_next_action(p, JsonView::Bool(!must_follow))),
            ("must_read_prompt_text_before_reply"@, JsonView::Bool(gate_prompt_present(p))),
            ("required_action_kind_when_resume_required"@, JsonView::Str(gate_required_kind(contract))),
            ("no_silent_drop"@, JsonView::Bool(gate_no_silent_drop(contract))),
        ],
    )
}

fn gate_action_kind_exec<'a>(payload: &'a Json) -> (r: &'a str)
    ensures
        r@ == gate_action_kind(payload@),
{
    reveal(gate_action_kind);
    match str3(payload, "chat_start_restore", "startup_next_action", "action_kind") {
        Some(k) => k,
        None => "continue_active_workline",
    }
}

fn gate_blocking_exec(payload: &Json) -> (r: bool)
    ensures
        r == gate_blocking(payload@),
{
    reveal(gate_blocking);
    match bool3(payload, "chat_start_restore", "startup_next_action", "blocking") {
        Some(b) => b,
        None => false,
    }
}

fn gate_required_kind_exec<'a>(contract: &'a Json) -> (r: &'a str)
    ensures
        r@ == gate_required_kind(contract@),
{
    reveal(gate_required_kind);
    match str2(contract, "resume_enforcement", "required_action_kind_when_resume_required") {
        Some(v) => v,
        None => "resume_required_return_task",
    }
}

fn must_follow_exec(payload: &Json, contract: &Json) -> (r: bool)
    ensures
        r == must_follow_next_action(payload@, contract@),
{
    reveal(must_follow_next_action);
    let lease_owner = str3(payload, "chat_start_restore", "execctl_active_lease", "lease_owner_state");
    let previous_owner = match str2(contract, "resume_enforcement", "previous_session_owner_value") {
        Some(v) => v,
        None => "previous_session_owner",
    };
    let resume_first = match bool2(
        contract,
        "resume_enforcement",
        "must_resume_required_return_task_before_unrelated_work",
    ) {
        Some(b) => b,
        None => false,
    };
    let lease_is_previous = match lease_owner {
        Some(l) => str_eq(l, previous_owner),
        None => false,
    };
    gate_blocking_exec(payload) || (resume_first && str_eq(
        gate_action_kind_exec(payload),
        gate_required_kind_exec(contract),
    )) || lease_is_previous
}

fn task_set_count_exec(payload: &Json) -> (n: usize)
    ensures
        n == task_set_count(payload@),
{
    reveal(task_set_count);
    match at2(payload, "chat_start_restore", "required_task_set") {
        Some(Json::Array(items)) => {
            proof {
                lemma_items_view(items@);
            }
            items.len()
        },
        _ => 0,
    }
}

fn gate_resume_state_exec(payload: &Json) -> (r: Json)
    ensures
        r@ == gate_resume_state(payload@),
{
    reveal(gate_resume_state);
    match get(payload, "chat_start_restore") {
        Some(c) => opt_str_json(crate::json::get_text(c, "execctl_resume_state")),
        None => Json::Null,
    }
}

fn gate_has_next_action_exec(payload: &Json) -> (r: bool)
    ensures
        r == gate_has_next_action(payload@),
{
    reveal(gate_has_next_action);
    match at2(payload, "chat_start_restore", "startup_next_action") {
        Some(t) => is_object(t),
        None => false,
    }
}

fn if_next_action_exec(has: bool, v: Json, Ghost(p): Ghost<JsonView>) -> (r: Json)
    requires
        has == gate_has_next_action(p),
    ensures
        r@ == if_next_action(p, v@),
{
    if has {
        v
    } else {
        Json::Null
    }
}

fn gate_task_present_exec(payload: &Json) -> (r: bool)
    ensures
        r == gate_task_present(payload@),
{
    reveal(gate_task_present);
    match at2(payload, "chat_start_restore", "required_return_task") {
        Some(t) => is_object(t),
        None => false,
    }
}

fn gate_task_text_exec(payload: &Json, key: &str) -> (r: Json)
    ensures
        r@ == gate_task_text(payload@, key@),
{
    reveal(gate_task_text);
    match at2(payload, "chat_start_restore", "required_return_task") {
        Some(t) => opt_str_json(crate::json::get_text(t, key)),
        None => Json::Null,
    }
}

fn gate_lease_owner_exec(payload: &Json) -> (r: Json)
    ensures
        r@ == gate_lease_owner(payload@),
{
    reveal(gate_lease_owner);
    opt_str_json(str3(payload, "chat_start_restore", "execctl_active_lease", "lease_owner_state"))
}

pub fn gate_prompt_present_exec(payload: &Json) -> (r: bool)
    ensures
        r == gate_prompt_present(payload@),
{
    reveal(gate_prompt_present);
    match str2(payload, "chat_start_restore", "prompt_text") {
        Some(t) => trim_str(t).unicode_len() > 0,
        None => false,
    }
}

fn gate_no_silent_drop_exec(contract: &Json) -> (r: bool)
    ensures
        r == gate_no_silent_drop(contract@),
{
    reveal(gate_no_silent_drop);
    match bool2(contract, "resume_enforcement", "no_silent_drop") {
        Some(b) => b,
        None => false,
    }
}

/// The startup execution gate of a startup payload; `contract` is the project's startup
/// contract, whose resume enforcement decides when the next action must be followed.
pub fn build_startup_execution_gate(payload: &Json, contract: &Json) -> (r: Json)
    ensures
        r@ == execution_gate_view(payload@, contract@),
{
    let n = task_set_count_exec(payload);
    let must_follow = must_follow_exec(payload, contract);
    let has = gate_has_next_action_exec(payload);
    let ghost p = payload@;
    let mut b = ObjectBuilder::new();
    b.push("gate_version", str_json("startup-execution-gate-v1"));
    b.push("action_kind", if_next_action_exec(has, str_json(gate_action_kind_exec(payload)), Ghost(p)));
    b.push("blocking", if_next_action_exec(has, Json::Bool(gate_blocking_exec(payload)), Ghost(p)));
    b.push("required_task_set_count", Json::Number(n as i128));
    b.push("resume_state", gate_resume_state_exec(payload));
    b.push("required_return_task_present", Json::Bool(gate_task_present_exec(payload)));
    b.push("required_return_task_headline", gate_task_text_exec(payload, "headline"));
    b.push("required_return_task_next_step", gate_task_text_exec(payload, "next_step"));
    b.push("required_task_set_present", Json::Bool(n > 0));
    b.push("must_preserve_required_task_set", Json::Bool(n > 0));
    b.push("lease_owner_state", gate_lease_owner_exec(payload));
    b.push("must_follow_startup_next_action", if_next_action_exec(has, Json::Bool(must_follow), Ghost(p)));
    b.push("unrelated_work_allowed", if_next_action_exec(has, Json::Bool(!must_follow), Ghost(p)));
    b.push("must_read_prompt_text_before_reply", Json::Bool(gate_prompt_present_exec(payload)));
    b.push("required_action_kind_when_resume_required", str_json(gate_required_kind_exec(contract)));
    b.push("no_silent_drop", Json::Bool(gate_no_silent_drop_exec(contract)));
    assert(b.view_entries() =~= execution_gate_view(payload@, contract@)->Object_0);
    b.build()
}

/// The execution-gate fields that consistency is judged on, when all of them are present.
pub struct GateReading {
    pub must_follow: bool,
    pub unrelated_allowed: bool,
    pub must_read_prompt: bool,
    pub required_action_kind: Seq<char>,
    pub no_silent_drop: bool,
    pub action_kind: Seq<char>,
    pub required_return_present: bool,
    pub blocking: bool,
}

pub open spec fn gate_reading(summary: JsonView, gate: JsonView) -> Option<GateReading> {
    match (
        as_bool(field(gate, "must_follow_startup_next_action"@)),
        as_bool(field(gate, "unrelated_work_allowed"@)),
        as_bool(field(gate, "must_read_prompt_text_before_reply"@)),
        as_str(field(gate, "required_action_kind_when_resume_required"@)),
        as_bool(field(gate, "no_silent_drop"@)),
        as_str(field2(summary, "startup_next_action"@, "action_kind"@)),
        as_bool(field(gate, "required_return_task_present"@)),
        as_bool(field(gate, "blocking"@)),
    ) {
        (Some(a), Some(b), Some(c), Some(d), Some(e), Some(f), Some(g), Some(h)) => Some(
            GateReading {
                must_follow: a,
                unrelated_allowed: b,
                must_read_prompt: c,
                required_action_kind: d,
                no_silent_drop: e,
                action_kind: f,
                required_return_present: g,
                blocking: h,
            },
        ),
        _ => None,
    }
}

/// `flag` of a contract section is set to `true`.
pub open spec fn enforced(section: JsonView, flag: Seq<char>) -> bool {
    as_bool(field(section, flag)) == Some(true)
}

/// A recorded gate agrees with the contract's enforcement rules, with the startup next
/// action and owed return task of the summary, and with whether prompt text is present.
pub open spec fn gate_agrees(
    summary: JsonView,
    gate: JsonView,
    prompt_text_present: Option<bool>,
    contract: JsonView,
    g: GateReading,
) -> bool {
    let ge = field(contract, "startup_execution_gate_enforcement"@);
    let re = field(contract, "resume_enforcement"@);
    let previous_owner = str_or(as_str(field(re, "previous_session_owner_value"@)), "previous_session_owner"@);
    let summary_headline = as_str(field2(summary, "required_return_task"@, "headline"@));
    let summary_next_step = as_str(field2(summary, "required_return_task"@, "next_step"@));
    &&& !(enforced(ge, "blocking_true_requires_must_follow"@) && g.blocking && !g.must_follow)
    &&& !(enforced(ge, "blocking_true_blocks_unrelated_work"@) && g.blocking && g.unrelated_allowed)
    &&& !(enforced(ge, "must_follow_true_blocks_unrelated_work"@) && g.must_follow && g.unrelated_allowed)
    &&& !(enforced(ge, "must_read_prompt_text_true_requires_prompt_before_reply"@) && g.must_read_prompt
        && prompt_text_present != Some(true))
    &&& !(as_str(field(ge, "required_action_kind_resume_required_value"@)) matches Some(expected)
        && expected != g.required_action_kind)
    &&& !(enforced(ge, "no_silent_drop_must_be_true"@) && !g.no_silent_drop)
    &&& (g.action_kind == g.required_action_kind ==> {
        &&& has_key(summary, "required_return_task"@)
        &&& g.required_return_present
        &&& summary_headline is Some
        &&& summary_next_step is Some
        &&& as_str(field(gate, "required_return_task_headline"@)) == summary_headline
        &&& as_str(field(gate, "required_return_task_next_step"@)) == summary_next_step
        &&& g.blocking
    })
    &&& !(as_str(field2(summary, "execctl_active_lease"@, "lease_owner_state"@)) == Some(previous_owner)
        && enforced(re, "previous_session_owner_must_follow_startup_next_action"@) && !g.must_follow)
}

/// Whether a recorded execution gate is consistent; unknown when that record or the
/// summary lacks one of the fields that consistency is judged on.
pub open spec fn gate_consistency(
    summary: JsonView,
    gate: JsonView,
    prompt_text_present: Option<bool>,
    contract: JsonView,
) -> Option<bool> {
    match gate_reading(summary, gate) {
        Some(g) => Some(gate_agrees(summary, gate, prompt_text_present, contract, g)),
        None => None,
    }
}

fn flag_set(section: &Json, flag: &str) -> (b: bool)
    ensures
        b == enforced(section@, flag@),
{
    match get_bool(section, flag) {
        Some(v) => v,
        None => false,
    }
}

/// Checks a recorded startup execution gate against the summary it was derived from and
/// the project's startup contract.
pub fn evaluate_startup_execution_gate_consistency(
    summary: &Json,
    startup_execution_gate: &Json,
    prompt_text_present: Option<bool>,
    contract: &Json,
) -> (r: Option<bool>)
    ensures
        r == gate_consistency(summary@, startup_execution_gate@, prompt_text_present, contract@),
{
    let gate = startup_execution_gate;
    let must_follow = match get_bool(gate, "must_follow_startup_next_action") {
        Some(v) => v,
        None => {
            return None;
        },
    };
    let unrelated_allowed = match get_bool(gate, "unrelated_work_allowed") {
        Some(v) => v,
        None => {
            return None;
        },
    };
    let must_read_prompt = match get_bool(gate, "must_read_prompt_text_before_reply") {
        Some(v) => v,
        None => {
            return None;
        },
    };
    let required_kind = match get_str(gate, "required_action_kind_when_resume_required") {
        Some(v) => v,
        None => {
            return None;
        },
    };
    let no_silent_drop = match get_bool(gate, "no_silent_drop") {
        Some(v) => v,
        None => {
            return None;
        },
    };
    let action_kind = match str2(summary, "startup_next_action", "action_kind") {
        Some(v) => v,
        None => {
            return None;
        },
    };
    let return_present = match get_bool(gate, "required_return_task_present") {
        Some(v) => v,
        None => {
            return None;
        },
    };
    let blocking = match get_bool(gate, "blocking") {
        Some(v) => v,
        None => {
            return None;
        },
    };
    let ghost g = GateReading {
        must_follow,
        unrelated_allowed,
        must_read_prompt,
        required_action_kind: required_kind@,
        no_silent_drop,
        action_kind: action_kind@,
        required_return_present: return_present,
        blocking,
    };
    assert(gate_reading(summary@, gate@) == Some(g));
    let ge = match get(contract, "startup_execution_gate_enforcement") {
        Some(x) => x,
        None => &Json::Null,
    };
    let re = match get(contract, "resume_enforcement") {
        Some(x) => x,
        None => &Json::Null,
    };
    let previous_owner = match get_str(re, "previous_session_owner_value") {
        Some(v) => v,
        None => "previous_session_owner",
    };
    let summary_headline = str2(summary, "required_return_task", "headline");
    let summary_next_step = str2(summary, "required_return_task", "next_step");
    let mut ok = true;
    if flag_set(ge, "blocking_true_requires_must_follow") && blocking && !must_follow {
        ok = false;
    }
    if flag_set(ge, "blocking_true_blocks_unrelated_work") && blocking && unrelated_allowed {
        ok = false;
    }
    if flag_set(ge, "must_follow_true_blocks_unrelated_work") && must_follow && unrelated_allowed {
        ok = false;
    }
    if flag_set(ge, "must_read_prompt_text_true_requires_prompt_before_reply") && must_read_prompt
        && prompt_text_present != Some(true) {
        ok = false;
    }
    match get_str(ge, "required_action_kind_resume_required_value") {
        Some(expected) => {
            if !str_eq(expected, required_kind) {
                ok = false;
            }
        },
        None => {},
    }
    if flag_set(ge, "no_silent_drop_must_be_true") && !no_silent_drop {
        ok = false;
    }
    if str_eq(action_kind, required_kind) {
        if !contains_key(summary, "required_return_task") || !return_present || summary_headline.is_none()
            || summary_next_step.is_none() || !opt_str_eq(
            get_str(gate, "required_return_task_headline"),
            summary_headline,
        ) || !opt_str_eq(get_str(gate, "required_return_task_next_step"), summary_next_step)
            || !blocking {
            ok = false;
        }
    }
    let lease_is_previous = match str2(summary, "execctl_active_lease", "lease_owner_state") {
        Some(l) => str_eq(l, previous_owner),
        None => false,
    };
    if lease_is_previous && flag_set(re, "previous_session_owner_must_follow_startup_next_action")
        && !must_follow {
        ok = false;
    }
    Some(ok)
}

proof fn lemma_gate_follow_reads(p: JsonView, contract: JsonView)
    ensures
        field(execution_gate_view(p, contract), "must_follow_startup_next_action"@) == if_next_action(
            p,
            JsonView::Bool(must_follow_next_action(p, contract)),
        ),
        field(execution_gate_view(p, contract), "unrelated_work_allowed"@) == if_next_action(
            p,
            JsonView::Bool(!must_follow_next_action(p, contract)),
        ),
{
    reveal_strlit("gate_version");
    reveal_strlit("action_kind");
    reveal_strlit("blocking");
    reveal_strlit("required_task_set_count");
    reveal_strlit("resume_state");
    reveal_strlit("required_return_task_present");
    reveal_strlit("required_return_task_headline");
    reveal_strlit("required_return_task_next_step");
    reveal_strlit("required_task_set_present");
    reveal_strlit("must_preserve_required_task_set");
    reveal_strlit("lease_owner_state");
    reveal_strlit("must_follow_startup_next_action");
    reveal_strlit("unrelated_work_allowed");
    assert("gate_version"@.len() == 12);
    assert("action_kind"@.len() == 11);
    assert("blocking"@.len() == 8);
    assert("required_task_set_count"@.len() == 23);
    assert("resume_state"@.len() == 12);
    assert("required_return_task_present"@.len() == 28);
    assert("required_return_task_headline"@.len() == 29);
    assert("required_return_task_next_step"@.len() == 30);
    assert("required_task_set_present"@.len() == 25);
    assert("must_preserve_required_task_set"@.len() == 31);
    assert("lease_owner_state"@.len() == 17);
    assert("must_follow_startup_next_action"@.len() == 31);
    assert("unrelated_work_allowed"@.len() == 22);
    assert("must_preserve_required_task_set"@[5] != "must_follow_startup_next_action"@[5]);
    let es = execution_gate_view(p, contract)->Object_0;
    crate::json::lemma_position_lookup_first(es, "must_follow_startup_next_action"@, es.len() as int, 11);
    crate::json::lemma_position_lookup_first(es, "unrelated_work_allowed"@, es.len() as int, 12);
}

/// A law of the startup execution gate: when the chat-start restore names a startup next
/// action and its active lease is still owned by the previous session (the owner value the
/// contract's resume enforcement names, `previous_session_owner` by default), the session
/// must follow that action and may do no unrelated work. Whenever a next action is named,
/// unrelated work is allowed exactly when the action need not be followed.
pub proof fn lemma_previous_owner_must_follow(p: JsonView, contract: JsonView)
    ensures
        ({
            let gate = execution_gate_view(p, contract);
            let previous_owner = match as_str(
                field(field(contract, "resume_enforcement"@), "previous_session_owner_value"@),
            ) {
                Some(v) => v,
                None => "previous_session_owner"@,
            };
            let named = field(field(p, "chat_start_restore"@), "startup_next_action"@) is Object;
            let lease = as_str(
                field(field(field(p, "chat_start_restore"@), "execctl_active_lease"@), "lease_owner_state"@),
            );
            &&& named && lease == Some(previous_owner) ==> field(gate, "must_follow_startup_next_action"@)
                == JsonView::Bool(true) && field(gate, "unrelated_work_allowed"@) == JsonView::Bool(false)
            &&& named ==> (field(gate, "must_follow_startup_next_action"@) matches JsonView::Bool(f)
                && field(gate, "unrelated_work_allowed"@) == JsonView::Bool(!f))
            &&& !named ==> field(gate, "must_follow_startup_next_action"@) == JsonView::Null
                && field(gate, "unrelated_work_allowed"@) == JsonView::Null
        }),
{
    lemma_gate_follow_reads(p, contract);
    reveal(must_follow_next_action);
    reveal(gate_has_next_action);
}

/// A law of gate consistency: under a contract that makes "must follow" block unrelated
/// work, a recorded gate that must follow the next action yet allows unrelated work is
/// never judged consistent.
pub proof fn lemma_must_follow_with_unrelated_work_is_inconsistent(
    summary: JsonView,
    gate: JsonView,
    prompt_text_present: Option<bool>,
    contract: JsonView,
)
    requires
        as_bool(
            field(field(contract, "startup_execution_gate_enforcement"@), "must_follow_true_blocks_unrelated_work"@),
        ) == Some(true),
        as_bool(field(gate, "must_follow_startup_next_action"@)) == Some(true),
        as_bool(field(gate, "unrelated_work_allowed"@)) == Some(true),
    ensures
        gate_consistency(summary, gate, prompt_text_present, contract) != Some(true),
{
}

/// A law of the startup execution gate: with a startup next action named, the session must
/// follow it exactly when the action blocks, or the contract makes an owed return come first
/// and the action (`continue_active_workline` when unnamed) is the kind the contract requires
/// then (`resume_required_return_task` by default), or the previous session still owns the
/// lease.
pub proof fn lemma_gate_must_follow_exactly(p: JsonView, contract: JsonView)
    requires
        field(field(p, "chat_start_restore"@), "startup_next_action"@) is Object,
    ensures
        ({
            let csr = field(p, "chat_start_restore"@);
            let action = field(csr, "startup_next_action"@);
            let re = field(contract, "resume_enforcement"@);
            let kind = match as_str(field(action, "action_kind"@)) {
                Some(k) => k,
                None => "continue_active_workline"@,
            };
            let required = match as_str(field(re, "required_action_kind_when_resume_required"@)) {
                Some(k) => k,
                None => "resume_required_return_task"@,
            };
            let previous_owner = match as_str(field(re, "previous_session_owner_value"@)) {
                Some(v) => v,
                None => "previous_session_owner"@,
            };
            let follow = as_bool(field(action, "blocking"@)) == Some(true) || (as_bool(
                field(re, "must_resume_required_return_task_before_unrelated_work"@),
            ) == Some(true) && kind == required) || as_str(
                field(field(csr, "execctl_active_lease"@), "lease_owner_state"@),
            ) == Some(previous_owner);
            &&& field(execution_gate_view(p, contract), "must_follow_startup_next_action"@) == JsonView::Bool(follow)
            &&& field(execution_gate_view(p, contract), "unrelated_work_allowed"@) == JsonView::Bool(!follow)
        }),
{
    lemma_gate_follow_reads(p, contract);
    reveal(must_follow_next_action);
    reveal(gate_has_next_action);
    reveal(gate_blocking);
    reveal(gate_action_kind);
    reveal(gate_required_kind);
}

/// A law of gate consistency: a recorded gate that breaks any rule its contract enforces
/// (blocking without following, blocking or following while allowing unrelated work,
/// demanding the prompt when there is none, a required action kind other than the one the
/// contract names, or allowing silent drops where they are forbidden) is never judged
/// consistent; and the verdict is unknown exactly when a judged field is missing.
pub proof fn lemma_gate_rules_break_consistency(
    summary: JsonView,
    gate: JsonView,
    prompt_text_present: Option<bool>,
    contract: JsonView,
)
    ensures
        ({
            let ge = field(contract, "startup_execution_gate_enforcement"@);
            let on = |f: Seq<char>| as_bool(field(ge, f)) == Some(true);
            let must_follow = as_bool(field(gate, "must_follow_startup_next_action"@));
            let unrelated = as_bool(field(gate, "unrelated_work_allowed"@));
            let blocking = as_bool(field(gate, "blocking"@));
            let verdict = gate_consistency(summary, gate, prompt_text_present, contract);
            &&& on("blocking_true_requires_must_follow"@) && blocking == Some(true) && must_follow == Some(false)
                ==> verdict != Some(true)
            &&& on("blocking_true_blocks_unrelated_work"@) && blocking == Some(true) && unrelated == Some(true)
                ==> verdict != Some(true)
            &&& on("must_follow_true_blocks_unrelated_work"@) && must_follow == Some(true) && unrelated == Some(true)
                ==> verdict != Some(true)
            &&& on("must_read_prompt_text_true_requires_prompt_before_reply"@) && as_bool(
                field(gate, "must_read_prompt_text_before_reply"@),
            ) == Some(true) && prompt_text_present != Some(true) ==> verdict != Some(true)
            &&& on("no_silent_drop_must_be_true"@) && as_bool(field(gate, "no_silent_drop"@)) == Some(false)
                ==> verdict != Some(true)
            &&& (as_str(field(ge, "required_action_kind_resume_required_value"@)) matches Some(expected) && as_str(
                field(gate, "required_action_kind_when_resume_required"@),
            ) matches Some(got) && expected != got) ==> verdict != Some(true)
            &&& (verdict is None <==> (must_follow is None || unrelated is None || blocking is None || as_bool(
                field(gate, "must_read_prompt_text_before_reply"@),
            ) is None || as_str(field(gate, "required_action_kind_when_resume_required"@)) is None || as_bool(
                field(gate, "no_silent_drop"@),
            ) is None || as_str(field(field(summary, "startup_next_action"@), "action_kind"@)) is None || as_bool(
                field(gate, "required_return_task_present"@),
            ) is None))
        }),
{
}

} // verus!
