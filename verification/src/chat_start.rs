//! The chat-start restore: the compact prompt a fresh chat starts from, and the restore
//! pack around it.
use vstd::prelude::*;
use crate::advisory::{guard_of, notes_summary, shown_status_label, startup_notes, summarize_startup_materialized_notes};
use crate::answer::{collapse_answer_text, collapsed_answer, opt_string, opt_view};
use crate::budget::{advisory_text, normalize_client_budget_advisory_text};
use crate::direct_answer::{opt_json, opt_line, project_headline, project_next_step, str_or_empty};
use crate::json::{
    as_str, as_text, as_u64, clone_json, field, get, get_str, get_text, is_array, is_object, opt_str_json,
    opt_str_view, opt_string_json, opt_u64_json, opt_u64_view, str_json, Json, JsonView, ObjectBuilder,
};
use crate::compaction::{
    compact_project_task_ledger_for_startup, compact_project_task_tree_for_startup,
    compact_workspace_restore_pack_for_startup, task_ledger_view, task_tree_view, workspace_pack_view,
};
use crate::projections::normalized_restore_confidence_value;
use crate::runtime_summaries::{
    continuity_decision_trace_summary, decision_trace_summary, recent_actions_summary, string_list_summary,
    summarize_recent_actions, summarize_string_list,
};
use crate::startup::{next_action_summary, summarize_startup_next_action};
use crate::labels::{format_optional_text_for_human, opt_text, text_or};
use crate::prompt_summaries::{
    next_action_for_prompt, pending_return_for_prompt, resume_contract_for_prompt,
    summarize_execctl_resume_contract_for_prompt, summarize_pending_return_for_prompt,
    summarize_required_task_set_for_prompt, summarize_startup_next_action_for_prompt,
    task_set_for_prompt,
};
use crate::startup::{
    default_execctl_resume_obligation, default_obligation, default_startup_next_action,
    obligation_summary, startup_next_action, summarize_execctl_resume_obligation,
};
use crate::text::{chars_of, join, join_chars, push_str, str_eq, string_of, trim, trim_str, views};

verus! {

/// `node[key]`, and `null` without a node.
pub open spec fn node_field(node: Option<JsonView>, key: Seq<char>) -> JsonView {
    match node {
        Some(n) => field(n, key),
        None => JsonView::Null,
    }
}

/// The current goal of the restore, else the project headline.
pub open spec fn current_goal_of(node: Option<JsonView>, headline: Seq<char>) -> Seq<char> {
    text_or(as_text(node_field(node, "current_goal"@)), headline)
}

/// The ExecCtl resume obligation of the restore, or the clear default without one.
#[verifier::opaque]
pub open spec fn obligation_of(node: Option<JsonView>) -> JsonView {
    match node {
        Some(n) => obligation_summary(field(n, "execctl_resume_contract"@)),
        None => default_obligation(None, None),
    }
}

/// The startup next action the restore records, or the default one derived from the
/// current goal, the next step and the resume obligation.
pub open spec fn next_action_of(node: Option<JsonView>, headline: Seq<char>, next_step: Seq<char>) -> JsonView {
    if node_field(node, "startup_next_action"@) is Object {
        node_field(node, "startup_next_action"@)
    } else {
        startup_next_action(current_goal_of(node, headline), next_step, obligation_of(node))
    }
}

/// A summary field of the restore that is not blank, as a prompt fragment of `max`
/// characters.
pub open spec fn prompt_summary(node: Option<JsonView>, key: Seq<char>, max: nat) -> Option<Seq<char>> {
    match as_str(node_field(node, key)) {
        Some(v) => if trim(v).len() > 0 {
            Some(collapsed_answer(v, max))
        } else {
            None
        },
        None => None,
    }
}

/// The reply text that the client-budget gate allows while it blocks.
pub open spec fn blocked_reply_text(node: Option<JsonView>) -> Option<Seq<char>> {
    as_text(
        field(
            field(field(node_field(node, "client_budget_guard"@), "reply_execution_gate"@), "blocking_reply_contract"@),
            "template"@,
        ),
    )
}

/// Whether the next action is to rotate or to wait for the client budget.
pub open spec fn budget_action(kind: Option<Seq<char>>) -> bool {
    kind == Some("rotate_chat_for_client_budget"@) || kind == Some("wait_for_global_client_budget_recovery"@)
}

/// The materialised-notes summary of the restore, when there is a restore.
pub open spec fn materialized_of(node: Option<JsonView>, shown: Option<Seq<char>>) -> Option<Seq<char>> {
    match node {
        Some(n) => notes_summary(startup_notes(n, shown)),
        None => None,
    }
}

/// The optional parts of the chat-start prompt, each shown under its own label.
pub struct PromptParts {
    pub skill_card: Option<String>,
    pub workspace: Option<String>,
    pub pending_return: Option<String>,
    pub resume_contract: Option<String>,
    pub task_set: Option<String>,
    pub done: Option<String>,
    pub next_action: Option<String>,
    pub rotate_only: Option<String>,
}

/// The text of the optional parts of the chat-start prompt.
pub struct PromptText {
    pub skill_card: Option<Seq<char>>,
    pub workspace: Option<Seq<char>>,
    pub pending_return: Option<Seq<char>>,
    pub resume_contract: Option<Seq<char>>,
    pub task_set: Option<Seq<char>>,
    pub done: Option<Seq<char>>,
    pub next_action: Option<Seq<char>>,
    pub rotate_only: Option<Seq<char>>,
}

pub open spec fn parts_text(p: PromptParts) -> PromptText {
    PromptText {
        skill_card: opt_string(p.skill_card),
        workspace: opt_string(p.workspace),
        pending_return: opt_string(p.pending_return),
        resume_contract: opt_string(p.resume_contract),
        task_set: opt_string(p.task_set),
        done: opt_string(p.done),
        next_action: opt_string(p.next_action),
        rotate_only: opt_string(p.rotate_only),
    }
}

/// The prompt lines from their parts: the compact headline and next step, then each
/// optional part under its label, then the reminder to close an owed return first.
pub open spec fn prompt_lines_from(
    headline: Seq<char>,
    next_step: Seq<char>,
    parts: PromptText,
    pending_first: bool,
) -> Seq<Seq<char>> {
    seq!["CHAT_START_RESTORE"@, "Линия: "@ + collapsed_answer(headline, 64), "Шаг: "@ + collapsed_answer(next_step, 80)]
        + opt_line(parts.skill_card, "Карточка: "@) + opt_line(parts.workspace, "Workspace: "@) + opt_line(
        parts.pending_return,
        "Возврат: "@,
    ) + opt_line(parts.resume_contract, "Контракт: "@) + opt_line(parts.task_set, "Задачи: "@) + opt_line(
        parts.done,
        "Сделано: "@,
    ) + opt_line(parts.next_action, Seq::empty()) + opt_line(parts.rotate_only, "Только rotate: "@)
        + if pending_first {
        seq!["Сначала закрой возврат."@]
    } else {
        Seq::empty()
    }
}

/// The materialised summary, compacted, when the next action is to continue the line.
pub open spec fn done_text(kind: Option<Seq<char>>, materialized: Option<Seq<char>>) -> Option<Seq<char>> {
    if kind == Some("continue_active_workline"@) {
        match materialized {
            Some(m) => Some(collapsed_answer(m, 56)),
            None => None,
        }
    } else {
        None
    }
}

/// The blocked-reply text in current wording, compacted, when the next action is about
/// the client budget.
pub open spec fn rotate_text(kind: Option<Seq<char>>, node: Option<JsonView>) -> Option<Seq<char>> {
    if budget_action(kind) {
        match blocked_reply_text(node) {
            Some(t) => Some(collapsed_answer(advisory_text(t), 96)),
            None => None,
        }
    } else {
        None
    }
}

/// The lines of the chat-start prompt, `shown` being how the restore's client-budget
/// status label is shown.
pub open spec fn chat_start_prompt_lines(
    handoff: JsonView,
    node: Option<JsonView>,
    shown: Option<Seq<char>>,
) -> Seq<Seq<char>> {
    let headline = project_headline(handoff);
    let next_step = project_next_step(handoff);
    let obligation = obligation_of(node);
    let action = next_action_of(node, headline, next_step);
    let kind = as_str(field(action, "action_kind"@));
    prompt_lines_from(
        headline,
        next_step,
        PromptText {
            skill_card: prompt_summary(node, "skill_execution_card_summary"@, 96),
            workspace: prompt_summary(node, "workspace_restore_pack_summary"@, 96),
            pending_return: pending_return_for_prompt(node),
            resume_contract: resume_contract_for_prompt(node, obligation),
            task_set: task_set_for_prompt(node),
            done: done_text(kind, materialized_of(node, shown)),
            next_action: next_action_for_prompt(action),
            rotate_only: rotate_text(kind, node),
        },
        as_text(field(obligation, "resume_state"@)) == Some("pending_return_queue_present"@),
    )
}

/// The chat-start prompt: its lines joined with newlines.
#[verifier::opaque]
pub open spec fn chat_start_prompt(handoff: JsonView, node: Option<JsonView>, shown: Option<Seq<char>>) -> Seq<char> {
    join(chat_start_prompt_lines(handoff, node, shown), "\n"@)
}

fn node_ref<'a>(node: Option<&'a Json>, key: &str) -> (r: &'a Json)
    ensures
        r@ == node_field(opt_json(node), key@),
{
    match node {
        Some(n) => match get(n, key) {
            Some(x) => x,
            None => &Json::Null,
        },
        None => &Json::Null,
    }
}

fn field_ref<'a>(v: &'a Json, key: &str) -> (r: &'a Json)
    ensures
        r@ == field(v@, key@),
{
    match get(v, key) {
        Some(x) => x,
        None => &Json::Null,
    }
}

fn push_line(lines: &mut Vec<Vec<char>>, line: Vec<char>)
    ensures
        views(final(lines)@) == views(old(lines)@).push(line@),
{
    let ghost before = views(lines@);
    let ghost lv = line@;
    lines.push(line);
    assert(views(lines@) =~= before.push(lv));
}

fn push_opt_line(lines: &mut Vec<Vec<char>>, body: &Option<String>, prefix: &str)
    ensures
        views(final(lines)@) == views(old(lines)@) + opt_line(opt_string(*body), prefix@),
{
    let ghost start = views(lines@);
    match body {
        Some(b) => {
            let mut l: Vec<char> = Vec::new();
            push_str(&mut l, prefix);
            push_str(&mut l, b.as_str());
            push_line(lines, l);
        },
        None => {},
    }
    assert(views(lines@) =~= start + opt_line(opt_string(*body), prefix@));
}

fn prompt_summary_exec(node: Option<&Json>, key: &str, max: usize) -> (r: Option<String>)
    ensures
        opt_string(r) == prompt_summary(opt_json(node), key@, max as nat),
{
    let v = node_ref(node, key);
    match v {
        Json::Str(s) => {
            if trim_str(s.as_str()).unicode_len() > 0 {
                Some(collapse_answer_text(s.as_str(), max))
            } else {
                None
            }
        },
        _ => None,
    }
}

fn obligation_exec(node: Option<&Json>) -> (r: Json)
    ensures
        r@ == obligation_of(opt_json(node)),
{
    reveal(obligation_of);
    match node {
        Some(n) => summarize_execctl_resume_obligation(field_ref(n, "execctl_resume_contract")),
        None => default_execctl_resume_obligation(None, None),
    }
}

fn next_action_exec(node: Option<&Json>, headline: &str, next_step: &str, obligation: &Json) -> (r: Json)
    requires
        obligation@ == obligation_of(opt_json(node)),
    ensures
        r@ == next_action_of(opt_json(node), headline@, next_step@),
{
    reveal(next_action_of);
    let recorded = node_ref(node, "startup_next_action");
    if is_object(recorded) {
        return crate::json::clone_json(recorded);
    }
    let goal = match node_ref(node, "current_goal") {
        Json::Str(s) => {
            let t = trim_str(s.as_str());
            if t.unicode_len() > 0 {
                t
            } else {
                headline
            }
        },
        _ => headline,
    };
    assert(goal@ == current_goal_of(opt_json(node), headline@));
    default_startup_next_action(goal, next_step, obligation, None)
}

fn blocked_reply_exec<'a>(node: Option<&'a Json>) -> (r: Option<&'a str>)
    ensures
        opt_view(r) == blocked_reply_text(opt_json(node)),
{
    let guard = node_ref(node, "client_budget_guard");
    let gate = field_ref(guard, "reply_execution_gate");
    let contract = field_ref(gate, "blocking_reply_contract");
    get_text(contract, "template")
}

fn join_lines(lines: &Vec<Vec<char>>) -> (r: String)
    ensures
        r@ == join(views(lines@), "\n"@),
{
    let nl = chars_of("\n");
    let joined = join_chars(lines, nl.as_slice());
    string_of(joined.as_slice())
}

fn prefixed(prefix: &str, body: &str) -> (r: Vec<char>)
    ensures
        r@ == prefix@ + body@,
{
    let mut l: Vec<char> = Vec::new();
    push_str(&mut l, prefix);
    push_str(&mut l, body);
    l
}

pub fn render_chat_start_prompt<F: Fn(&str) -> String>(
    handoff_summary: &Json,
    restore_node: Option<&Json>,
    status_label_display: &F,
) -> (r: String)
    requires
        forall|s: &str| #[trigger] status_label_display.requires((s,)),
    ensures
        restore_node matches Some(n) ==> exists|shown: Option<Seq<char>>|
            #[trigger] shown_status_label(*status_label_display, guard_of(n@), shown)
                && r@ == chat_start_prompt(handoff_summary@, opt_json(restore_node), shown),
        restore_node is None ==> r@ == chat_start_prompt(handoff_summary@, None, None),
        return_queue_pending(opt_json(restore_node)) ==> crate::text::has_suffix(
            r@,
            "\n"@ + "Сначала закрой возврат."@,
        ),
{
    let ghost h = handoff_summary@;
    let ghost nv = opt_json(restore_node);
    let raw_headline = get_str(handoff_summary, "headline");
    let headline = format_optional_text_for_human(raw_headline);
    assert(opt_text(raw_headline) == as_text(field(h, "headline"@)));
    let raw_step = match get_str(handoff_summary, "next_step") {
        Some(s) => s,
        None => "",
    };
    proof {
        reveal_strlit("");
        assert(raw_step@ == str_or_empty(field(h, "next_step"@)));
    }
    let next_step = match crate::answer::normalize_next_step_value(raw_step) {
        Some(s) => s,
        None => "ещё нет данных".to_string(),
    };
    assert(headline@ == project_headline(h));
    assert(next_step@ == project_next_step(h));
    let materialized = match restore_node {
        Some(n) => summarize_startup_materialized_notes(n, status_label_display),
        None => None,
    };
    let ghost shown: Option<Seq<char>> = match restore_node {
        Some(n) => choose|s: Option<Seq<char>>|
            #[trigger] shown_status_label(*status_label_display, guard_of(n@), s) && opt_string(materialized)
                == notes_summary(startup_notes(n@, s)),
        None => None,
    };
    assert(opt_string(materialized) == materialized_of(nv, shown));
    let obligation = obligation_exec(restore_node);
    let action = next_action_exec(restore_node, headline.as_str(), next_step.as_str(), &obligation);
    let kind = get_str(&action, "action_kind");
    let continue_kind = match kind {
        Some(k) => str_eq(k, "continue_active_workline"),
        None => false,
    };
    let budget_kind = match kind {
        Some(k) => str_eq(k, "rotate_chat_for_client_budget") || str_eq(k, "wait_for_global_client_budget_recovery"),
        None => false,
    };
    let done = if continue_kind {
        match &materialized {
            Some(m) => Some(collapse_answer_text(m.as_str(), 56)),
            None => None,
        }
    } else {
        None
    };
    assert(opt_string(done) == done_text(opt_view(kind), materialized_of(nv, shown)));
    let rotate_only = if budget_kind {
        match blocked_reply_exec(restore_node) {
            Some(t) => {
                let n = normalize_client_budget_advisory_text(t);
                Some(collapse_answer_text(n.as_str(), 96))
            },
            None => None,
        }
    } else {
        None
    };
    assert(opt_string(rotate_only) == rotate_text(opt_view(kind), nv));
    let pending_first = match get_text(&obligation, "resume_state") {
        Some(s) => str_eq(s, "pending_return_queue_present"),
        None => false,
    };
    let parts = PromptParts {
        skill_card: prompt_summary_exec(restore_node, "skill_execution_card_summary", 96),
        workspace: prompt_summary_exec(restore_node, "workspace_restore_pack_summary", 96),
        pending_return: summarize_pending_return_for_prompt(restore_node),
        resume_contract: summarize_execctl_resume_contract_for_prompt(restore_node, &obligation),
        task_set: summarize_required_task_set_for_prompt(restore_node),
        done,
        next_action: summarize_startup_next_action_for_prompt(&action),
        rotate_only,
    };
    let r = prompt_from_parts(headline.as_str(), next_step.as_str(), &parts, pending_first);
    reveal(chat_start_prompt);
    assert(chat_start_prompt_lines(h, nv, shown) == prompt_lines_from(headline@, next_step@, parts_text(parts), pending_first));
    proof {
        if return_queue_pending(nv) {
            lemma_pending_return_closes_prompt(h, nv, shown);
        }
    }
    r
}

fn prompt_from_parts(headline: &str, next_step: &str, parts: &PromptParts, pending_first: bool) -> (r: String)
    ensures
        r@ == join(prompt_lines_from(headline@, next_step@, parts_text(*parts), pending_first), "\n"@),
{
    let mut lines: Vec<Vec<char>> = Vec::new();
    push_line(&mut lines, chars_of("CHAT_START_RESTORE"));
    let compact_headline = collapse_answer_text(headline, 64);
    push_line(&mut lines, prefixed("Линия: ", compact_headline.as_str()));
    let compact_step = collapse_answer_text(next_step, 80);
    push_line(&mut lines, prefixed("Шаг: ", compact_step.as_str()));
    assert(views(lines@) =~= seq![
        "CHAT_START_RESTORE"@,
        "Линия: "@ + collapsed_answer(headline@, 64),
        "Шаг: "@ + collapsed_answer(next_step@, 80),
    ]);
    push_opt_line(&mut lines, &parts.skill_card, "Карточка: ");
    push_opt_line(&mut lines, &parts.workspace, "Workspace: ");
    push_opt_line(&mut lines, &parts.pending_return, "Возврат: ");
    push_opt_line(&mut lines, &parts.resume_contract, "Контракт: ");
    push_opt_line(&mut lines, &parts.task_set, "Задачи: ");
    push_opt_line(&mut lines, &parts.done, "Сделано: ");
    push_opt_line(&mut lines, &parts.next_action, "");
    proof {
        reveal_strlit("");
        assert(""@ =~= Seq::<char>::empty());
    }
    push_opt_line(&mut lines, &parts.rotate_only, "Только rotate: ");
    if pending_first {
        push_line(&mut lines, chars_of("Сначала закрой возврат."));
    }
    proof {
        assert(views(lines@) == prompt_lines_from(headline@, next_step@, parts_text(*parts), pending_first));
    }
    join_lines(&lines)
}

/// The project a restore is for.
pub struct ProjectRecord {
    pub code: String,
    pub display_name: String,
    pub repo_root: String,
}

/// The namespace that holds a project's continuity.
pub struct NamespaceRecord {
    pub code: String,
    pub display_name: String,
}

/// Whether the workspace-graph summary rule may give `out` for the graph `graph`.
pub open spec fn graph_summarized_as<G: Fn(&Json) -> Option<String>>(
    summarize: G,
    graph: JsonView,
    out: Option<Seq<char>>,
) -> bool {
    exists|j: &Json, o: Option<String>| j@ == graph && opt_string(o) == out && #[trigger] summarize.ensures((j,), o)
}

/// The working-state restore inside a restore payload, when there is a payload.
pub open spec fn node_of(restore: Option<JsonView>) -> Option<JsonView> {
    match restore {
        Some(r) => Some(field(r, "working_state_restore"@)),
        None => None,
    }
}

/// A text field of the restore, trimmed, or `null`.
pub open spec fn node_text(node: Option<JsonView>, key: Seq<char>) -> JsonView {
    opt_str_view(as_text(node_field(node, key)))
}

/// An object field of the restore as it is, or `null`.
pub open spec fn node_object(node: Option<JsonView>, key: Seq<char>) -> JsonView {
    if node_field(node, key) is Object {
        node_field(node, key)
    } else {
        JsonView::Null
    }
}

/// A list field of the restore as it is, or `null`.
pub open spec fn node_array(node: Option<JsonView>, key: Seq<char>) -> JsonView {
    if node_field(node, key) is Array {
        node_field(node, key)
    } else {
        JsonView::Null
    }
}

/// The thread count recorded by the continuity bootstrap.
pub open spec fn thread_count_of(continuity: JsonView) -> JsonView {
    opt_u64_view(as_u64(field(field(field(continuity, "bootstrap_summary"@), "details"@), "thread_count"@)))
}

/// A summary of the restore, or `null` without a restore.
pub open spec fn on_node(node: Option<JsonView>, summary: Option<Seq<char>>) -> JsonView {
    if node is Some {
        opt_str_view(summary)
    } else {
        JsonView::Null
    }
}

pub open spec fn recent_of(node: Option<JsonView>) -> JsonView {
    on_node(node, recent_actions_summary(node_field(node, "recent_actions"@)))
}

pub open spec fn files_of(node: Option<JsonView>) -> JsonView {
    on_node(node, string_list_summary(node_field(node, "active_files"@), 4))
}

pub open spec fn questions_of(node: Option<JsonView>) -> JsonView {
    on_node(node, string_list_summary(node_field(node, "open_questions"@), 3))
}

pub open spec fn reasons_of(node: Option<JsonView>, key: Seq<char>) -> JsonView {
    on_node(node, decision_trace_summary(Some(node_field(node, "latest_decision_trace"@)), key))
}

/// The return task the restore owes: the one its resume contract names, else one made
/// from the obligation's required headline and next step, else `null`.
#[verifier::opaque]
pub open spec fn required_return_of(node: Option<JsonView>, obligation: JsonView) -> JsonView {
    let recorded = field(node_field(node, "execctl_resume_contract"@), "required_return_task"@);
    if recorded is Object {
        recorded
    } else {
        match as_text(field(obligation, "required_return_headline"@)) {
            Some(h) => JsonView::Object(
                seq![("headline"@, JsonView::Str(h)), ("next_step"@, field(obligation, "required_return_next_step"@))],
            ),
            None => JsonView::Null,
        }
    }
}

/// The resume state the restore reports: its own, trimmed, else the resume state of its
/// obligation.
pub open spec fn resume_state_of(node: Option<JsonView>, obligation: JsonView) -> JsonView {
    match as_text(node_field(node, "execctl_resume_state"@)) {
        Some(t) => JsonView::Str(t),
        None => field(obligation, "resume_state"@),
    }
}

/// The summary of the startup next action: the restore's own, else one made from the
/// action.
#[verifier::opaque]
pub open spec fn next_action_summary_of(node: Option<JsonView>, action: JsonView) -> JsonView {
    match as_text(node_field(node, "startup_next_action_summary"@)) {
        Some(t) => JsonView::Str(t),
        None => opt_str_view(next_action_summary(action)),
    }
}

/// `prefix` followed by the part of the restore pack that is read from the
/// working-state restore.
#[verifier::opaque]
pub open spec fn with_restore_entries(
    prefix: Seq<(Seq<char>, JsonView)>,
    node: Option<JsonView>,
    headline: Seq<char>,
    next_step: Seq<char>,
    notes_shown: Option<Seq<char>>,
    graph: Option<Seq<char>>,
) -> Seq<(Seq<char>, JsonView)> {
    let obligation = obligation_of(node);
    let action = next_action_of(node, headline, next_step);
    prefix.push(("materialized_summary"@, opt_str_view(materialized_of(node, notes_shown))))
        .push(("recent_actions_summary"@, recent_of(node)))
        .push(("active_files_summary"@, files_of(node)))
        .push(("open_questions_summary"@, questions_of(node)))
        .push(("workspace_graph_summary"@, opt_str_view(graph)))
        .push(("workspace_restore_pack_summary"@, node_text(node, "workspace_restore_pack_summary"@)))
        .push(("workspace_restore_pack"@, workspace_pack_view(node_field(node, "workspace_restore_pack"@))))
        .push(("skill_execution_card_summary"@, node_text(node, "skill_execution_card_summary"@)))
        .push(("skill_execution_card"@, node_object(node, "skill_execution_card"@)))
        .push(("pending_return_summary"@, node_text(node, "pending_return_summary"@)))
        .push(("pending_return_queue"@, node_array(node, "pending_return_queue"@)))
        .push(("execctl_resume_contract_summary"@, node_text(node, "execctl_resume_contract_summary"@)))
        .push(("execctl_resume_obligation"@, obligation))
        .push(("startup_next_action"@, action))
        .push(("startup_next_action_summary"@, next_action_summary_of(node, action)))
        .push(("execctl_active_lease"@, node_object(node, "execctl_active_lease"@)))
        .push(("execctl_active_lease_summary"@, node_text(node, "execctl_active_lease_summary"@)))
        .push(("required_return_task"@, required_return_of(node, obligation)))
        .push(("required_task_set"@, node_array(node, "required_task_set"@)))
        .push(("required_task_set_summary"@, node_text(node, "required_task_set_summary"@)))
        .push(("project_task_tree"@, task_tree_view(node_field(node, "project_task_tree"@))))
        .push(("project_task_tree_summary"@, node_text(node, "project_task_tree_summary"@)))
        .push(("project_task_ledger"@, task_ledger_view(node_field(node, "project_task_ledger"@))))
        .push(("project_task_ledger_summary"@, node_text(node, "project_task_ledger_summary"@)))
        .push(("execctl_resume_state"@, resume_state_of(node, obligation)))
        .push(("included_reasons_summary"@, reasons_of(node, "included"@)))
        .push(("excluded_reasons_summary"@, reasons_of(node, "not_included"@)))
}

/// The chat-start restore pack: the project and namespace, the line and next step, what
/// the restore holds, and the prompt a fresh chat starts from. `notes_shown` and
/// `prompt_shown` are how the restore's client-budget status label was shown for the
/// materialised summary and for the prompt, `graph` what the workspace-graph summary
/// rule gave.
pub open spec fn chat_start_restore_pack(
    project: ProjectRecord,
    namespace: NamespaceRecord,
    continuity: JsonView,
    handoff: JsonView,
    restore: Option<JsonView>,
    notes_shown: Option<Seq<char>>,
    graph: Option<Seq<char>>,
    prompt_shown: Option<Seq<char>>,
) -> JsonView {
    let node = node_of(restore);
    let headline = project_headline(handoff);
    let next_step = project_next_step(handoff);
    let head = seq![
        ("project"@, project_view(project)),
        ("namespace"@, namespace_view(namespace)),
        ("headline"@, JsonView::Str(headline)),
        ("next_step"@, JsonView::Str(next_step)),
        ("restore_confidence"@, node_field(node, "restore_confidence"@)),
        ("thread_count"@, thread_count_of(continuity)),
    ];
    JsonView::Object(
        seq![
            (
                "chat_start_restore"@,
                JsonView::Object(
                    with_restore_entries(head, node, headline, next_step, notes_shown, graph).push(
                        ("prompt_text"@, JsonView::Str(chat_start_prompt(handoff, node, prompt_shown))),
                    ),
                ),
            ),
        ],
    )
}

/// A project as it is shown in a restore pack.
pub open spec fn project_view(project: ProjectRecord) -> JsonView {
    JsonView::Object(
        seq![
            ("code"@, JsonView::Str(project.code@)),
            ("display_name"@, JsonView::Str(project.display_name@)),
            ("repo_root"@, JsonView::Str(project.repo_root@)),
        ],
    )
}

/// A namespace as it is shown in a restore pack.
pub open spec fn namespace_view(namespace: NamespaceRecord) -> JsonView {
    JsonView::Object(
        seq![("code"@, JsonView::Str(namespace.code@)), ("display_name"@, JsonView::Str(namespace.display_name@))],
    )
}

fn node_text_exec(node: Option<&Json>, key: &str) -> (r: Json)
    ensures
        r@ == node_text(opt_json(node), key@),
{
    match node_ref(node, key) {
        Json::Str(s) => {
            let t = trim_str(s.as_str());
            if t.unicode_len() > 0 {
                str_json(t)
            } else {
                Json::Null
            }
        },
        _ => Json::Null,
    }
}

fn node_object_exec(node: Option<&Json>, key: &str) -> (r: Json)
    ensures
        r@ == node_object(opt_json(node), key@),
{
    let v = node_ref(node, key);
    if is_object(v) {
        clone_json(v)
    } else {
        Json::Null
    }
}

fn node_array_exec(node: Option<&Json>, key: &str) -> (r: Json)
    ensures
        r@ == node_array(opt_json(node), key@),
{
    let v = node_ref(node, key);
    if is_array(v) {
        clone_json(v)
    } else {
        Json::Null
    }
}

fn thread_count_exec(continuity: &Json) -> (r: Json)
    ensures
        r@ == thread_count_of(continuity@),
{
    let details = field_ref(field_ref(continuity, "bootstrap_summary"), "details");
    opt_u64_json(crate::json::get_u64(details, "thread_count"))
}

fn required_return_exec(node: Option<&Json>, obligation: &Json) -> (r: Json)
    ensures
        r@ == required_return_of(opt_json(node), obligation@),
{
    reveal(required_return_of);
    let recorded = field_ref(node_ref(node, "execctl_resume_contract"), "required_return_task");
    if is_object(recorded) {
        return clone_json(recorded);
    }
    match get_text(obligation, "required_return_headline") {
        Some(h) => {
            let next = clone_json(field_ref(obligation, "required_return_next_step"));
            let ghost nv = next@;
            let mut b = ObjectBuilder::new();
            b.push("headline", str_json(h));
            b.push("next_step", next);
            assert(b.view_entries() =~= seq![("headline"@, JsonView::Str(h@)), ("next_step"@, nv)]);
            b.build()
        },
        None => Json::Null,
    }
}

fn next_action_summary_exec(node: Option<&Json>, action: &Json) -> (r: Json)
    ensures
        r@ == next_action_summary_of(opt_json(node), action@),
{
    reveal(next_action_summary_of);
    match node_ref(node, "startup_next_action_summary") {
        Json::Str(s) => {
            let t = trim_str(s.as_str());
            if t.unicode_len() > 0 {
                return str_json(t);
            }
        },
        _ => {},
    }
    opt_string_json(summarize_startup_next_action(action))
}

fn summary_json(node: Option<&Json>, summary: Option<String>) -> (r: Json)
    requires
        node is None ==> summary is None,
    ensures
        r@ == on_node(opt_json(node), opt_string(summary)),
{
    opt_string_json(summary)
}

fn push_restore_entries(
    b: &mut ObjectBuilder,
    node: Option<&Json>,
    headline: &str,
    next_step: &str,
    obligation: Json,
    action: Json,
    materialized: Option<String>,
    graph: Option<String>,
    Ghost(notes_shown): Ghost<Option<Seq<char>>>,
)
    requires
        obligation@ == obligation_of(opt_json(node)),
        action@ == next_action_of(opt_json(node), headline@, next_step@),
        opt_string(materialized) == materialized_of(opt_json(node), notes_shown),
    ensures
        final(b).view_entries() == with_restore_entries(
            old(b).view_entries(),
            opt_json(node),
            headline@,
            next_step@,
            notes_shown,
            opt_string(graph),
        ),
{
    reveal(with_restore_entries);
    let ghost nv = opt_json(node);
    let ghost start = b.view_entries();
    let ghost ov = obligation@;
    let ghost av = action@;
    let recent = match node {
        Some(n) => summarize_recent_actions(field_ref(n, "recent_actions")),
        None => None,
    };
    let files = match node {
        Some(n) => summarize_string_list(field_ref(n, "active_files"), 4),
        None => None,
    };
    let questions = match node {
        Some(n) => summarize_string_list(field_ref(n, "open_questions"), 3),
        None => None,
    };
    let included = match node {
        Some(n) => continuity_decision_trace_summary(Some(field_ref(n, "latest_decision_trace")), "included"),
        None => None,
    };
    let excluded = match node {
        Some(n) => continuity_decision_trace_summary(Some(field_ref(n, "latest_decision_trace")), "not_included"),
        None => None,
    };
    let action_summary = next_action_summary_exec(node, &action);
    let required_return = required_return_exec(node, &obligation);
    let resume_state = match node_ref(node, "execctl_resume_state") {
        Json::Str(t) => {
            let tt = trim_str(t.as_str());
            if tt.unicode_len() > 0 {
                str_json(tt)
            } else {
                clone_json(field_ref(&obligation, "resume_state"))
            }
        },
        _ => clone_json(field_ref(&obligation, "resume_state")),
    };
    assert(resume_state@ == resume_state_of(nv, ov));
    b.push("materialized_summary", opt_string_json(materialized));
    b.push("recent_actions_summary", summary_json(node, recent));
    b.push("active_files_summary", summary_json(node, files));
    b.push("open_questions_summary", summary_json(node, questions));
    b.push("workspace_graph_summary", opt_string_json(graph));
    b.push("workspace_restore_pack_summary", node_text_exec(node, "workspace_restore_pack_summary"));
    b.push(
        "workspace_restore_pack",
        compact_workspace_restore_pack_for_startup(node_ref(node, "workspace_restore_pack")),
    );
    b.push("skill_execution_card_summary", node_text_exec(node, "skill_execution_card_summary"));
    b.push("skill_execution_card", node_object_exec(node, "skill_execution_card"));
    b.push("pending_return_summary", node_text_exec(node, "pending_return_summary"));
    b.push("pending_return_queue", node_array_exec(node, "pending_return_queue"));
    b.push("execctl_resume_contract_summary", node_text_exec(node, "execctl_resume_contract_summary"));
    b.push("execctl_resume_obligation", obligation);
    b.push("startup_next_action", action);
    b.push("startup_next_action_summary", action_summary);
    b.push("execctl_active_lease", node_object_exec(node, "execctl_active_lease"));
    b.push("execctl_active_lease_summary", node_text_exec(node, "execctl_active_lease_summary"));
    b.push("required_return_task", required_return);
    b.push("required_task_set", node_array_exec(node, "required_task_set"));
    b.push("required_task_set_summary", node_text_exec(node, "required_task_set_summary"));
    b.push("project_task_tree", compact_project_task_tree_for_startup(node_ref(node, "project_task_tree")));
    b.push("project_task_tree_summary", node_text_exec(node, "project_task_tree_summary"));
    b.push("project_task_ledger", compact_project_task_ledger_for_startup(node_ref(node, "project_task_ledger")));
    b.push("project_task_ledger_summary", node_text_exec(node, "project_task_ledger_summary"));
    b.push("execctl_resume_state", resume_state);
    b.push("included_reasons_summary", summary_json(node, included));
    b.push("excluded_reasons_summary", summary_json(node, excluded));
    proof {
        reveal_strlit("included");
        reveal_strlit("not_included");
        assert(b.view_entries() == with_restore_entries(start, nv, headline@, next_step@, notes_shown, opt_string(graph)));
    }
}

pub(crate) fn project_json(project: &ProjectRecord) -> (r: Json)
    ensures
        r@ == project_view(*project),
{
    let mut b = ObjectBuilder::new();
    b.push("code", str_json(project.code.as_str()));
    b.push("display_name", str_json(project.display_name.as_str()));
    b.push("repo_root", str_json(project.repo_root.as_str()));
    assert(b.view_entries() =~= seq![
        ("code"@, JsonView::Str(project.code@)),
        ("display_name"@, JsonView::Str(project.display_name@)),
        ("repo_root"@, JsonView::Str(project.repo_root@)),
    ]);
    b.build()
}

pub(crate) fn namespace_json(namespace: &NamespaceRecord) -> (r: Json)
    ensures
        r@ == namespace_view(*namespace),
{
    let mut b = ObjectBuilder::new();
    b.push("code", str_json(namespace.code.as_str()));
    b.push("display_name", str_json(namespace.display_name.as_str()));
    assert(b.view_entries() =~= seq![
        ("code"@, JsonView::Str(namespace.code@)),
        ("display_name"@, JsonView::Str(namespace.display_name@)),
    ]);
    b.build()
}

/// The chat-start restore pack of a project. `status_label_display` is the dashboard's
/// rule for showing a legacy client-budget status label, and `workspace_graph_summary`
/// the rule that summarises the restore's workspace graph; the pack holds whatever they
/// gave.
pub fn build_chat_start_restore<F: Fn(&str) -> String, G: Fn(&Json) -> Option<String>>(
    project: &ProjectRecord,
    namespace: &NamespaceRecord,
    continuity: &Json,
    handoff_summary: &Json,
    restore: Option<&Json>,
    status_label_display: &F,
    workspace_graph_summary: &G,
) -> (r: Json)
    requires
        forall|s: &str| #[trigger] status_label_display.requires((s,)),
        forall|j: &Json| #[trigger] workspace_graph_summary.requires((j,)),
    ensures
        restore is None ==> r@ == chat_start_restore_pack(
            *project,
            *namespace,
            continuity@,
            handoff_summary@,
            None,
            None,
            None,
            None,
        ),
        restore matches Some(x) ==> exists|notes_shown: Option<Seq<char>>|
            #[trigger] shown_status_label(
                *status_label_display,
                guard_of(field(x@, "working_state_restore"@)),
                notes_shown,
            ) && exists|graph: Option<Seq<char>>|
                #[trigger] graph_summarized_as(
                    *workspace_graph_summary,
                    field(field(x@, "working_state_restore"@), "workspace_graph"@),
                    graph,
                ) && exists|prompt_shown: Option<Seq<char>>|
                    #[trigger] shown_status_label(
                        *status_label_display,
                        guard_of(field(x@, "working_state_restore"@)),
                        prompt_shown,
                    ) && r@ == chat_start_restore_pack(
                        *project,
                        *namespace,
                        continuity@,
                        handoff_summary@,
                        Some(x@),
                        notes_shown,
                        graph,
                        prompt_shown,
                    ),
{
    let node: Option<&Json> = match restore {
        Some(x) => Some(field_ref(x, "working_state_restore")),
        None => None,
    };
    let ghost nv = opt_json(node);
    assert(nv == node_of(opt_json(restore)));
    let ghost h = handoff_summary@;
    let raw_headline = get_str(handoff_summary, "headline");
    let headline = format_optional_text_for_human(raw_headline);
    assert(opt_text(raw_headline) == as_text(field(h, "headline"@)));
    let raw_step = match get_str(handoff_summary, "next_step") {
        Some(s) => s,
        None => "",
    };
    proof {
        reveal_strlit("");
        assert(raw_step@ == str_or_empty(field(h, "next_step"@)));
    }
    let next_step = match crate::answer::normalize_next_step_value(raw_step) {
        Some(s) => s,
        None => "ещё нет данных".to_string(),
    };
    assert(headline@ == project_headline(h));
    assert(next_step@ == project_next_step(h));
    let materialized = match node {
        Some(n) => summarize_startup_materialized_notes(n, status_label_display),
        None => None,
    };
    let ghost notes_shown: Option<Seq<char>> = match node {
        Some(n) => choose|s: Option<Seq<char>>|
            #[trigger] shown_status_label(*status_label_display, guard_of(n@), s) && opt_string(materialized)
                == notes_summary(startup_notes(n@, s)),
        None => None,
    };
    let graph = match node {
        Some(n) => {
            let g_arg = field_ref(n, "workspace_graph");
            let g = workspace_graph_summary(g_arg);
            assert(workspace_graph_summary.ensures((g_arg,), g));
            assert(graph_summarized_as(*workspace_graph_summary, g_arg@, opt_string(g)));
            g
        },
        None => None,
    };
    let ghost graph_v = opt_string(graph);
    let prompt = render_chat_start_prompt(handoff_summary, node, status_label_display);
    let ghost prompt_shown: Option<Seq<char>> = match node {
        Some(n) => choose|s: Option<Seq<char>>|
            #[trigger] shown_status_label(*status_label_display, guard_of(n@), s) && prompt@
                == chat_start_prompt(h, nv, s),
        None => None,
    };
    let obligation = obligation_exec(node);
    let action = next_action_exec(node, headline.as_str(), next_step.as_str(), &obligation);
    let mut inner = ObjectBuilder::new();
    inner.push("project", project_json(project));
    inner.push("namespace", namespace_json(namespace));
    inner.push("headline", str_json(headline.as_str()));
    inner.push("next_step", str_json(next_step.as_str()));
    inner.push("restore_confidence", normalized_restore_confidence_value(node));
    inner.push("thread_count", thread_count_exec(continuity));
    let ghost head = inner.view_entries();
    assert(head =~= seq![
        ("project"@, project_view(*project)),
        ("namespace"@, namespace_view(*namespace)),
        ("headline"@, JsonView::Str(project_headline(h))),
        ("next_step"@, JsonView::Str(project_next_step(h))),
        ("restore_confidence"@, node_field(nv, "restore_confidence"@)),
        ("thread_count"@, thread_count_of(continuity@)),
    ]);
    push_restore_entries(
        &mut inner,
        node,
        headline.as_str(),
        next_step.as_str(),
        obligation,
        action,
        materialized,
        graph,
        Ghost(notes_shown),
    );
    inner.push("prompt_text", Json::Str(prompt));
    let ghost inner_entries = inner.view_entries();
    assert(inner_entries == with_restore_entries(head, nv, headline@, next_step@, notes_shown, graph_v).push(
        ("prompt_text"@, JsonView::Str(chat_start_prompt(h, nv, prompt_shown))),
    ));
    let mut outer = ObjectBuilder::new();
    outer.push("chat_start_restore", inner.build());
    let r = outer.build();
    assert(outer.view_entries() =~= seq![("chat_start_restore"@, JsonView::Object(inner_entries))]);
    proof {
        assert(r@ == chat_start_restore_pack(
            *project,
            *namespace,
            continuity@,
            h,
            opt_json(restore),
            notes_shown,
            graph_v,
            prompt_shown,
        ));
    }
    r
}

/// The chat-start prompt always opens with its marker, the project line cut to 64
/// characters and the next step cut to 80, whatever the restore holds.
pub proof fn lemma_chat_start_prompt_opens_with_line_and_step(
    handoff: JsonView,
    node: Option<JsonView>,
    shown: Option<Seq<char>>,
)
    ensures
        chat_start_prompt_lines(handoff, node, shown).len() >= 3,
        chat_start_prompt_lines(handoff, node, shown).take(3) == seq![
            "CHAT_START_RESTORE"@,
            "Линия: "@ + collapsed_answer(project_headline(handoff), 64),
            "Шаг: "@ + collapsed_answer(project_next_step(handoff), 80),
        ],
{
    let lines = chat_start_prompt_lines(handoff, node, shown);
    assert(lines.take(3) =~= seq![
        "CHAT_START_RESTORE"@,
        "Линия: "@ + collapsed_answer(project_headline(handoff), 64),
        "Шаг: "@ + collapsed_answer(project_next_step(handoff), 80),
    ]);
}


/// The keys of a chat-start restore pack, in order.
pub open spec fn pack_keys() -> Seq<Seq<char>> {
    seq![
        "project"@,
        "namespace"@,
        "headline"@,
        "next_step"@,
        "restore_confidence"@,
        "thread_count"@,
        "materialized_summary"@,
        "recent_actions_summary"@,
        "active_files_summary"@,
        "open_questions_summary"@,
        "workspace_graph_summary"@,
        "workspace_restore_pack_summary"@,
        "workspace_restore_pack"@,
        "skill_execution_card_summary"@,
        "skill_execution_card"@,
        "pending_return_summary"@,
        "pending_return_queue"@,
        "execctl_resume_contract_summary"@,
        "execctl_resume_obligation"@,
        "startup_next_action"@,
        "startup_next_action_summary"@,
        "execctl_active_lease"@,
        "execctl_active_lease_summary"@,
        "required_return_task"@,
        "required_task_set"@,
        "required_task_set_summary"@,
        "project_task_tree"@,
        "project_task_tree_summary"@,
        "project_task_ledger"@,
        "project_task_ledger_summary"@,
        "execctl_resume_state"@,
        "included_reasons_summary"@,
        "excluded_reasons_summary"@,
        "prompt_text"@,
    ]
}

proof fn lemma_pack_keys_distinct()
    ensures
        pack_keys().len() == 34,
        forall|j: int| 0 <= j < 2 ==> #[trigger] pack_keys()[j] != "headline"@,
        pack_keys()[2] == "headline"@,
        forall|j: int| 0 <= j < 3 ==> #[trigger] pack_keys()[j] != "next_step"@,
        pack_keys()[3] == "next_step"@,
        forall|j: int| 0 <= j < 5 ==> #[trigger] pack_keys()[j] != "thread_count"@,
        pack_keys()[5] == "thread_count"@,
        forall|j: int| 0 <= j < 18 ==> #[trigger] pack_keys()[j] != "execctl_resume_obligation"@,
        pack_keys()[18] == "execctl_resume_obligation"@,
        forall|j: int| 0 <= j < 19 ==> #[trigger] pack_keys()[j] != "startup_next_action"@,
        pack_keys()[19] == "startup_next_action"@,
        forall|j: int| 0 <= j < 30 ==> #[trigger] pack_keys()[j] != "execctl_resume_state"@,
        pack_keys()[30] == "execctl_resume_state"@,
        forall|j: int| 0 <= j < 33 ==> #[trigger] pack_keys()[j] != "prompt_text"@,
        pack_keys()[33] == "prompt_text"@,
        forall|j: int| 0 <= j < 26 ==> #[trigger] pack_keys()[j] != "project_task_tree"@,
        pack_keys()[26] == "project_task_tree"@,
{
    reveal_strlit("required_task_set");
    reveal_strlit("project_task_tree");
    assert("required_task_set"@[0] != "project_task_tree"@[0]);
    reveal_strlit("project");
    reveal_strlit("namespace");
    reveal_strlit("headline");
    reveal_strlit("next_step");
    reveal_strlit("restore_confidence");
    reveal_strlit("thread_count");
    reveal_strlit("materialized_summary");
    reveal_strlit("recent_actions_summary");
    reveal_strlit("active_files_summary");
    reveal_strlit("open_questions_summary");
    reveal_strlit("workspace_graph_summary");
    reveal_strlit("workspace_restore_pack_summary");
    reveal_strlit("workspace_restore_pack");
    reveal_strlit("skill_execution_card_summary");
    reveal_strlit("skill_execution_card");
    reveal_strlit("pending_return_summary");
    reveal_strlit("pending_return_queue");
    reveal_strlit("execctl_resume_contract_summary");
    reveal_strlit("execctl_resume_obligation");
    reveal_strlit("startup_next_action");
    reveal_strlit("startup_next_action_summary");
    reveal_strlit("execctl_active_lease");
    reveal_strlit("execctl_active_lease_summary");
    reveal_strlit("required_return_task");
    reveal_strlit("required_task_set");
    reveal_strlit("required_task_set_summary");
    reveal_strlit("project_task_tree");
    reveal_strlit("project_task_tree_summary");
    reveal_strlit("project_task_ledger");
    reveal_strlit("project_task_ledger_summary");
    reveal_strlit("execctl_resume_state");
    reveal_strlit("included_reasons_summary");
    reveal_strlit("excluded_reasons_summary");
    reveal_strlit("prompt_text");
    assert("project"@.len() == 7);
    assert("namespace"@.len() == 9);
    assert("headline"@.len() == 8);
    assert("next_step"@.len() == 9);
    assert("restore_confidence"@.len() == 18);
    assert("thread_count"@.len() == 12);
    assert("materialized_summary"@.len() == 20);
    assert("recent_actions_summary"@.len() == 22);
    assert("active_files_summary"@.len() == 20);
    assert("open_questions_summary"@.len() == 22);
    assert("workspace_graph_summary"@.len() == 23);
    assert("workspace_restore_pack_summary"@.len() == 30);
    assert("workspace_restore_pack"@.len() == 22);
    assert("skill_execution_card_summary"@.len() == 28);
    assert("skill_execution_card"@.len() == 20);
    assert("pending_return_summary"@.len() == 22);
    assert("pending_return_queue"@.len() == 20);
    assert("execctl_resume_contract_summary"@.len() == 31);
    assert("execctl_resume_obligation"@.len() == 25);
    assert("startup_next_action"@.len() == 19);
    assert("startup_next_action_summary"@.len() == 27);
    assert("execctl_active_lease"@.len() == 20);
    assert("execctl_active_lease_summary"@.len() == 28);
    assert("required_return_task"@.len() == 20);
    assert("required_task_set"@.len() == 17);
    assert("required_task_set_summary"@.len() == 25);
    assert("project_task_tree"@.len() == 17);
    assert("project_task_tree_summary"@.len() == 25);
    assert("project_task_ledger"@.len() == 19);
    assert("project_task_ledger_summary"@.len() == 27);
    assert("execctl_resume_state"@.len() == 20);
    assert("included_reasons_summary"@.len() == 24);
    assert("excluded_reasons_summary"@.len() == 24);
    assert("prompt_text"@.len() == 11);
    assert("namespace"@[1] != "next_step"@[1]);
    assert("materialized_summary"@[0] != "execctl_resume_state"@[0]);
    assert("active_files_summary"@[0] != "execctl_resume_state"@[0]);
    assert("skill_execution_card"@[0] != "execctl_resume_state"@[0]);
    assert("pending_return_queue"@[0] != "execctl_resume_state"@[0]);
    assert("execctl_active_lease"@[8] != "execctl_resume_state"@[8]);
    assert("required_return_task"@[0] != "execctl_resume_state"@[0]);
}

/// The pack's entries carry the pack keys in order.
proof fn lemma_pack_entry_keys(
    head: Seq<(Seq<char>, JsonView)>,
    node: Option<JsonView>,
    headline: Seq<char>,
    next_step: Seq<char>,
    notes_shown: Option<Seq<char>>,
    graph: Option<Seq<char>>,
    prompt: Seq<char>,
)
    requires
        head.len() == 6,
        forall|i: int| 0 <= i < 6 ==> #[trigger] head[i].0 == pack_keys()[i],
    ensures
        ({
            let es = with_restore_entries(head, node, headline, next_step, notes_shown, graph).push(
                ("prompt_text"@, JsonView::Str(prompt)),
            );
            &&& es.len() == pack_keys().len()
            &&& forall|i: int| 0 <= i < es.len() ==> #[trigger] es[i].0 == pack_keys()[i]
        }),
{
    reveal(with_restore_entries);
    let es = with_restore_entries(head, node, headline, next_step, notes_shown, graph).push(
        ("prompt_text"@, JsonView::Str(prompt)),
    );
    assert forall|i: int| 0 <= i < es.len() implies #[trigger] es[i].0 == pack_keys()[i] by {
        if i < 6 {
            assert(es[i] == head[i]);
        }
    }
}


/// A law of the chat-start restore pack: it carries the project's line and next step, the
/// continuity's thread count and the prompt a fresh chat starts from; its startup next
/// action is the one the restore records when that is an object, else the default one made
/// from the current goal, the next step and the resume obligation; and its resume state is
/// the restore's own, trimmed, else the resume state of the obligation the pack carries.
pub proof fn lemma_chat_start_pack_reads(
    project: ProjectRecord,
    namespace: NamespaceRecord,
    continuity: JsonView,
    handoff: JsonView,
    restore: Option<JsonView>,
    notes_shown: Option<Seq<char>>,
    graph: Option<Seq<char>>,
    prompt_shown: Option<Seq<char>>,
)
    ensures
        ({
            let n = field(
                chat_start_restore_pack(
                    project,
                    namespace,
                    continuity,
                    handoff,
                    restore,
                    notes_shown,
                    graph,
                    prompt_shown,
                ),
                "chat_start_restore"@,
            );
            let node = node_of(restore);
            let headline = project_headline(handoff);
            let next_step = project_next_step(handoff);
            &&& field(n, "headline"@) == JsonView::Str(headline)
            &&& field(n, "next_step"@) == JsonView::Str(next_step)
            &&& field(n, "thread_count"@) == thread_count_of(continuity)
            &&& field(n, "startup_next_action"@) == (if node_field(node, "startup_next_action"@) is Object {
                node_field(node, "startup_next_action"@)
            } else {
                startup_next_action(current_goal_of(node, headline), next_step, obligation_of(node))
            })
            &&& field(n, "execctl_resume_state"@) == (match as_text(
                node_field(node, "execctl_resume_state"@),
            ) {
                Some(t) => JsonView::Str(t),
                None => field(field(n, "execctl_resume_obligation"@), "resume_state"@),
            })
            &&& field(n, "prompt_text"@) == JsonView::Str(chat_start_prompt(handoff, node, prompt_shown))
            &&& field(n, "project_task_tree"@) == task_tree_view(node_field(node, "project_task_tree"@))
        }),
{
    let node = node_of(restore);
    let headline = project_headline(handoff);
    let next_step = project_next_step(handoff);
    let head = seq![
        ("project"@, project_view(project)),
        ("namespace"@, namespace_view(namespace)),
        ("headline"@, JsonView::Str(headline)),
        ("next_step"@, JsonView::Str(next_step)),
        ("restore_confidence"@, node_field(node, "restore_confidence"@)),
        ("thread_count"@, thread_count_of(continuity)),
    ];
    let prompt = chat_start_prompt(handoff, node, prompt_shown);
    let es = with_restore_entries(head, node, headline, next_step, notes_shown, graph).push(
        ("prompt_text"@, JsonView::Str(prompt)),
    );
    lemma_pack_keys_distinct();
    reveal_strlit("project");
    reveal_strlit("namespace");
    reveal_strlit("headline");
    reveal_strlit("next_step");
    reveal_strlit("restore_confidence");
    reveal_strlit("thread_count");
    assert forall|i: int| 0 <= i < 6 implies #[trigger] head[i].0 == pack_keys()[i] by {}
    lemma_pack_entry_keys(head, node, headline, next_step, notes_shown, graph, prompt);
    let pack = chat_start_restore_pack(
        project,
        namespace,
        continuity,
        handoff,
        restore,
        notes_shown,
        graph,
        prompt_shown,
    );
    let outer = pack->Object_0;
    crate::json::lemma_position_lookup_first(outer, "chat_start_restore"@, 1, 0);
    assert(field(pack, "chat_start_restore"@) == JsonView::Object(es));
    let n = es.len() as int;
    crate::json::lemma_position_lookup_first(es, "headline"@, n, 2);
    crate::json::lemma_position_lookup_first(es, "next_step"@, n, 3);
    crate::json::lemma_position_lookup_first(es, "thread_count"@, n, 5);
    crate::json::lemma_position_lookup_first(es, "execctl_resume_obligation"@, n, 18);
    crate::json::lemma_position_lookup_first(es, "startup_next_action"@, n, 19);
    crate::json::lemma_position_lookup_first(es, "execctl_resume_state"@, n, 30);
    crate::json::lemma_position_lookup_first(es, "prompt_text"@, n, 33);
    crate::json::lemma_position_lookup_first(es, "project_task_tree"@, n, 26);
    reveal(with_restore_entries);
    assert(es[2].1 == JsonView::Str(headline));
    assert(es[18].1 == obligation_of(node));
    assert(es[19].1 == next_action_of(node, headline, next_step));
    assert(es[30].1 == resume_state_of(node, obligation_of(node)));
    assert(es[33].1 == JsonView::Str(prompt));
    assert(es[26].1 == task_tree_view(node_field(node, "project_task_tree"@)));
}

/// The restore's ExecCtl resume contract reports a pending return queue.
pub open spec fn return_queue_pending(node: Option<JsonView>) -> bool {
    match node {
        Some(n) => field(n, "execctl_resume_contract"@) is Object && as_text(
            field(field(n, "execctl_resume_contract"@), "resume_state"@),
        ) == Some("pending_return_queue_present"@),
        None => false,
    }
}

/// A law of the chat-start prompt: when the restore's ExecCtl resume contract reports a
/// pending return queue, the prompt's last line tells the fresh chat to close that return
/// first, whatever else the prompt holds.
pub proof fn lemma_pending_return_closes_prompt(handoff: JsonView, node: Option<JsonView>, shown: Option<Seq<char>>)
    requires
        return_queue_pending(node),
    ensures
        chat_start_prompt_lines(handoff, node, shown).last() == "Сначала закрой возврат."@,
        crate::text::has_suffix(chat_start_prompt(handoff, node, shown), "\n"@ + "Сначала закрой возврат."@),
{
    reveal(obligation_of);
    reveal(chat_start_prompt);
    let n = node->Some_0;
    let c = field(n, "execctl_resume_contract"@);
    let raw = field(c, "resume_state"@);
    let o = crate::startup::obligation_summary(c);
    reveal_strlit("resume_state");
    crate::json::lemma_position_lookup_first(o->Object_0, "resume_state"@, o->Object_0.len() as int, 0);
    let t = as_str(raw)->Some_0;
    crate::text::lemma_trim_idempotent(t);
    assert(as_text(field(o, "resume_state"@)) == Some("pending_return_queue_present"@));
    let lines = chat_start_prompt_lines(handoff, node, shown);
    lemma_chat_start_prompt_opens_with_line_and_step(handoff, node, shown);
    crate::text::lemma_join_ends_with_last(lines, "\n"@);
}

} // verus!
