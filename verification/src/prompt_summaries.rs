//! One-line summaries of restore obligations for the chat-start prompt and the human
//! surface: the required task set, the pending returns, the resume contract and the first
//! action. Prompt summaries are collapsed and cut to a fixed number of characters.
use vstd::prelude::*;
use crate::answer::{collapsed_answer, compact_prompt_fragment};
use crate::budget::{advisory_text, normalize_client_budget_advisory_text};
use crate::json::{
    as_array, as_str, as_text, as_u64, field, get, get_str, get_text, get_u64, items_view,
    lemma_items_view, Json, JsonView,
};
use crate::labels::{
    format_optional_text_for_prompt, format_optional_u64_for_prompt, no_data, text_or,
};
use crate::text::{
    decimal, push_all, push_str, str_eq, string_of, trim, trim_chars, trim_str, u64_to_string,
};

verus! {

/// `node[key]` as it stands, when it is text that is not blank.
pub open spec fn nonblank_str(node: JsonView, key: Seq<char>) -> Option<Seq<char>> {
    match as_str(field(node, key)) {
        Some(t) => if trim(t).len() > 0 {
            Some(t)
        } else {
            None
        },
        None => None,
    }
}

fn nonblank_str_exec<'a>(node: &'a Json, key: &str) -> (r: Option<&'a str>)
    ensures
        match r {
            Some(t) => nonblank_str(node@, key@) == Some(t@),
            None => nonblank_str(node@, key@) is None,
        },
{
    match get_str(node, key) {
        Some(t) => if trim_str(t).unicode_len() > 0 {
            Some(t)
        } else {
            None
        },
        None => None,
    }
}

/// The first of `items[k..]` that is text and not blank, trimmed.
pub open spec fn first_text_item(items: Seq<JsonView>, k: int) -> Option<Seq<char>>
    decreases items.len() - k,
{
    if k < 0 || k >= items.len() {
        None
    } else {
        match as_str(items[k]) {
            Some(t) => if trim(t).len() > 0 {
                Some(trim(t))
            } else {
                first_text_item(items, k + 1)
            },
            None => first_text_item(items, k + 1),
        }
    }
}

/// The items of `node[key]` when it is a non-empty array.
pub open spec fn nonempty_items(node: JsonView, key: Seq<char>) -> Option<Seq<JsonView>> {
    match as_array(field(node, key)) {
        Some(items) => if items.len() > 0 {
            Some(items)
        } else {
            None
        },
        None => None,
    }
}

fn nonempty_items_exec<'a>(node: &'a Json, key: &str) -> (r: Option<&'a Vec<Json>>)
    ensures
        match r {
            Some(v) => nonempty_items(node@, key@) == Some(items_view(v@)) && v@.len() > 0,
            None => nonempty_items(node@, key@) is None,
        },
{
    match get(node, key) {
        Some(Json::Array(v)) => {
            proof {
                lemma_items_view(v@);
            }
            if v.len() > 0 {
                Some(v)
            } else {
                None
            }
        },
        _ => None,
    }
}

fn first_text_item_exec(items: &Vec<Json>) -> (r: Option<Vec<char>>)
    ensures
        match r {
            Some(t) => first_text_item(items_view(items@), 0) == Some(t@),
            None => first_text_item(items_view(items@), 0) is None,
        },
{
    let ghost iv = items_view(items@);
    proof {
        lemma_items_view(items@);
    }
    let mut k: usize = 0;
    while k < items.len()
        invariant
            k <= items@.len(),
            iv == items_view(items@),
            iv.len() == items@.len(),
            forall|j: int| 0 <= j < items@.len() ==> #[trigger] iv[j] == crate::json::json_view(items@[j]),
            first_text_item(iv, 0) == first_text_item(iv, k as int),
        decreases items@.len() - k,
    {
        assert(iv[k as int] == crate::json::json_view(items@[k as int]));
        match &items[k] {
            Json::Str(t) => {
                let chars = crate::text::chars_of(t.as_str());
                let tc = trim_chars(chars.as_slice());
                if tc.len() > 0 {
                    return Some(tc);
                }
            },
            _ => {},
        }
        k = k + 1;
    }
    None
}

/// The required task set in words: its summary, else its first task, prefixed by the
/// number of tasks when there are several.
pub open spec fn task_set_words(node: JsonView) -> Option<Seq<char>> {
    match nonempty_items(node, "required_task_set"@) {
        Some(items) => match first_text_item(items, 0) {
            Some(first) => Some(
                if items.len() == 1 {
                    first
                } else {
                    decimal(items.len()) + " задач(и): "@ + first
                },
            ),
            None => None,
        },
        None => None,
    }
}

fn task_set_words_exec(node: &Json) -> (r: Option<Vec<char>>)
    ensures
        match r {
            Some(t) => task_set_words(node@) == Some(t@),
            None => task_set_words(node@) is None,
        },
{
    let items = match nonempty_items_exec(node, "required_task_set") {
        Some(v) => v,
        None => {
            return None;
        },
    };
    let first = match first_text_item_exec(items) {
        Some(f) => f,
        None => {
            return None;
        },
    };
    proof {
        lemma_items_view(items@);
    }
    if items.len() == 1 {
        Some(first)
    } else {
        let mut out: Vec<char> = Vec::new();
        let n = u64_to_string(items.len() as u64);
        push_str(&mut out, n.as_str());
        push_str(&mut out, " задач(и): ");
        push_all(&mut out, first.as_slice());
        Some(out)
    }
}

/// The required task set for the prompt.
pub open spec fn task_set_for_prompt(node: Option<JsonView>) -> Option<Seq<char>> {
    match node {
        Some(n) => match nonblank_str(n, "required_task_set_summary"@) {
            Some(summary) => Some(collapsed_answer(summary, 96)),
            None => match task_set_words(n) {
                Some(w) => Some(collapsed_answer(w, 96)),
                None => None,
            },
        },
        None => None,
    }
}

pub fn summarize_required_task_set_for_prompt(restore_node: Option<&Json>) -> (r: Option<String>)
    ensures
        match r {
            Some(t) => task_set_for_prompt(
                match restore_node {
                    Some(n) => Some(n@),
                    None => None,
                },
            ) == Some(t@),
            None => task_set_for_prompt(
                match restore_node {
                    Some(n) => Some(n@),
                    None => None,
                },
            ) is None,
        },
{
    let node = match restore_node {
        Some(n) => n,
        None => {
            return None;
        },
    };
    match nonblank_str_exec(node, "required_task_set_summary") {
        Some(summary) => Some(compact_prompt_fragment(summary, 96)),
        None => match task_set_words_exec(node) {
            Some(w) => {
                let text = string_of(w.as_slice());
                Some(compact_prompt_fragment(text.as_str(), 96))
            },
            None => None,
        },
    }
}

/// The required task set for the human surface.
pub open spec fn task_set_for_human(node: JsonView) -> Option<Seq<char>> {
    match nonblank_str(node, "required_task_set_summary"@) {
        Some(summary) => Some(trim(summary)),
        None => task_set_words(node),
    }
}

pub fn summarize_required_task_set_for_human_surface(node: &Json) -> (r: Option<String>)
    ensures
        match r {
            Some(t) => task_set_for_human(node@) == Some(t@),
            None => task_set_for_human(node@) is None,
        },
{
    match nonblank_str_exec(node, "required_task_set_summary") {
        Some(summary) => Some(trim_str(summary).to_string()),
        None => match task_set_words_exec(node) {
            Some(w) => Some(string_of(w.as_slice())),
            None => None,
        },
    }
}

/// The headline text of the first of `items[k..]` whose headline is text at all.
pub open spec fn first_headline(items: Seq<JsonView>, k: int) -> Option<Seq<char>>
    decreases items.len() - k,
{
    if k < 0 || k >= items.len() {
        None
    } else {
        match as_str(field(items[k], "headline"@)) {
            Some(t) => Some(t),
            None => first_headline(items, k + 1),
        }
    }
}

fn first_headline_exec(items: &Vec<Json>) -> (r: Option<&str>)
    ensures
        match r {
            Some(t) => first_headline(items_view(items@), 0) == Some(t@),
            None => first_headline(items_view(items@), 0) is None,
        },
{
    let ghost iv = items_view(items@);
    proof {
        lemma_items_view(items@);
    }
    let mut k: usize = 0;
    while k < items.len()
        invariant
            k <= items@.len(),
            iv == items_view(items@),
            iv.len() == items@.len(),
            forall|j: int| 0 <= j < items@.len() ==> #[trigger] iv[j] == crate::json::json_view(items@[j]),
            first_headline(iv, 0) == first_headline(iv, k as int),
        decreases items@.len() - k,
    {
        assert(iv[k as int] == crate::json::json_view(items@[k as int]));
        match get_str(&items[k], "headline") {
            Some(t) => {
                return Some(t);
            },
            None => {},
        }
        k = k + 1;
    }
    None
}

/// The pending returns for the prompt: their summary, else the first queued headline
/// with the size of the queue.
pub open spec fn pending_return_for_prompt(node: Option<JsonView>) -> Option<Seq<char>> {
    match node {
        Some(n) => match nonblank_str(n, "pending_return_summary"@) {
            Some(summary) => Some(collapsed_answer(summary, 96)),
            None => match nonempty_items(n, "pending_return_queue"@) {
                Some(queue) => match first_headline(queue, 0) {
                    Some(h) => if trim(h).len() > 0 {
                        Some(
                            collapsed_answer(
                                if queue.len() == 1 {
                                    "pending_return(1): "@ + trim(h)
                                } else {
                                    "pending_return("@ + decimal(queue.len()) + "): "@ + trim(h)
                                        + "; +"@ + decimal((queue.len() - 1) as nat) + " more"@
                                },
                                96,
                            ),
                        )
                    } else {
                        None
                    },
                    None => None,
                },
                None => None,
            },
        },
        None => None,
    }
}

pub fn summarize_pending_return_for_prompt(restore_node: Option<&Json>) -> (r: Option<String>)
    ensures
        match r {
            Some(t) => pending_return_for_prompt(
                match restore_node {
                    Some(n) => Some(n@),
                    None => None,
                },
            ) == Some(t@),
            None => pending_return_for_prompt(
                match restore_node {
                    Some(n) => Some(n@),
                    None => None,
                },
            ) is None,
        },
{
    let node = match restore_node {
        Some(n) => n,
        None => {
            return None;
        },
    };
    if let Some(summary) = nonblank_str_exec(node, "pending_return_summary") {
        return Some(compact_prompt_fragment(summary, 96));
    }
    let queue = match nonempty_items_exec(node, "pending_return_queue") {
        Some(q) => q,
        None => {
            return None;
        },
    };
    let headline = match first_headline_exec(queue) {
        Some(h) => trim_str(h),
        None => {
            return None;
        },
    };
    if headline.unicode_len() == 0 {
        return None;
    }
    proof {
        lemma_items_view(queue@);
    }
    let n = queue.len();
    let mut out: Vec<char> = Vec::new();
    if n == 1 {
        push_str(&mut out, "pending_return(1): ");
        push_str(&mut out, headline);
    } else {
        push_str(&mut out, "pending_return(");
        push_str(&mut out, u64_to_string(n as u64).as_str());
        push_str(&mut out, "): ");
        push_str(&mut out, headline);
        push_str(&mut out, "; +");
        push_str(&mut out, u64_to_string((n - 1) as u64).as_str());
        push_str(&mut out, " more");
    }
    let text = string_of(out.as_slice());
    Some(compact_prompt_fragment(text.as_str(), 96))
}

/// The resume contract for the prompt: the restore's own summary, else
/// `<state>(<pending count>): <return headline> -> <return next step>` when a return task
/// is owed.
pub open spec fn resume_contract_for_prompt(node: Option<JsonView>, o: JsonView) -> Option<Seq<char>> {
    let own = match node {
        Some(n) => nonblank_str(n, "execctl_resume_contract_summary"@),
        None => None,
    };
    match own {
        Some(summary) => Some(collapsed_answer(summary, 96)),
        None => match as_text(field(o, "required_return_headline"@)) {
            Some(h) => Some(
                collapsed_answer(
                    text_or(as_text(field(o, "resume_state"@)), "?"@) + "("@ + match as_u64(
                        field(o, "pending_return_count"@),
                    ) {
                        Some(c) => decimal(c as nat),
                        None => "?"@,
                    } + "): "@ + h + " -> "@ + text_or(
                        as_text(field(o, "required_return_next_step"@)),
                        no_data(),
                    ),
                    96,
                ),
            ),
            None => None,
        },
    }
}

pub fn summarize_execctl_resume_contract_for_prompt(
    restore_node: Option<&Json>,
    execctl_resume_obligation: &Json,
) -> (r: Option<String>)
    ensures
        match r {
            Some(t) => resume_contract_for_prompt(
                match restore_node {
                    Some(n) => Some(n@),
                    None => None,
                },
                execctl_resume_obligation@,
            ) == Some(t@),
            None => resume_contract_for_prompt(
                match restore_node {
                    Some(n) => Some(n@),
                    None => None,
                },
                execctl_resume_obligation@,
            ) is None,
        },
{
    let own = match restore_node {
        Some(n) => nonblank_str_exec(n, "execctl_resume_contract_summary"),
        None => None,
    };
    if let Some(summary) = own {
        return Some(compact_prompt_fragment(summary, 96));
    }
    let o = execctl_resume_obligation;
    let headline = match get_text(o, "required_return_headline") {
        Some(h) => h,
        None => {
            return None;
        },
    };
    let next_step = match get_text(o, "required_return_next_step") {
        Some(t) => t,
        None => "ещё нет данных",
    };
    let state = match get_text(o, "resume_state") {
        Some(t) => t,
        None => "?",
    };
    let count = format_optional_u64_for_prompt(get_u64(o, "pending_return_count"));
    let mut out: Vec<char> = Vec::new();
    push_str(&mut out, state);
    push_str(&mut out, "(");
    push_str(&mut out, count.as_str());
    push_str(&mut out, "): ");
    push_str(&mut out, headline);
    push_str(&mut out, " -> ");
    push_str(&mut out, next_step);
    let text = string_of(out.as_slice());
    Some(compact_prompt_fragment(text.as_str(), 96))
}

/// The first action for the prompt; nothing when the action is to continue the active
/// workline or has no kind.
pub open spec fn next_action_for_prompt(v: JsonView) -> Option<Seq<char>> {
    match as_str(field(v, "action_kind"@)) {
        Some(kind) => if kind.len() > 0 {
            let headline = match as_text(field(v, "headline"@)) {
                Some(t) => advisory_text(t),
                None => no_data(),
            };
            let ch = collapsed_answer(headline, 48);
            if kind == "resume_required_return_task"@ {
                Some("Сначала: вернись: "@ + ch)
            } else if kind == "wait_for_global_client_budget_recovery"@ {
                Some("Сначала: жди budget: "@ + ch)
            } else if kind == "continue_active_workline"@ {
                None
            } else {
                Some("Сначала: "@ + ch)
            }
        } else {
            None
        },
        None => None,
    }
}

pub fn summarize_startup_next_action_for_prompt(value: &Json) -> (r: Option<String>)
    ensures
        match r {
            Some(t) => next_action_for_prompt(value@) == Some(t@),
            None => next_action_for_prompt(value@) is None,
        },
{
    let kind = match get_str(value, "action_kind") {
        Some(k) => k,
        None => {
            return None;
        },
    };
    if kind.unicode_len() == 0 {
        return None;
    }
    let headline = match get_text(value, "headline") {
        Some(t) => normalize_client_budget_advisory_text(t),
        None => "ещё нет данных".to_string(),
    };
    let ch = compact_prompt_fragment(headline.as_str(), 48);
    let mut out: Vec<char> = Vec::new();
    if str_eq(kind, "resume_required_return_task") {
        push_str(&mut out, "Сначала: вернись: ");
    } else if str_eq(kind, "wait_for_global_client_budget_recovery") {
        push_str(&mut out, "Сначала: жди budget: ");
    } else if str_eq(kind, "continue_active_workline") {
        return None;
    } else {
        push_str(&mut out, "Сначала: ");
    }
    push_str(&mut out, ch.as_str());
    Some(string_of(out.as_slice()))
}

} // verus!
