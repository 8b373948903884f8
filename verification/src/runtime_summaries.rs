//! Short summaries of runtime lists and traces, and the continuity record that stands in
//! when no imported continuity exists and the working-state restore has to serve.
use vstd::prelude::*;
use crate::answer::{collapse_answer_text, collapsed_answer, normalize_next_step_value, normalized_next_step, strategy_label, continuity_strategy_label};
use crate::json::{
    as_array, as_str, as_text, as_u64, field, get, get_str, get_text, get_u64, is_object,
    items_view, lemma_items_view, opt_str_json, opt_str_view, set_field, str_json, with_field,
    Json, JsonView, ObjectBuilder,
};
use crate::text::{
    decimal, join, join_chars, non_empty_trimmed, push_str, str_eq, string_of, trim, trim_start,
    has_prefix, str_starts_with, trim_str, u64_to_string, views,
};

verus! {

/// The text a recent action is shown by: its headline, else its summary.
pub open spec fn action_entry(item: JsonView) -> Option<Seq<char>> {
    match as_text(field(item, "headline"@)) {
        Some(t) => Some(t),
        None => as_text(field(item, "summary"@)),
    }
}

/// The entries of the first `n` actions that have one.
pub open spec fn action_entries(items: Seq<JsonView>, n: int) -> Seq<Seq<char>>
    decreases n,
{
    if n <= 0 {
        Seq::empty()
    } else {
        match action_entry(items[n - 1]) {
            Some(t) => action_entries(items, n - 1).push(t),
            None => action_entries(items, n - 1),
        }
    }
}

/// The first two recent actions, joined with `; `; nothing when neither has text or the
/// value is not a list.
pub open spec fn recent_actions_summary(v: JsonView) -> Option<Seq<char>> {
    match as_array(v) {
        Some(items) => {
            let n = if items.len() < 2 {
                items.len() as int
            } else {
                2
            };
            let es = action_entries(items, n);
            if es.len() > 0 {
                Some(join(es, "; "@))
            } else {
                None
            }
        },
        None => None,
    }
}

fn text_vec(t: &str) -> (v: Vec<char>)
    ensures
        v@ == t@,
{
    crate::text::chars_of(t)
}

pub fn summarize_recent_actions(value: &Json) -> (r: Option<String>)
    ensures
        match r {
            Some(t) => recent_actions_summary(value@) == Some(t@),
            None => recent_actions_summary(value@) is None,
        },
{
    let items = match value {
        Json::Array(items) => items,
        _ => {
            return None;
        },
    };
    proof {
        lemma_items_view(items@);
    }
    let ghost iv = items_view(items@);
    let n = if items.len() < 2 {
        items.len()
    } else {
        2
    };
    let mut entries: Vec<Vec<char>> = Vec::new();
    let mut i: usize = 0;
    while i < n
        invariant
            i <= n <= items@.len(),
            iv == items_view(items@),
            iv.len() == items@.len(),
            forall|j: int| 0 <= j < items@.len() ==> #[trigger] iv[j] == crate::json::json_view(items@[j]),
            views(entries@) == action_entries(iv, i as int),
        decreases n - i,
    {
        assert(iv[i as int] == crate::json::json_view(items@[i as int]));
        let entry = match get_text(&items[i], "headline") {
            Some(t) => Some(t),
            None => get_text(&items[i], "summary"),
        };
        match entry {
            Some(t) => {
                let v = text_vec(t);
                let ghost before = views(entries@);
                entries.push(v);
                assert(views(entries@) =~= before.push(t@));
            },
            None => {},
        }
        i = i + 1;
    }
    if entries.len() == 0 {
        return None;
    }
    let sep = text_vec("; ");
    let joined = join_chars(&entries, sep.as_slice());
    Some(string_of(joined.as_slice()))
}

/// The trimmed non-empty strings among the first `n` items.
pub open spec fn listed_texts(items: Seq<JsonView>, n: int) -> Seq<Seq<char>>
    decreases n,
{
    if n <= 0 {
        Seq::empty()
    } else {
        match as_str(items[n - 1]) {
            Some(t) => match non_empty_trimmed(t) {
                Some(x) => listed_texts(items, n - 1).push(x),
                None => listed_texts(items, n - 1),
            },
            None => listed_texts(items, n - 1),
        }
    }
}

/// Up to `limit` of the list's non-blank strings, trimmed and joined with `; `; nothing
/// when there are none or the value is not a list.
pub open spec fn string_list_summary(v: JsonView, limit: nat) -> Option<Seq<char>> {
    match as_array(v) {
        Some(items) => {
            let all = listed_texts(items, items.len() as int);
            let kept = if all.len() <= limit {
                all
            } else {
                all.take(limit as int)
            };
            if kept.len() > 0 {
                Some(join(kept, "; "@))
            } else {
                None
            }
        },
        None => None,
    }
}

pub fn summarize_string_list(value: &Json, limit: usize) -> (r: Option<String>)
    ensures
        match r {
            Some(t) => string_list_summary(value@, limit as nat) == Some(t@),
            None => string_list_summary(value@, limit as nat) is None,
        },
{
    let items = match value {
        Json::Array(items) => items,
        _ => {
            return None;
        },
    };
    proof {
        lemma_items_view(items@);
    }
    let ghost iv = items_view(items@);
    let mut texts: Vec<Vec<char>> = Vec::new();
    let mut i: usize = 0;
    while i < items.len()
        invariant
            i <= items@.len(),
            iv == items_view(items@),
            iv.len() == items@.len(),
            forall|j: int| 0 <= j < items@.len() ==> #[trigger] iv[j] == crate::json::json_view(items@[j]),
            views(texts@) == listed_texts(iv, i as int),
        decreases items@.len() - i,
    {
        assert(iv[i as int] == crate::json::json_view(items@[i as int]));
        match &items[i] {
            Json::Str(t) => {
                let tv = crate::text::chars_of(t.as_str());
                let tc = crate::text::trim_chars(tv.as_slice());
                if tc.len() > 0 {
                    let ghost before = views(texts@);
                    let ghost tcv = tc@;
                    texts.push(tc);
                    assert(views(texts@) =~= before.push(tcv));
                }
            },
            _ => {},
        }
        i = i + 1;
    }
    let ghost all = views(texts@);
    let mut kept: Vec<Vec<char>> = Vec::new();
    let mut k: usize = 0;
    let stop = if texts.len() <= limit {
        texts.len()
    } else {
        limit
    };
    while k < stop
        invariant
            k <= stop <= texts@.len(),
            all == views(texts@),
            views(kept@) == all.take(k as int),
        decreases stop - k,
    {
        let ghost before = views(kept@);
        let c = crate::text::slice_range(texts[k].as_slice(), 0, texts[k].len());
        assert(c@ =~= texts@[k as int]@);
        assert(all[k as int] == texts@[k as int]@);
        kept.push(c);
        assert(views(kept@) =~= before.push(c@));
        assert(views(kept@) =~= all.take(k + 1));
        k = k + 1;
    }
    assert(all.len() <= limit ==> all.take(stop as int) =~= all);
    if kept.len() == 0 {
        return None;
    }
    let sep = text_vec("; ");
    let joined = join_chars(&kept, sep.as_slice());
    Some(string_of(joined.as_slice()))
}

/// One step of a decision trace in words: its strategy, its hit count when positive, and
/// its reason; nothing without a reason.
pub open spec fn trace_part(item: JsonView) -> Option<Seq<char>> {
    match as_str(field(item, "reason"@)) {
        Some(raw) => {
            let reason = trim(raw);
            if reason.len() == 0 {
                None
            } else {
                let strategy = strategy_label(
                    match as_str(field(item, "strategy"@)) {
                        Some(s) => s,
                        None => Seq::empty(),
                    },
                );
                Some(
                    match as_u64(field(item, "count"@)) {
                        Some(c) => if c > 0 {
                            strategy + " ("@ + decimal(c as nat) + ") — "@ + reason
                        } else {
                            strategy + " — "@ + reason
                        },
                        None => strategy + " — "@ + reason,
                    },
                )
            }
        },
        None => None,
    }
}

/// The parts of the first `n` steps that have one.
pub open spec fn trace_parts(items: Seq<JsonView>, n: int) -> Seq<Seq<char>>
    decreases n,
{
    if n <= 0 {
        Seq::empty()
    } else {
        match trace_part(items[n - 1]) {
            Some(t) => trace_parts(items, n - 1).push(t),
            None => trace_parts(items, n - 1),
        }
    }
}

/// The first three steps of the trace list under `key`, joined with ` • ` and collapsed
/// to 260 characters; nothing when no step has a reason.
pub open spec fn decision_trace_summary(trace: Option<JsonView>, key: Seq<char>) -> Option<Seq<char>> {
    match trace {
        Some(t) => match as_array(field(t, key)) {
            Some(items) => {
                let n = if items.len() < 3 {
                    items.len() as int
                } else {
                    3
                };
                let parts = trace_parts(items, n);
                if parts.len() > 0 {
                    Some(collapsed_answer(join(parts, " • "@), 260))
                } else {
                    None
                }
            },
            None => None,
        },
        None => None,
    }
}

fn trace_part_exec(item: &Json) -> (r: Option<Vec<char>>)
    ensures
        match r {
            Some(t) => trace_part(item@) == Some(t@),
            None => trace_part(item@) is None,
        },
{
    let raw = match get_str(item, "reason") {
        Some(r) => r,
        None => {
            return None;
        },
    };
    let reason = trim_str(raw);
    if reason.unicode_len() == 0 {
        return None;
    }
    let strategy_raw = match get_str(item, "strategy") {
        Some(s) => s,
        None => "",
    };
    proof {
        reveal_strlit("");
        assert(""@ =~= Seq::<char>::empty());
    }
    let strategy = continuity_strategy_label(strategy_raw);
    let mut out: Vec<char> = Vec::new();
    push_str(&mut out, strategy);
    match get_u64(item, "count") {
        Some(c) => {
            if c > 0 {
                push_str(&mut out, " (");
                push_str(&mut out, u64_to_string(c).as_str());
                push_str(&mut out, ") — ");
            } else {
                push_str(&mut out, " — ");
            }
        },
        None => {
            push_str(&mut out, " — ");
        },
    }
    push_str(&mut out, reason);
    Some(out)
}

pub fn continuity_decision_trace_summary(trace: Option<&Json>, key: &str) -> (r: Option<String>)
    ensures
        match r {
            Some(t) => decision_trace_summary(
                match trace {
                    Some(t) => Some(t@),
                    None => None,
                },
                key@,
            ) == Some(t@),
            None => decision_trace_summary(
                match trace {
                    Some(t) => Some(t@),
                    None => None,
                },
                key@,
            ) is None,
        },
{
    let t = match trace {
        Some(t) => t,
        None => {
            return None;
        },
    };
    let items = match get(t, key) {
        Some(Json::Array(items)) => items,
        _ => {
            return None;
        },
    };
    proof {
        lemma_items_view(items@);
    }
    let ghost iv = items_view(items@);
    let n = if items.len() < 3 {
        items.len()
    } else {
        3
    };
    let mut parts: Vec<Vec<char>> = Vec::new();
    let mut i: usize = 0;
    while i < n
        invariant
            i <= n <= items@.len(),
            iv == items_view(items@),
            iv.len() == items@.len(),
            forall|j: int| 0 <= j < items@.len() ==> #[trigger] iv[j] == crate::json::json_view(items@[j]),
            views(parts@) == trace_parts(iv, i as int),
        decreases n - i,
    {
        assert(iv[i as int] == crate::json::json_view(items@[i as int]));
        match trace_part_exec(&items[i]) {
            Some(p) => {
                let ghost before = views(parts@);
                let ghost pv = p@;
                parts.push(p);
                assert(views(parts@) =~= before.push(pv));
            },
            None => {},
        }
        i = i + 1;
    }
    if parts.len() == 0 {
        return None;
    }
    let sep = text_vec(" • ");
    let joined = join_chars(&parts, sep.as_slice());
    let text = string_of(joined.as_slice());
    Some(collapse_answer_text(text.as_str(), 260))
}

/// Whether the client limits shown are the last observed ones rather than live ones: the
/// live meter is not bound to the current thread, or the limits text says so.
pub open spec fn limits_last_observed(guard: JsonView) -> bool {
    ||| crate::json::as_bool(field(guard, "client_live_meter_current_thread_bound"@)) == Some(false)
    ||| as_str(field(guard, "client_live_meter_thread_binding_state"@)) == Some("no_current_thread_binding"@)
    ||| match as_str(field(guard, "client_limits"@)) {
        Some(t) => has_prefix(trim_start(t), "последнее observed:"@),
        None => false,
    }
}

pub fn client_limits_surface_label(client_budget_guard: &Json) -> (r: &'static str)
    ensures
        r@ == if limits_last_observed(client_budget_guard@) {
            "Последний observed лимит клиента"@
        } else {
            "Лимит клиента сейчас"@
        },
{
    let g = client_budget_guard;
    let unbound = crate::json::get_bool(g, "client_live_meter_current_thread_bound") == Some(false);
    let no_binding = match get_str(g, "client_live_meter_thread_binding_state") {
        Some(s) => str_eq(s, "no_current_thread_binding"),
        None => false,
    };
    let observed_text = match get_str(g, "client_limits") {
        Some(t) => {
            let v = crate::text::chars_of(t);
            let (lo, _hi) = crate::text::trim_bounds(v.as_slice());
            let rest = crate::text::slice_range(v.as_slice(), lo, v.len());
            let p = crate::text::chars_of("последнее observed:");
            crate::text::starts_with(rest.as_slice(), p.as_slice())
        },
        None => false,
    };
    if unbound || no_binding || observed_text {
        "Последний observed лимит клиента"
    } else {
        "Лимит клиента сейчас"
    }
}

/// The continuity record marked with where it came from; a value that is not an object
/// is left as it is.
pub open spec fn with_source(c: JsonView, mode: Seq<char>, namespace_code: Seq<char>) -> JsonView {
    if c is Object {
        with_field(
            with_field(c, "continuity_source_mode"@, JsonView::Str(mode)),
            "continuity_source_namespace_code"@,
            JsonView::Str(namespace_code),
        )
    } else {
        c
    }
}

pub fn continuity_with_source_metadata(continuity: Json, mode: &str, source_namespace_code: &str) -> (r: Json)
    ensures
        r@ == with_source(continuity@, mode@, source_namespace_code@),
{
    if !is_object(&continuity) {
        return continuity;
    }
    let c = set_field(continuity, "continuity_source_mode", str_json(mode));
    set_field(c, "continuity_source_namespace_code", str_json(source_namespace_code))
}

/// The working-state restore inside a restore payload.
pub open spec fn restore_node_of(restore: Option<JsonView>) -> JsonView {
    match restore {
        Some(r) => field(r, "working_state_restore"@),
        None => JsonView::Null,
    }
}

/// A next step field, normalised.
pub open spec fn next_step_of(v: JsonView) -> Option<Seq<char>> {
    match as_str(field(v, "next_step"@)) {
        Some(t) => normalized_next_step(t),
        None => None,
    }
}

/// The continuity record built from runtime state: nothing imported, and the active line
/// taken from the handoff, else from the working-state restore.
pub open spec fn synthetic_continuity(
    namespace_code: Seq<char>,
    handoff: Option<JsonView>,
    restore: Option<JsonView>,
) -> JsonView {
    let node = restore_node_of(restore);
    let h = match handoff {
        Some(hs) => as_text(field(hs, "headline"@)),
        None => None,
    };
    let headline = match h {
        Some(t) => Some(t),
        None => as_text(field(node, "current_goal"@)),
    };
    let n = match handoff {
        Some(hs) => next_step_of(hs),
        None => None,
    };
    let next_step = match n {
        Some(t) => Some(t),
        None => next_step_of(node),
    };
    with_source(
        JsonView::Object(
            seq![
                ("imported_at_epoch_ms"@, JsonView::Null),
                ("documents_imported"@, JsonView::Null),
                ("rendered_transcript_files"@, JsonView::Null),
                ("session_memory_files"@, JsonView::Null),
                (
                    "bootstrap_summary"@,
                    JsonView::Object(
                        seq![
                            ("bootstrap_file"@, JsonView::Null),
                            (
                                "details"@,
                                JsonView::Object(
                                    seq![
                                        ("thread_count"@, JsonView::Null),
                                        ("latest_rendered_transcript"@, JsonView::Null),
                                    ],
                                ),
                            ),
                        ],
                    ),
                ),
                (
                    "active_workline_summary"@,
                    JsonView::Object(
                        seq![
                            ("active_workline_file"@, JsonView::Null),
                            (
                                "details"@,
                                JsonView::Object(
                                    seq![
                                        ("headline"@, opt_str_view(headline)),
                                        ("next_step"@, opt_str_view(next_step)),
                                    ],
                                ),
                            ),
                        ],
                    ),
                ),
            ],
        ),
        "working_state_fallback"@,
        namespace_code,
    )
}

fn next_step_exec(v: &Json) -> (r: Option<String>)
    ensures
        match r {
            Some(t) => next_step_of(v@) == Some(t@),
            None => next_step_of(v@) is None,
        },
{
    match get_str(v, "next_step") {
        Some(t) => normalize_next_step_value(t),
        None => None,
    }
}

fn obj2(k1: &str, v1: Json, k2: &str, v2: Json) -> (r: Json)
    ensures
        r@ == JsonView::Object(seq![(k1@, v1@), (k2@, v2@)]),
{
    let ghost a = v1@;
    let ghost c = v2@;
    let mut b = ObjectBuilder::new();
    b.push(k1, v1);
    b.push(k2, v2);
    assert(b.view_entries() =~= seq![(k1@, a), (k2@, c)]);
    b.build()
}

pub fn synthetic_continuity_from_runtime(
    namespace_code: &str,
    handoff_summary: Option<&Json>,
    restore: Option<&Json>,
) -> (r: Json)
    ensures
        r@ == synthetic_continuity(
            namespace_code@,
            match handoff_summary {
                Some(h) => Some(h@),
                None => None,
            },
            match restore {
                Some(x) => Some(x@),
                None => None,
            },
        ),
{
    let node = match restore {
        Some(r) => match get(r, "working_state_restore") {
            Some(n) => n,
            None => &Json::Null,
        },
        None => &Json::Null,
    };
    let from_handoff = match handoff_summary {
        Some(h) => get_text(h, "headline"),
        None => None,
    };
    let headline = match from_handoff {
        Some(t) => Some(t),
        None => get_text(node, "current_goal"),
    };
    let step_from_handoff = match handoff_summary {
        Some(h) => next_step_exec(h),
        None => None,
    };
    let next_step = match step_from_handoff {
        Some(t) => Some(t),
        None => next_step_exec(node),
    };
    let bootstrap = obj2(
        "bootstrap_file",
        Json::Null,
        "details",
        obj2("thread_count", Json::Null, "latest_rendered_transcript", Json::Null),
    );
    let active = obj2(
        "active_workline_file",
        Json::Null,
        "details",
        obj2("headline", opt_str_json(headline), "next_step", crate::json::opt_string_json(next_step)),
    );
    let ghost bv = bootstrap@;
    let ghost av = active@;
    let mut b = ObjectBuilder::new();
    b.push("imported_at_epoch_ms", Json::Null);
    b.push("documents_imported", Json::Null);
    b.push("rendered_transcript_files", Json::Null);
    b.push("session_memory_files", Json::Null);
    b.push("bootstrap_summary", bootstrap);
    b.push("active_workline_summary", active);
    assert(b.view_entries() =~= seq![
        ("imported_at_epoch_ms"@, JsonView::Null),
        ("documents_imported"@, JsonView::Null),
        ("rendered_transcript_files"@, JsonView::Null),
        ("session_memory_files"@, JsonView::Null),
        ("bootstrap_summary"@, bv),
        ("active_workline_summary"@, av),
    ]);
    continuity_with_source_metadata(b.build(), "working_state_fallback", namespace_code)
}

} // verus!
