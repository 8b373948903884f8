//! Normalised projections of restore payloads: blank or whitespace-only text becomes
//! `null` (or the human placeholder), missing nodes stay missing, and everything else is
//! carried over unchanged.
use vstd::prelude::*;
use crate::answer::{normalize_next_step_value, normalized_next_step};
use crate::json::{
    as_str, as_text, field, get, get_cloned, get_str, get_text, is_object, opt_str_json,
    opt_str_view, set_field, clone_json, with_field, Json, JsonView, ObjectBuilder,
};
use crate::labels::{
    format_optional_text_for_human, is_meaningful_restore_value, meaningful, no_data, opt_text,
    optional_non_empty_text, text_or,
};
use crate::text::{push_str, string_of};

verus! {

/// An optional text, trimmed, as a JSON string, or `null` when blank or missing.
pub open spec fn text_json(o: Option<Seq<char>>) -> JsonView {
    opt_str_view(o)
}

/// The text of an optional string, empty when missing.
pub open spec fn text_or_empty(o: Option<&str>) -> Seq<char> {
    match o {
        Some(t) => t@,
        None => Seq::empty(),
    }
}

/// The handoff summary with the placeholder for a missing headline or next step.
pub open spec fn handoff_summary_view(headline: Option<&str>, next_step: Option<&str>) -> JsonView {
    JsonView::Object(
        seq![
            ("headline"@, JsonView::Str(text_or(opt_text(headline), no_data()))),
            (
                "next_step"@,
                JsonView::Str(
                    text_or(
                        normalized_next_step(text_or_empty(next_step)),
                        no_data(),
                    ),
                ),
            ),
        ],
    )
}

/// `{headline, next_step}` of a handoff, each shown as the placeholder when missing;
/// the next step is normalised first.
pub fn normalized_handoff_summary_json(headline: Option<&str>, next_step: Option<&str>) -> (r: Json)
    ensures
        r@ == handoff_summary_view(headline, next_step),
{
    let h = format_optional_text_for_human(headline);
    let raw = match next_step {
        Some(t) => t,
        None => "",
    };
    proof {
        reveal_strlit("");
        assert(raw@ =~= text_or_empty(next_step));
    }
    let n = match normalize_next_step_value(raw) {
        Some(v) => v,
        None => "ещё нет данных".to_string(),
    };
    let ghost hv = h@;
    let ghost nv = n@;
    let mut b = ObjectBuilder::new();
    b.push("headline", Json::Str(h));
    b.push("next_step", Json::Str(n));
    assert(b.view_entries() =~= seq![
        ("headline"@, JsonView::Str(hv)),
        ("next_step"@, JsonView::Str(nv)),
    ]);
    b.build()
}

/// `{summary_headline, summary_next_step}`, each trimmed or `null`.
pub fn normalized_thread_summary_snapshot_fields(
    summary_headline: Option<&str>,
    summary_next_step: Option<&str>,
) -> (r: Json)
    ensures
        r@ == JsonView::Object(
            seq![
                ("summary_headline"@, text_json(opt_text(summary_headline))),
                ("summary_next_step"@, text_json(opt_text(summary_next_step))),
            ],
        ),
{
    let a = normalized_optional_text_json(summary_headline);
    let c = normalized_optional_text_json(summary_next_step);
    let ghost av = a@;
    let ghost cv = c@;
    let mut b = ObjectBuilder::new();
    b.push("summary_headline", a);
    b.push("summary_next_step", c);
    assert(b.view_entries() =~= seq![("summary_headline"@, av), ("summary_next_step"@, cv)]);
    b.build()
}

/// An optional text, trimmed, as a JSON string, or `null` when blank or missing.
pub fn normalized_optional_text_json(value: Option<&str>) -> (r: Json)
    ensures
        r@ == text_json(opt_text(value)),
{
    opt_str_json(optional_non_empty_text(value))
}

/// `node[key] = <node[key] as trimmed text or null>` on an object node.
pub open spec fn normalize_text_field(node: JsonView, key: Seq<char>) -> JsonView {
    with_field(node, key, text_json(as_text(field(node, key))))
}

/// The working-state restore with its goal, next step and the lineage's authoritative
/// event id normalised; other fields, and any node that is not an object, unchanged.
pub open spec fn working_state_projection(node: JsonView) -> JsonView {
    if node is Object {
        let n1 = normalize_text_field(normalize_text_field(node, "current_goal"@), "next_step"@);
        let lineage = field(node, "state_lineage"@);
        if lineage is Object {
            with_field(n1, "state_lineage"@, normalize_text_field(lineage, "authoritative_event_id"@))
        } else {
            n1
        }
    } else {
        node
    }
}

fn normalize_text_field_exec(node: Json, key: &str) -> (r: Json)
    requires
        node@ is Object,
    ensures
        r@ == normalize_text_field(node@, key@),
        r@ is Object,
{
    let v = opt_str_json(get_text(&node, key));
    proof {
        crate::json::lemma_with_field_reads(node@, key@, v@, key@);
    }
    set_field(node, key, v)
}

/// The working-state restore projection of an optional node (`null` when missing).
pub fn normalized_working_state_restore_projection(value: Option<&Json>) -> (r: Json)
    ensures
        r@ == match value {
            Some(node) => working_state_projection(node@),
            None => JsonView::Null,
        },
{
    let node = match value {
        Some(n) => n,
        None => {
            return Json::Null;
        },
    };
    if !is_object(node) {
        return clone_json(node);
    }
    let n0 = clone_json(node);
    let n1 = normalize_text_field_exec(n0, "current_goal");
    let n2 = normalize_text_field_exec(n1, "next_step");
    match get(node, "state_lineage") {
        Some(lineage) => {
            if is_object(lineage) {
                let l = normalize_text_field_exec(clone_json(lineage), "authoritative_event_id");
                set_field(n2, "state_lineage", l)
            } else {
                n2
            }
        },
        None => n2,
    }
}

/// The workspace restore pack with its summary normalised; any node that is not an
/// object unchanged.
pub open spec fn workspace_pack_projection(node: JsonView) -> JsonView {
    if node is Object {
        normalize_text_field(node, "summary"@)
    } else {
        node
    }
}

/// The workspace restore pack projection of an optional node (`null` when missing).
pub fn normalized_workspace_restore_pack_projection(value: Option<&Json>) -> (r: Json)
    ensures
        r@ == match value {
            Some(node) => workspace_pack_projection(node@),
            None => JsonView::Null,
        },
{
    match value {
        Some(node) => {
            if is_object(node) {
                normalize_text_field_exec(clone_json(node), "summary")
            } else {
                clone_json(node)
            }
        },
        None => Json::Null,
    }
}

/// The restore confidence of an optional working-state restore (`null` when missing).
pub fn normalized_restore_confidence_value(working_state_restore: Option<&Json>) -> (r: Json)
    ensures
        r@ == match working_state_restore {
            Some(node) => field(node@, "restore_confidence"@),
            None => JsonView::Null,
        },
{
    match working_state_restore {
        Some(node) => get_cloned(node, "restore_confidence"),
        None => Json::Null,
    }
}

/// The number of characters of an optional text, trimmed, or `null` when blank or missing.
pub fn normalized_optional_char_count_json(value: Option<&str>) -> (r: Json)
    ensures
        r@ == match opt_text(value) {
            Some(t) => JsonView::Number(t.len() as int),
            None => JsonView::Null,
        },
{
    match optional_non_empty_text(value) {
        Some(t) => Json::Number(t.unicode_len() as i128),
        None => Json::Null,
    }
}

/// The message followed by the write status's warning, when it has one.
pub open spec fn message_with_warning(base: Seq<char>, write_status: JsonView) -> Seq<char> {
    match as_text(field(write_status, "warning"@)) {
        Some(w) => base + " "@ + w,
        None => base,
    }
}

/// The message with the working-state write warning appended, when there is one.
pub fn append_working_state_warning_to_message(base_message: &str, write_status: &Json) -> (r: String)
    ensures
        r@ == message_with_warning(base_message@, write_status@),
{
    match get_text(write_status, "warning") {
        Some(warning) => {
            let mut out: Vec<char> = Vec::new();
            push_str(&mut out, base_message);
            push_str(&mut out, " ");
            push_str(&mut out, warning);
            string_of(out.as_slice())
        },
        None => base_message.to_string(),
    }
}

/// A text field, as it stands, when it carries information.
pub open spec fn meaningful_field(node: JsonView, key: Seq<char>) -> Option<Seq<char>> {
    match as_str(field(node, key)) {
        Some(t) => if meaningful(t) {
            Some(t)
        } else {
            None
        },
        None => None,
    }
}

/// The recommended headline: the restore's goal, else the handoff's headline, else the
/// placeholder.
pub open spec fn recommended_headline(restore: Option<JsonView>, handoff: JsonView) -> Seq<char> {
    let from_restore = match restore {
        Some(node) => meaningful_field(node, "current_goal"@),
        None => None,
    };
    match from_restore {
        Some(t) => t,
        None => text_or(meaningful_field(handoff, "headline"@), no_data()),
    }
}

fn meaningful_field_exec<'a>(node: &'a Json, key: &str) -> (r: Option<&'a str>)
    ensures
        match r {
            Some(t) => meaningful_field(node@, key@) == Some(t@),
            None => meaningful_field(node@, key@) is None,
        },
{
    match get_str(node, key) {
        Some(t) => if is_meaningful_restore_value(t) {
            Some(t)
        } else {
            None
        },
        None => None,
    }
}

pub fn recommended_workline_headline_from_restore_or_handoff(
    restore_node: Option<&Json>,
    handoff_summary: &Json,
) -> (r: String)
    ensures
        r@ == recommended_headline(
            match restore_node {
                Some(n) => Some(n@),
                None => None,
            },
            handoff_summary@,
        ),
{
    let from_restore = match restore_node {
        Some(node) => meaningful_field_exec(node, "current_goal"),
        None => None,
    };
    match from_restore {
        Some(t) => t.to_string(),
        None => match meaningful_field_exec(handoff_summary, "headline") {
            Some(t) => t.to_string(),
            None => "ещё нет данных".to_string(),
        },
    }
}

/// A next-step field, normalised, when the result carries information.
pub open spec fn meaningful_next_step(node: JsonView, key: Seq<char>) -> Option<Seq<char>> {
    match as_str(field(node, key)) {
        Some(t) => match normalized_next_step(t) {
            Some(n) => if meaningful(n) {
                Some(n)
            } else {
                None
            },
            None => None,
        },
        None => None,
    }
}

/// The recommended next step: the restore's, else the handoff's, else the placeholder.
pub open spec fn recommended_next_step(restore: Option<JsonView>, handoff: JsonView) -> Seq<char> {
    let from_restore = match restore {
        Some(node) => meaningful_next_step(node, "next_step"@),
        None => None,
    };
    match from_restore {
        Some(t) => t,
        None => text_or(meaningful_next_step(handoff, "next_step"@), no_data()),
    }
}

fn meaningful_next_step_exec(node: &Json, key: &str) -> (r: Option<String>)
    ensures
        match r {
            Some(t) => meaningful_next_step(node@, key@) == Some(t@),
            None => meaningful_next_step(node@, key@) is None,
        },
{
    match get_str(node, key) {
        Some(t) => match normalize_next_step_value(t) {
            Some(n) => if is_meaningful_restore_value(n.as_str()) {
                Some(n)
            } else {
                None
            },
            None => None,
        },
        None => None,
    }
}

pub fn recommended_workline_next_step_from_restore_or_handoff(
    restore_node: Option<&Json>,
    handoff_summary: &Json,
) -> (r: String)
    ensures
        r@ == recommended_next_step(
            match restore_node {
                Some(n) => Some(n@),
                None => None,
            },
            handoff_summary@,
        ),
{
    let from_restore = match restore_node {
        Some(node) => meaningful_next_step_exec(node, "next_step"),
        None => None,
    };
    match from_restore {
        Some(t) => t,
        None => match meaningful_next_step_exec(handoff_summary, "next_step") {
            Some(t) => t,
            None => "ещё нет данных".to_string(),
        },
    }
}

/// The project and namespace codes of a runtime summary, trimmed, each repeated as its
/// display name.
pub fn compact_chat_runtime_scope_fields(summary: &Json) -> (r: (
    Option<String>,
    Option<String>,
    Option<String>,
    Option<String>,
))
    ensures
        match r.0 {
            Some(t) => as_text(field(summary@, "project_code"@)) == Some(t@),
            None => as_text(field(summary@, "project_code"@)) is None,
        },
        match r.1 {
            Some(t) => as_text(field(summary@, "namespace_code"@)) == Some(t@),
            None => as_text(field(summary@, "namespace_code"@)) is None,
        },
        match (r.0, r.2) {
            (Some(a), Some(b)) => a@ == b@,
            (None, None) => true,
            _ => false,
        },
        match (r.1, r.3) {
            (Some(a), Some(b)) => a@ == b@,
            (None, None) => true,
            _ => false,
        },
{
    let project = match get_text(summary, "project_code") {
        Some(t) => Some(t.to_string()),
        None => None,
    };
    let namespace = match get_text(summary, "namespace_code") {
        Some(t) => Some(t.to_string()),
        None => None,
    };
    let project_display = match &project {
        Some(t) => Some(t.clone()),
        None => None,
    };
    let namespace_display = match &namespace {
        Some(t) => Some(t.clone()),
        None => None,
    };
    (project, namespace, project_display, namespace_display)
}

} // verus!
