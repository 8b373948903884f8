//! The probe that checks a continuity answer against what it was meant to recover: a
//! previous chat, the chat at a moment, or the project line itself.
use vstd::prelude::*;
use crate::answer::{
    answer_mentions_temporal_match, continuity_answer_expected_fragments, first_line, first_line_exec, non_blank,
    opt_view, raw_expected_fragments, string_views, temporal_markers, ChatTail,
};
use crate::direct_answer::{project_headline, project_next_step, project_next_step_exec};
use crate::json::{get_str, opt_str_json, opt_str_view, Json, JsonView, ObjectBuilder};
use crate::labels::format_optional_text_for_human;
use crate::startup_payload::{probe_view, ProbeView, StartupProbe};
use crate::text::{chars_of, contains, contains_exec};

verus! {

/// Whether some non-empty fragment occurs in `text`.
pub open spec fn any_fragment_in(fs: Seq<Seq<char>>, text: Seq<char>) -> bool {
    exists|k: int| 0 <= k < fs.len() && fs[k].len() > 0 && #[trigger] contains(text, fs[k])
}

/// Whether the answer reports a chat matched by time or order.
pub open spec fn mentions_temporal(text: Seq<char>) -> bool {
    exists|k: int| 0 <= k < 6 && contains(text, #[trigger] temporal_markers()[k])
}

/// The fragments as a JSON array of strings.
pub open spec fn fragments_view(fs: Seq<Seq<char>>) -> JsonView {
    JsonView::Array(fs.map_values(|t: Seq<char>| JsonView::Str(t)))
}

/// The line an answer gives when no chat lies that far back.
pub open spec fn no_previous_chat_line() -> Seq<char> {
    "На чём закончился прошлый чат: для такого смещения назад нет известного чата."@
}

/// The line an answer gives when no chat matches the moment.
pub open spec fn no_chat_at_time_line() -> Seq<char> {
    "Что было в чате на этот момент: для этого момента нет точного совпадения в известных чатах."@
}

/// Whether the answer names the moment asked about, when one was.
pub open spec fn names_time(answer: Seq<char>, at_time: Option<Seq<char>>) -> bool {
    match at_time {
        Some(t) => contains(answer, t),
        None => true,
    }
}

/// A probe that expects the chat tail to be recovered.
pub open spec fn recovered_probe(
    name: Seq<char>,
    tail: ChatTail,
    handoff: JsonView,
    answer: Seq<char>,
    expected_present: bool,
    scope: Seq<(Seq<char>, JsonView)>,
) -> ProbeView {
    let fs = non_blank(raw_expected_fragments(tail));
    let first = first_line(answer);
    ProbeView {
        name,
        expected: "recovered_useful"@,
        details: JsonView::Object(
            seq![
                ("expected_present"@, JsonView::Bool(expected_present)),
                (
                    "unexpected_present"@,
                    JsonView::Bool(contains(first, project_headline(handoff)) && !any_fragment_in(fs, first)),
                ),
            ] + scope + seq![("expected_fragments"@, fragments_view(fs)), ("answer"@, JsonView::Str(answer))],
        ),
    }
}

/// A probe that expects the answer to fail closed: to say that nothing matched and to
/// fall back to the project line and its next step.
pub open spec fn fail_closed_probe(
    name: Seq<char>,
    ok: bool,
    answer: Seq<char>,
    scope: Seq<(Seq<char>, JsonView)>,
) -> ProbeView {
    ProbeView {
        name,
        expected: "hit_correct_target"@,
        details: JsonView::Object(
            seq![
                ("boundary_clean"@, JsonView::Bool(ok)),
                ("fail_closed_ok"@, JsonView::Bool(ok)),
                ("unexpected_present"@, JsonView::Bool(mentions_temporal(answer))),
            ] + scope + seq![("answer"@, JsonView::Str(answer))],
        ),
    }
}

/// The probe of a continuity answer: `intent` is what was asked, `tail` the chat that
/// was found for it, `at_time` the moment asked about and `offset` how many chats back.
pub open spec fn answer_probe(
    handoff: JsonView,
    tail: Option<ChatTail>,
    intent: Seq<char>,
    at_time: Option<Seq<char>>,
    offset: nat,
    answer: Seq<char>,
) -> ProbeView {
    let headline = project_headline(handoff);
    let next = project_next_step(handoff);
    let falls_back = contains(answer, headline) && contains(answer, next);
    if intent == "previous_chat"@ {
        let scope = seq![
            ("intent"@, JsonView::Str("previous_chat"@)),
            ("offset"@, JsonView::Number(offset as int)),
        ];
        match tail {
            Some(t) => recovered_probe(
                "previous_chat_answer_recovered_useful"@,
                t,
                handoff,
                answer,
                any_fragment_in(non_blank(raw_expected_fragments(t)), answer),
                scope,
            ),
            None => fail_closed_probe(
                "previous_chat_answer_fail_closed"@,
                contains(answer, no_previous_chat_line()) && falls_back,
                answer,
                scope,
            ),
        }
    } else if intent == "chat_at_time"@ {
        let scope = seq![("intent"@, JsonView::Str("chat_at_time"@)), ("target_time"@, opt_str_view(at_time))];
        match tail {
            Some(t) => recovered_probe(
                "exact_time_answer_recovered_useful"@,
                t,
                handoff,
                answer,
                any_fragment_in(non_blank(raw_expected_fragments(t)), answer) && names_time(answer, at_time),
                scope,
            ),
            None => fail_closed_probe(
                "exact_time_answer_fail_closed"@,
                contains(answer, no_chat_at_time_line()) && falls_back && names_time(answer, at_time),
                answer,
                scope,
            ),
        }
    } else {
        ProbeView {
            name: "continuity_answer_recovered_useful"@,
            expected: "recovered_useful"@,
            details: JsonView::Object(
                seq![
                    ("expected_present"@, JsonView::Bool(falls_back)),
                    ("unexpected_present"@, JsonView::Bool(false)),
                    ("intent"@, JsonView::Str(intent)),
                    ("answer"@, JsonView::Str(answer)),
                ],
            ),
        }
    }
}

pub(crate) fn contains_str(text: &str, p: &str) -> (b: bool)
    ensures
        b == contains(text@, p@),
{
    let t = chars_of(text);
    let q = chars_of(p);
    contains_exec(t.as_slice(), q.as_slice())
}

fn any_fragment_in_exec(fs: &Vec<String>, text: &[char]) -> (b: bool)
    ensures
        b == any_fragment_in(string_views(fs@), text@),
{
    let ghost sv = string_views(fs@);
    let mut i: usize = 0;
    while i < fs.len()
        invariant
            i <= fs@.len(),
            sv == string_views(fs@),
            forall|k: int| 0 <= k < i ==> !(sv[k].len() > 0 && #[trigger] contains(text@, sv[k])),
        decreases fs@.len() - i,
    {
        let f = chars_of(fs[i].as_str());
        assert(f@ == sv[i as int]);
        if f.len() > 0 && contains_exec(text, f.as_slice()) {
            return true;
        }
        i = i + 1;
    }
    false
}

fn fragments_json(fs: &Vec<String>) -> (r: Json)
    ensures
        r@ == fragments_view(string_views(fs@)),
{
    let ghost sv = string_views(fs@);
    let mut items: Vec<Json> = Vec::new();
    let mut i: usize = 0;
    while i < fs.len()
        invariant
            i <= fs@.len(),
            sv == string_views(fs@),
            crate::json::items_view(items@) == sv.take(i as int).map_values(|t: Seq<char>| JsonView::Str(t)),
        decreases fs@.len() - i,
    {
        let item = Json::Str(fs[i].clone());
        proof {
            crate::json::lemma_items_push(items@, item);
            assert(sv.take(i + 1).map_values(|t: Seq<char>| JsonView::Str(t)) =~= sv.take(i as int).map_values(
                |t: Seq<char>| JsonView::Str(t),
            ).push(JsonView::Str(sv[i as int])));
        }
        items.push(item);
        i = i + 1;
    }
    assert(sv.take(fs@.len() as int) =~= sv);
    Json::Array(items)
}

fn recovered_probe_exec(
    name: &str,
    intent: &str,
    tail: &ChatTail,
    headline: &str,
    answer_text: &str,
    require_time: Option<&str>,
    scope_key: &str,
    scope_value: Json,
    Ghost(handoff): Ghost<JsonView>,
) -> (r: StartupProbe)
    requires
        headline@ == project_headline(handoff),
    ensures
        probe_view(r) == recovered_probe(
            name@,
            *tail,
            handoff,
            answer_text@,
            any_fragment_in(non_blank(raw_expected_fragments(*tail)), answer_text@) && names_time(
                answer_text@,
                opt_view(require_time),
            ),
            seq![("intent"@, JsonView::Str(intent@)), (scope_key@, scope_value@)],
        ),
{
    let fs = continuity_answer_expected_fragments(tail);
    let answer = chars_of(answer_text);
    let first = first_line_exec(answer.as_slice());
    let hl = chars_of(headline);
    let in_answer = any_fragment_in_exec(&fs, answer.as_slice());
    let names = match require_time {
        Some(t) => contains_str(answer_text, t),
        None => true,
    };
    let stale = contains_exec(first.as_slice(), hl.as_slice()) && !any_fragment_in_exec(&fs, first.as_slice());
    let ghost sc = seq![("intent"@, JsonView::Str(intent@)), (scope_key@, scope_value@)];
    let mut b = ObjectBuilder::new();
    b.push("expected_present", Json::Bool(in_answer && names));
    b.push("unexpected_present", Json::Bool(stale));
    b.push("intent", Json::Str(intent.to_string()));
    b.push(scope_key, scope_value);
    b.push("expected_fragments", fragments_json(&fs));
    b.push("answer", Json::Str(answer_text.to_string()));
    let ghost fsv = string_views(fs@);
    assert(b.view_entries() =~= seq![
        ("expected_present"@, JsonView::Bool(in_answer && names)),
        ("unexpected_present"@, JsonView::Bool(stale)),
    ] + sc + seq![("expected_fragments"@, fragments_view(fsv)), ("answer"@, JsonView::Str(answer_text@))]);
    StartupProbe { name: name.to_string(), expected_verdict_class: "recovered_useful".to_string(), details: b.build() }
}

fn fail_closed_probe_exec(
    name: &str,
    intent: &str,
    ok: bool,
    answer_text: &str,
    scope_key: &str,
    scope_value: Json,
) -> (r: StartupProbe)
    ensures
        probe_view(r) == fail_closed_probe(
            name@,
            ok,
            answer_text@,
            seq![("intent"@, JsonView::Str(intent@)), (scope_key@, scope_value@)],
        ),
{
    let temporal = answer_mentions_temporal_match(answer_text);
    let ghost sc = seq![("intent"@, JsonView::Str(intent@)), (scope_key@, scope_value@)];
    let mut b = ObjectBuilder::new();
    b.push("boundary_clean", Json::Bool(ok));
    b.push("fail_closed_ok", Json::Bool(ok));
    b.push("unexpected_present", Json::Bool(temporal));
    b.push("intent", Json::Str(intent.to_string()));
    b.push(scope_key, scope_value);
    b.push("answer", Json::Str(answer_text.to_string()));
    assert(b.view_entries() =~= seq![
        ("boundary_clean"@, JsonView::Bool(ok)),
        ("fail_closed_ok"@, JsonView::Bool(ok)),
        ("unexpected_present"@, JsonView::Bool(mentions_temporal(answer_text@))),
    ] + sc + seq![("answer"@, JsonView::Str(answer_text@))]);
    StartupProbe { name: name.to_string(), expected_verdict_class: "hit_correct_target".to_string(), details: b.build() }
}

/// The probe of a continuity answer, before the eval layer judges it: whether the
/// answer recovered the chat that was asked about (or the project line), or, where no
/// chat was found, whether it said so and fell back to the project line and its next
/// step.
pub fn build_continuity_answer_probe(
    handoff_summary: &Json,
    chat_tail: Option<&ChatTail>,
    intent: &str,
    at_time_rfc3339: Option<&str>,
    previous_chat_offset: usize,
    answer_text: &str,
) -> (r: StartupProbe)
    ensures
        probe_view(r) == answer_probe(
            handoff_summary@,
            match chat_tail {
                Some(t) => Some(*t),
                None => None,
            },
            intent@,
            opt_view(at_time_rfc3339),
            previous_chat_offset as nat,
            answer_text@,
        ),
{
    let headline = format_optional_text_for_human(get_str(handoff_summary, "headline"));
    let next = project_next_step_exec(handoff_summary);
    let ghost h = handoff_summary@;
    assert(headline@ == project_headline(h));
    let falls_back = contains_str(answer_text, headline.as_str()) && contains_str(answer_text, next.as_str());
    if crate::text::str_eq(intent, "previous_chat") {
        proof {
            reveal_strlit("previous_chat");
        }
        match chat_tail {
            Some(t) => recovered_probe_exec(
                "previous_chat_answer_recovered_useful",
                "previous_chat",
                t,
                headline.as_str(),
                answer_text,
                None,
                "offset",
                Json::Number(previous_chat_offset as i128),
                Ghost(h),
            ),
            None => {
                let ok = contains_str(answer_text, "На чём закончился прошлый чат: для такого смещения назад нет известного чата.")
                    && falls_back;
                fail_closed_probe_exec(
                    "previous_chat_answer_fail_closed",
                    "previous_chat",
                    ok,
                    answer_text,
                    "offset",
                    Json::Number(previous_chat_offset as i128),
                )
            },
        }
    } else if crate::text::str_eq(intent, "chat_at_time") {
        proof {
            reveal_strlit("chat_at_time");
        }
        match chat_tail {
            Some(t) => recovered_probe_exec(
                "exact_time_answer_recovered_useful",
                "chat_at_time",
                t,
                headline.as_str(),
                answer_text,
                at_time_rfc3339,
                "target_time",
                opt_str_json(at_time_rfc3339),
                Ghost(h),
            ),
            None => {
                let names = match at_time_rfc3339 {
                    Some(t) => contains_str(answer_text, t),
                    None => true,
                };
                let ok = contains_str(
                    answer_text,
                    "Что было в чате на этот момент: для этого момента нет точного совпадения в известных чатах.",
                ) && falls_back && names;
                fail_closed_probe_exec(
                    "exact_time_answer_fail_closed",
                    "chat_at_time",
                    ok,
                    answer_text,
                    "target_time",
                    opt_str_json(at_time_rfc3339),
                )
            },
        }
    } else {
        let mut b = ObjectBuilder::new();
        b.push("expected_present", Json::Bool(falls_back));
        b.push("unexpected_present", Json::Bool(false));
        b.push("intent", Json::Str(intent.to_string()));
        b.push("answer", Json::Str(answer_text.to_string()));
        assert(b.view_entries() =~= seq![
            ("expected_present"@, JsonView::Bool(falls_back)),
            ("unexpected_present"@, JsonView::Bool(false)),
            ("intent"@, JsonView::Str(intent@)),
            ("answer"@, JsonView::Str(answer_text@)),
        ]);
        StartupProbe {
            name: "continuity_answer_recovered_useful".to_string(),
            expected_verdict_class: "recovered_useful".to_string(),
            details: b.build(),
        }
    }
}

} // verus!
