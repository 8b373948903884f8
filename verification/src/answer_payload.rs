//! The JSON payload of a continuity answer, and of the answer that the client-budget
//! guard blocked.
use vstd::prelude::*;
use crate::answer::{opt_string, opt_view, ChatTail, ThreadTimeSliceSummary};
use crate::answer_probe::{answer_probe, build_continuity_answer_probe, mentions_temporal};
use crate::chat_start::{namespace_json, namespace_view, project_json, project_view, NamespaceRecord, ProjectRecord};
use crate::direct_answer::{opt_json, opt_tail};
use crate::json::{
    clone_json, field, get, get_str, opt_str_json, opt_str_view, opt_string_json, Json, JsonView, ObjectBuilder,
};
use crate::runtime_summaries::{continuity_decision_trace_summary, decision_trace_summary};
use crate::startup_payload::{evaluated_as, handoff_view, probe_view, ProbeView, StartupProbe};
use crate::target_update::raw_text;
use crate::text::{non_empty_trimmed, trim, trim_str};

verus! {

/// The view of an optional owned JSON value.
pub open spec fn opt_json_owned(o: Option<Json>) -> Option<JsonView> {
    match o {
        Some(j) => Some(j@),
        None => None,
    }
}

/// The trimmed text of an optional string, when it is not blank.
pub open spec fn opt_trimmed(o: Option<String>) -> Option<Seq<char>> {
    match o {
        Some(s) => non_empty_trimmed(s@),
        None => None,
    }
}

/// The time slice a chat was matched in.
pub open spec fn slice_view(slice: ThreadTimeSliceSummary) -> JsonView {
    JsonView::Object(
        seq![
            ("started_at"@, JsonView::Str(slice.started_at@)),
            ("ended_at"@, JsonView::Str(slice.ended_at@)),
            ("summary_headline"@, opt_str_view(non_empty_trimmed(slice.summary_headline@))),
            ("summary_next_step"@, opt_str_view(non_empty_trimmed(slice.summary_next_step@))),
            ("user_anchor"@, JsonView::Str(slice.user_anchor@)),
            ("assistant_anchor"@, JsonView::Str(slice.assistant_anchor@)),
        ],
    )
}

/// What the chat lookup found.
pub open spec fn chat_lookup_view(tail: Option<ChatTail>) -> JsonView {
    match tail {
        Some(t) => JsonView::Object(
            seq![
                ("found"@, JsonView::Bool(true)),
                ("thread_id"@, JsonView::Str(t.thread_id@)),
                ("title"@, JsonView::Str(t.title@)),
                ("summary_headline"@, opt_str_view(opt_trimmed(t.summary_headline))),
                ("summary_next_step"@, opt_str_view(opt_trimmed(t.summary_next_step))),
                ("messages_count"@, JsonView::Number(t.messages@.len() as int)),
                (
                    "selected_time_slice"@,
                    match t.selected_time_slice {
                        Some(s) => slice_view(s),
                        None => JsonView::Null,
                    },
                ),
            ],
        ),
        None => JsonView::Object(
            seq![
                ("found"@, JsonView::Bool(false)),
                ("thread_id"@, JsonView::Null),
                ("title"@, JsonView::Null),
                ("summary_headline"@, JsonView::Null),
                ("summary_next_step"@, JsonView::Null),
                ("messages_count"@, JsonView::Null),
                ("selected_time_slice"@, JsonView::Null),
            ],
        ),
    }
}

/// The reasons of the restore's latest decision trace under `key`.
pub open spec fn restore_reasons(restore: Option<JsonView>, key: Seq<char>) -> Option<Seq<char>> {
    match restore {
        Some(r) => decision_trace_summary(Some(field(field(r, "working_state_restore"@), "latest_decision_trace"@)), key),
        None => None,
    }
}

/// What was asked: the intent, the question, the chat reference, the moment, how many
/// messages to show and whether to show them, and how many chats back.
pub struct AnswerRequestView {
    pub intent: Seq<char>,
    pub question: Option<Seq<char>>,
    pub chat_reference: Option<Seq<char>>,
    pub at_time: Option<Seq<char>>,
    pub messages_count: nat,
    pub include_chat_messages: bool,
    pub previous_chat_offset: nat,
}

pub open spec fn request_view(
    intent: &str,
    question: Option<&str>,
    chat_reference: Option<&str>,
    at_time_rfc3339: Option<&str>,
    messages_count: usize,
    include_chat_messages: bool,
    previous_chat_offset: usize,
) -> AnswerRequestView {
    AnswerRequestView {
        intent: intent@,
        question: opt_view(question),
        chat_reference: opt_view(chat_reference),
        at_time: opt_view(at_time_rfc3339),
        messages_count: messages_count as nat,
        include_chat_messages,
        previous_chat_offset: previous_chat_offset as nat,
    }
}

/// The entries that every continuity answer payload opens with.
pub open spec fn answer_head(
    project: ProjectRecord,
    namespace: NamespaceRecord,
    handoff: JsonView,
    restore: Option<JsonView>,
    request: AnswerRequestView,
) -> Seq<(Seq<char>, JsonView)> {
    seq![
        ("project"@, project_view(project)),
        ("namespace"@, namespace_view(namespace)),
        ("question"@, opt_str_view(request.question)),
        ("intent"@, JsonView::Str(request.intent)),
        ("chat_reference"@, opt_str_view(request.chat_reference)),
        ("at_time_rfc3339"@, opt_str_view(request.at_time)),
        ("messages_count"@, JsonView::Number(request.messages_count as int)),
        ("include_chat_messages"@, JsonView::Bool(request.include_chat_messages)),
        ("previous_chat_offset"@, JsonView::Number(request.previous_chat_offset as int)),
        ("handoff_summary"@, handoff_view(handoff)),
        ("restore_present"@, JsonView::Bool(restore is Some)),
        ("included_reasons_summary"@, opt_str_view(restore_reasons(restore, "included"@))),
        ("excluded_reasons_summary"@, opt_str_view(restore_reasons(restore, "not_included"@))),
    ]
}

/// The probe of an answer to `request`.
pub open spec fn request_probe(
    handoff: JsonView,
    tail: Option<ChatTail>,
    request: AnswerRequestView,
    answer: Seq<char>,
) -> ProbeView {
    answer_probe(handoff, tail, request.intent, request.at_time, request.previous_chat_offset, answer)
}

/// The payload of a continuity answer; `eval` is the judged probe of the answer.
pub open spec fn answer_payload_view(
    project: ProjectRecord,
    namespace: NamespaceRecord,
    handoff: JsonView,
    restore: Option<JsonView>,
    tail: Option<ChatTail>,
    request: AnswerRequestView,
    answer: Seq<char>,
    eval: JsonView,
    retrieval_science: JsonView,
    degradation_policy: JsonView,
) -> JsonView {
    JsonView::Object(
        seq![
            (
                "continuity_answer"@,
                JsonView::Object(
                    answer_head(project, namespace, handoff, restore, request) + seq![
                        ("chat_lookup"@, chat_lookup_view(tail)),
                        ("answer_text"@, JsonView::Str(answer)),
                        ("canonical_eval"@, eval),
                    ],
                ),
            ),
            ("retrieval_science"@, retrieval_science),
            ("degradation_policy"@, degradation_policy),
        ],
    )
}

/// The reply text that the guard's blocking contract expects, or `default_template`
/// when the contract names none.
pub open spec fn expected_blocking_reply(guard: JsonView, default_template: Seq<char>) -> Seq<char> {
    match raw_text(field(field(field(guard, "reply_execution_gate"@), "blocking_reply_contract"@), "template"@)) {
        Some(t) => t,
        None => default_template,
    }
}

/// The reply that a blocked answer gives: the guard's blocking template, or
/// `default_template` where the contract names none.
pub fn blocked_answer_reply_text(guard: &Json, default_template: &str) -> (r: String)
    ensures
        r@ == expected_blocking_reply(guard@, default_template@),
{
    let contract = field_ref(field_ref(guard, "reply_execution_gate"), "blocking_reply_contract");
    match get_str(contract, "template") {
        Some(t) => {
            if trim_str(t).unicode_len() > 0 {
                t.to_string()
            } else {
                default_template.to_string()
            }
        },
        None => default_template.to_string(),
    }
}

/// The probe of an answer that the client-budget guard blocked: it holds when the
/// answer is exactly the expected blocking reply.
pub open spec fn blocked_probe(
    guard: JsonView,
    default_template: Seq<char>,
    intent: Seq<char>,
    source_kind: Seq<char>,
    answer: Seq<char>,
) -> ProbeView {
    let gate = field(guard, "reply_execution_gate"@);
    let ok = trim(answer) == expected_blocking_reply(guard, default_template);
    ProbeView {
        name: "continuity_answer_client_budget_guard_blocked"@,
        expected: "hit_correct_target"@,
        details: JsonView::Object(
            seq![
                ("boundary_clean"@, JsonView::Bool(ok)),
                ("fail_closed_ok"@, JsonView::Bool(ok)),
                ("unexpected_present"@, JsonView::Bool(mentions_temporal(answer))),
                ("intent"@, JsonView::Str(intent)),
                ("source_kind"@, JsonView::Str(source_kind)),
                ("must_rotate_before_reply"@, field(gate, "must_rotate_before_reply"@)),
                ("response_kind"@, field(field(gate, "blocking_reply_contract"@), "response_kind"@)),
                ("answer"@, JsonView::Str(answer)),
            ],
        ),
    }
}

/// The payload of an answer that the client-budget guard blocked.
pub open spec fn blocked_payload_view(
    project: ProjectRecord,
    namespace: NamespaceRecord,
    handoff: JsonView,
    restore: Option<JsonView>,
    request: AnswerRequestView,
    answer: Seq<char>,
    guard: JsonView,
    eval: JsonView,
    retrieval_science: JsonView,
    degradation_policy: JsonView,
) -> JsonView {
    JsonView::Object(
        seq![
            (
                "continuity_answer"@,
                JsonView::Object(
                    answer_head(project, namespace, handoff, restore, request) + seq![
                        ("chat_lookup"@, chat_lookup_view(None)),
                        ("blocked_by_client_budget_guard"@, JsonView::Bool(true)),
                        ("client_budget_guard"@, guard),
                        (
                            "blocking_reply_contract"@,
                            field(field(guard, "reply_execution_gate"@), "blocking_reply_contract"@),
                        ),
                        ("answer_text"@, JsonView::Str(answer)),
                        ("canonical_eval"@, eval),
                    ],
                ),
            ),
            ("retrieval_science"@, retrieval_science),
            ("degradation_policy"@, degradation_policy),
        ],
    )
}

fn field_ref<'a>(v: &'a Json, key: &str) -> (r: &'a Json)
    ensures
        r@ == field(v@, key@),
{
    match get(v, key) {
        Some(x) => x,
        None => &Json::Null,
    }
}

pub(crate) fn opt_string_ref(o: &Option<String>) -> (r: Option<&str>)
    ensures
        opt_view(r) == opt_string(*o),
{
    match o {
        Some(s) => Some(s.as_str()),
        None => None,
    }
}

fn trimmed_json(o: Option<&str>) -> (r: Json)
    ensures
        r@ == opt_str_view(
            match o {
                Some(s) => non_empty_trimmed(s@),
                None => None,
            },
        ),
{
    match o {
        Some(s) => {
            let t = trim_str(s);
            if t.unicode_len() > 0 {
                Json::Str(t.to_string())
            } else {
                Json::Null
            }
        },
        None => Json::Null,
    }
}

fn slice_json(slice: &ThreadTimeSliceSummary) -> (r: Json)
    ensures
        r@ == slice_view(*slice),
{
    let mut b = ObjectBuilder::new();
    b.push("started_at", Json::Str(slice.started_at.clone()));
    b.push("ended_at", Json::Str(slice.ended_at.clone()));
    b.push("summary_headline", trimmed_json(Some(slice.summary_headline.as_str())));
    b.push("summary_next_step", trimmed_json(Some(slice.summary_next_step.as_str())));
    b.push("user_anchor", Json::Str(slice.user_anchor.clone()));
    b.push("assistant_anchor", Json::Str(slice.assistant_anchor.clone()));
    assert(b.view_entries() =~= slice_view(*slice)->Object_0);
    b.build()
}

fn chat_lookup_json(tail: Option<&ChatTail>) -> (r: Json)
    ensures
        r@ == chat_lookup_view(opt_tail(tail)),
{
    let mut b = ObjectBuilder::new();
    match tail {
        Some(t) => {
            b.push("found", Json::Bool(true));
            b.push("thread_id", Json::Str(t.thread_id.clone()));
            b.push("title", Json::Str(t.title.clone()));
            b.push("summary_headline", trimmed_json(opt_string_ref(&t.summary_headline)));
            b.push("summary_next_step", trimmed_json(opt_string_ref(&t.summary_next_step)));
            b.push("messages_count", Json::Number(t.messages.len() as i128));
            let slice = match &t.selected_time_slice {
                Some(s) => slice_json(s),
                None => Json::Null,
            };
            b.push("selected_time_slice", slice);
        },
        None => {
            b.push("found", Json::Bool(false));
            b.push("thread_id", Json::Null);
            b.push("title", Json::Null);
            b.push("summary_headline", Json::Null);
            b.push("summary_next_step", Json::Null);
            b.push("messages_count", Json::Null);
            b.push("selected_time_slice", Json::Null);
        },
    }
    assert(b.view_entries() =~= chat_lookup_view(opt_tail(tail))->Object_0);
    b.build()
}

fn reasons_json(restore: Option<&Json>, key: &str) -> (r: Json)
    ensures
        r@ == opt_str_view(restore_reasons(opt_json(restore), key@)),
{
    match restore {
        Some(r) => {
            let trace = field_ref(field_ref(r, "working_state_restore"), "latest_decision_trace");
            opt_string_json(continuity_decision_trace_summary(Some(trace), key))
        },
        None => Json::Null,
    }
}

fn answer_head_builder(
    project: &ProjectRecord,
    namespace: &NamespaceRecord,
    handoff_summary: &Json,
    restore: Option<&Json>,
    intent: &str,
    question: Option<&str>,
    chat_reference: Option<&str>,
    at_time_rfc3339: Option<&str>,
    messages_count: usize,
    include_chat_messages: bool,
    previous_chat_offset: usize,
) -> (b: ObjectBuilder)
    ensures
        b.view_entries() == answer_head(
            *project,
            *namespace,
            handoff_summary@,
            opt_json(restore),
            request_view(
                intent,
                question,
                chat_reference,
                at_time_rfc3339,
                messages_count,
                include_chat_messages,
                previous_chat_offset,
            ),
        ),
{
    let raw_headline = get_str(handoff_summary, "headline");
    let raw_next = get_str(handoff_summary, "next_step");
    let handoff = crate::projections::normalized_handoff_summary_json(raw_headline, raw_next);
    proof {
        assert(crate::labels::opt_text(raw_headline) == crate::json::as_text(field(handoff_summary@, "headline"@)));
        assert(crate::projections::text_or_empty(raw_next) =~= crate::direct_answer::str_or_empty(
            field(handoff_summary@, "next_step"@),
        ));
        assert(handoff@ == handoff_view(handoff_summary@));
    }
    let mut b = ObjectBuilder::new();
    b.push("project", project_json(project));
    b.push("namespace", namespace_json(namespace));
    b.push("question", opt_str_json(question));
    b.push("intent", Json::Str(intent.to_string()));
    b.push("chat_reference", opt_str_json(chat_reference));
    b.push("at_time_rfc3339", opt_str_json(at_time_rfc3339));
    b.push("messages_count", Json::Number(messages_count as i128));
    b.push("include_chat_messages", Json::Bool(include_chat_messages));
    b.push("previous_chat_offset", Json::Number(previous_chat_offset as i128));
    b.push("handoff_summary", handoff);
    b.push("restore_present", Json::Bool(restore.is_some()));
    b.push("included_reasons_summary", reasons_json(restore, "included"));
    b.push("excluded_reasons_summary", reasons_json(restore, "not_included"));
    assert(b.view_entries() =~= answer_head(
        *project,
        *namespace,
        handoff_summary@,
        opt_json(restore),
        request_view(
            intent,
            question,
            chat_reference,
            at_time_rfc3339,
            messages_count,
            include_chat_messages,
            previous_chat_offset,
        ),
    ));
    b
}

/// The payload of a continuity answer. `canonical_eval` is the eval layer's rule that
/// judges the answer's probe; `retrieval_science` and `degradation_policy` are the suite
/// metadata and degradation policy it reports under.
pub fn build_continuity_answer_payload<E: Fn(&Vec<StartupProbe>) -> Json>(
    project: &ProjectRecord,
    namespace: &NamespaceRecord,
    handoff_summary: &Json,
    restore: Option<&Json>,
    chat_tail: Option<&ChatTail>,
    intent: &str,
    question: Option<&str>,
    chat_reference: Option<&str>,
    at_time_rfc3339: Option<&str>,
    messages_count: usize,
    include_chat_messages: bool,
    previous_chat_offset: usize,
    answer_text: &str,
    canonical_eval: &E,
    retrieval_science: Json,
    degradation_policy: Json,
) -> (r: Json)
    requires
        forall|ps: &Vec<StartupProbe>| #[trigger] canonical_eval.requires((ps,)),
    ensures
        exists|eval: JsonView|
            #[trigger] evaluated_as(
                *canonical_eval,
                seq![
                    request_probe(
                        handoff_summary@,
                        opt_tail(chat_tail),
                        request_view(
                intent,
                question,
                chat_reference,
                at_time_rfc3339,
                messages_count,
                include_chat_messages,
                previous_chat_offset,
            ),
                        answer_text@,
                    ),
                ],
                eval,
            ) && r@ == answer_payload_view(
                *project,
                *namespace,
                handoff_summary@,
                opt_json(restore),
                opt_tail(chat_tail),
                request_view(
                intent,
                question,
                chat_reference,
                at_time_rfc3339,
                messages_count,
                include_chat_messages,
                previous_chat_offset,
            ),
                answer_text@,
                eval,
                retrieval_science@,
                degradation_policy@,
            ),
{
    let probe = build_continuity_answer_probe(
        handoff_summary,
        chat_tail,
        intent,
        at_time_rfc3339,
        previous_chat_offset,
        answer_text,
    );
    let ghost pv = probe_view(probe);
    let mut probes: Vec<StartupProbe> = Vec::new();
    probes.push(probe);
    assert(crate::startup_payload::probes_view(probes@) =~= seq![pv]);
    let eval = canonical_eval(&probes);
    assert(canonical_eval.ensures((&probes,), eval));
    let ghost ev = eval@;
    let ghost rq = request_view(
            intent,
            question,
            chat_reference,
            at_time_rfc3339,
            messages_count,
            include_chat_messages,
            previous_chat_offset,
        );
    assert(pv == request_probe(handoff_summary@, opt_tail(chat_tail), rq, answer_text@));
    assert(evaluated_as(*canonical_eval, seq![request_probe(handoff_summary@, opt_tail(chat_tail), rq, answer_text@)], ev));
    let mut b = answer_head_builder(
        project,
        namespace,
        handoff_summary,
        restore,
        intent,
        question,
        chat_reference,
        at_time_rfc3339,
        messages_count,
        include_chat_messages,
        previous_chat_offset,
    );
    let ghost head = b.view_entries();
    b.push("chat_lookup", chat_lookup_json(chat_tail));
    b.push("answer_text", Json::Str(answer_text.to_string()));
    b.push("canonical_eval", eval);
    assert(b.view_entries() =~= head + seq![
        ("chat_lookup"@, chat_lookup_view(opt_tail(chat_tail))),
        ("answer_text"@, JsonView::Str(answer_text@)),
        ("canonical_eval"@, ev),
    ]);
    let inner = b.build();
    let ghost iv = inner@;
    let ghost rs = retrieval_science@;
    let ghost dp = degradation_policy@;
    let mut outer = ObjectBuilder::new();
    outer.push("continuity_answer", inner);
    outer.push("retrieval_science", retrieval_science);
    outer.push("degradation_policy", degradation_policy);
    assert(outer.view_entries() =~= seq![
        ("continuity_answer"@, iv),
        ("retrieval_science"@, rs),
        ("degradation_policy"@, dp),
    ]);
    outer.build()
}

fn blocked_probe_exec(guard: &Json, default_template: &str, intent: &str, source_kind: &str, answer_text: &str) -> (r:
    StartupProbe)
    ensures
        probe_view(r) == blocked_probe(guard@, default_template@, intent@, source_kind@, answer_text@),
{
    let gate = field_ref(guard, "reply_execution_gate");
    let contract = field_ref(gate, "blocking_reply_contract");
    let template = match get_str(contract, "template") {
        Some(t) => {
            let tt = trim_str(t);
            if tt.unicode_len() > 0 {
                t
            } else {
                default_template
            }
        },
        None => default_template,
    };
    assert(template@ == expected_blocking_reply(guard@, default_template@));
    let ok = crate::text::str_eq(trim_str(answer_text), template);
    let temporal = crate::answer::answer_mentions_temporal_match(answer_text);
    let mut b = ObjectBuilder::new();
    b.push("boundary_clean", Json::Bool(ok));
    b.push("fail_closed_ok", Json::Bool(ok));
    b.push("unexpected_present", Json::Bool(temporal));
    b.push("intent", Json::Str(intent.to_string()));
    b.push("source_kind", Json::Str(source_kind.to_string()));
    b.push("must_rotate_before_reply", clone_json(field_ref(gate, "must_rotate_before_reply")));
    b.push("response_kind", clone_json(field_ref(contract, "response_kind")));
    b.push("answer", Json::Str(answer_text.to_string()));
    assert(b.view_entries() =~= blocked_probe(guard@, default_template@, intent@, source_kind@, answer_text@).details->Object_0);
    StartupProbe {
        name: "continuity_answer_client_budget_guard_blocked".to_string(),
        expected_verdict_class: "hit_correct_target".to_string(),
        details: b.build(),
    }
}

/// The payload of an answer that the client-budget guard blocked: the answer must be
/// the guard's blocking reply, whose text is the contract's template or
/// `default_template` where the contract names none. `source_kind` is the token source
/// the answer was asked under.
pub fn build_blocked_continuity_answer_payload<E: Fn(&Vec<StartupProbe>) -> Json>(
    project: &ProjectRecord,
    namespace: &NamespaceRecord,
    handoff_summary: &Json,
    restore: Option<&Json>,
    intent: &str,
    question: Option<&str>,
    chat_reference: Option<&str>,
    at_time_rfc3339: Option<&str>,
    messages_count: usize,
    include_chat_messages: bool,
    previous_chat_offset: usize,
    answer_text: &str,
    client_budget_guard: &Json,
    default_template: &str,
    token_source_kind: &str,
    canonical_eval: &E,
    retrieval_science: Json,
    degradation_policy: Json,
) -> (r: Json)
    requires
        forall|ps: &Vec<StartupProbe>| #[trigger] canonical_eval.requires((ps,)),
    ensures
        exists|eval: JsonView|
            #[trigger] evaluated_as(
                *canonical_eval,
                seq![
                    blocked_probe(
                        client_budget_guard@,
                        default_template@,
                        intent@,
                        token_source_kind@,
                        answer_text@,
                    ),
                ],
                eval,
            ) && r@ == blocked_payload_view(
                *project,
                *namespace,
                handoff_summary@,
                opt_json(restore),
                request_view(
                intent,
                question,
                chat_reference,
                at_time_rfc3339,
                messages_count,
                include_chat_messages,
                previous_chat_offset,
            ),
                answer_text@,
                client_budget_guard@,
                eval,
                retrieval_science@,
                degradation_policy@,
            ),
{
    let probe = blocked_probe_exec(
        client_budget_guard,
        default_template,
        intent,
        token_source_kind,
        answer_text,
    );
    let ghost pv = probe_view(probe);
    let mut probes: Vec<StartupProbe> = Vec::new();
    probes.push(probe);
    assert(crate::startup_payload::probes_view(probes@) =~= seq![pv]);
    let eval = canonical_eval(&probes);
    assert(canonical_eval.ensures((&probes,), eval));
    let ghost ev = eval@;
    let ghost g = client_budget_guard@;
    assert(evaluated_as(
        *canonical_eval,
        seq![blocked_probe(g, default_template@, intent@, token_source_kind@, answer_text@)],
        ev,
    ));
    let mut b = answer_head_builder(
        project,
        namespace,
        handoff_summary,
        restore,
        intent,
        question,
        chat_reference,
        at_time_rfc3339,
        messages_count,
        include_chat_messages,
        previous_chat_offset,
    );
    let ghost head = b.view_entries();
    b.push("chat_lookup", chat_lookup_json(None));
    b.push("blocked_by_client_budget_guard", Json::Bool(true));
    b.push("client_budget_guard", clone_json(client_budget_guard));
    b.push(
        "blocking_reply_contract",
        clone_json(field_ref(field_ref(client_budget_guard, "reply_execution_gate"), "blocking_reply_contract")),
    );
    b.push("answer_text", Json::Str(answer_text.to_string()));
    b.push("canonical_eval", eval);
    assert(b.view_entries() =~= head + seq![
        ("chat_lookup"@, chat_lookup_view(None)),
        ("blocked_by_client_budget_guard"@, JsonView::Bool(true)),
        ("client_budget_guard"@, g),
        ("blocking_reply_contract"@, field(field(g, "reply_execution_gate"@), "blocking_reply_contract"@)),
        ("answer_text"@, JsonView::Str(answer_text@)),
        ("canonical_eval"@, ev),
    ]);
    let inner = b.build();
    let ghost iv = inner@;
    let ghost rs = retrieval_science@;
    let ghost dp = degradation_policy@;
    let mut outer = ObjectBuilder::new();
    outer.push("continuity_answer", inner);
    outer.push("retrieval_science", retrieval_science);
    outer.push("degradation_policy", degradation_policy);
    assert(outer.view_entries() =~= seq![
        ("continuity_answer"@, iv),
        ("retrieval_science"@, rs),
        ("degradation_policy"@, dp),
    ]);
    outer.build()
}

} // verus!
