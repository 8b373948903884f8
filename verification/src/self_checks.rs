//! The continuity self-checks: fixed situations whose answers show whether temporal
//! lookup recovers what it should and fails closed where nothing matches.
use vstd::prelude::*;
use crate::answer::{opt_string, ChatTail, ThreadTimeSliceSummary, TranscriptMessage};
use crate::answer_probe::contains_str;
use crate::direct_answer::{direct_answer, render_direct_answer};
use crate::json::{Json, JsonView, ObjectBuilder};
use crate::startup_payload::{probe_view, probes_view, ProbeView, StartupProbe};
use crate::text::{contains, non_empty_trimmed};
use crate::json::{as_str, field, get, get_str};
use crate::snapshots::{
    continuity_snapshot_semantic_epoch_ms, fake_continuity_handoff_snapshot, fake_continuity_import_snapshot,
    in_scope, latest_index, latest_scoped_snapshot, semantic_epoch, semantic_epoch_fits, ObservabilitySnapshotRecord,
    SnapshotFilter,
};

verus! {

/// The project handoff that the temporal lookup checks start from.
pub open spec fn check_handoff() -> JsonView {
    JsonView::Object(
        seq![
            ("headline"@, JsonView::Str("Current project line"@)),
            ("next_step"@, JsonView::Str("Current project next step."@)),
        ],
    )
}

/// The previous chat of the check: it ended on the temporal contour.
pub open spec fn previous_chat_fixture(t: ChatTail) -> bool {
    &&& t.thread_id@ == "thread-2"@
    &&& t.title@ == "чат про continuity"@
    &&& opt_string(t.summary_headline) == Some("Закончили на temporal contour."@)
    &&& opt_string(t.summary_next_step) == Some("Проверить новый чат ещё раз."@)
    &&& t.selected_time_slice is None
    &&& t.messages@.len() == 2
    &&& t.messages@[0].role@ == "user"@
    &&& t.messages@[0].text@ == "на чем закончили?"@
    &&& t.messages@[1].role@ == "assistant"@
    &&& t.messages@[1].text@
        == "Закончили на temporal contour.\nБлижайший обязательный следующий шаг: Проверить новый чат ещё раз."@
}

/// The chat of the check at the moment asked about: it was about temporal lookup.
pub open spec fn exact_time_fixture(t: ChatTail) -> bool {
    &&& t.thread_id@ == "thread-1"@
    &&& t.title@ == "чат про continuity"@
    &&& opt_string(t.summary_headline) == Some("про temporal lookup"@)
    &&& t.summary_next_step is None
    &&& t.selected_time_slice matches Some(s) && {
        &&& s.started_at@ == "2026-03-19T11:59:20+03:00"@
        &&& s.ended_at@ == "2026-03-19T12:01:10+03:00"@
        &&& s.started_at_epoch_s == 1
        &&& s.ended_at_epoch_s == 2
        &&& s.user_anchor@ == "разбирали temporal lookup и его точный смысловой ответ"@
        &&& s.assistant_anchor@ == "про temporal lookup"@
        &&& s.summary_headline@ == "про temporal lookup"@
        &&& s.summary_next_step@ == Seq::<char>::empty()
    }
    &&& t.messages@.len() == 2
    &&& t.messages@[0].role@ == "user"@
    &&& t.messages@[0].text@ == "о чём говорили?"@
    &&& t.messages@[1].role@ == "assistant"@
    &&& t.messages@[1].text@ == "про temporal lookup"@
}

/// A check that expects the answer to recover a chat.
pub open spec fn recovered_check(
    name: Seq<char>,
    intent: Seq<char>,
    scope: Seq<(Seq<char>, JsonView)>,
    ok: bool,
    answer: Seq<char>,
) -> ProbeView {
    ProbeView {
        name,
        expected: "recovered_useful"@,
        details: JsonView::Object(
            seq![
                ("expected_present"@, JsonView::Bool(ok)),
                ("unexpected_present"@, JsonView::Bool(false)),
                ("intent"@, JsonView::Str(intent)),
            ] + scope + seq![("answer"@, JsonView::Str(answer))],
        ),
    }
}

/// A check that expects the answer to fail closed.
pub open spec fn boundary_check(
    name: Seq<char>,
    intent: Seq<char>,
    scope: Seq<(Seq<char>, JsonView)>,
    ok: bool,
    answer: Seq<char>,
) -> ProbeView {
    ProbeView {
        name,
        expected: "hit_correct_target"@,
        details: JsonView::Object(
            seq![
                ("boundary_clean"@, JsonView::Bool(ok)),
                ("fail_closed_ok"@, JsonView::Bool(ok)),
                ("unexpected_present"@, JsonView::Bool(false)),
                ("intent"@, JsonView::Str(intent)),
            ] + scope + seq![("answer"@, JsonView::Str(answer))],
        ),
    }
}

/// The moment the check finds a chat at.
pub open spec fn check_time() -> Seq<char> {
    "2026-03-19T12:00:00+03:00"@
}

/// The moment no chat was held at.
pub open spec fn missing_time() -> Seq<char> {
    "2099-01-01T12:00:00Z"@
}

/// The four temporal lookup checks, given the answers to a found previous chat, a found
/// chat at a moment, a previous chat too far back and a moment without a chat.
pub open spec fn temporal_lookup_checks(
    previous: Seq<char>,
    exact: Seq<char>,
    missing_previous: Seq<char>,
    missing_exact: Seq<char>,
) -> Seq<ProbeView> {
    seq![
        recovered_check(
            "previous_chat_recovered_useful"@,
            "previous_chat"@,
            Seq::empty(),
            contains(previous, "На чём закончился прошлый чат: Закончили на temporal contour."@) && contains(
                previous,
                "Ближайший обязательный следующий шаг: Проверить новый чат ещё раз."@,
            ) && contains(previous, "Предыдущий чат по времени: чат про continuity"@),
            previous,
        ),
        recovered_check(
            "exact_time_recovered_useful"@,
            "chat_at_time"@,
            seq![("target_time"@, JsonView::Str(check_time()))],
            contains(exact, "Что было в чате на этот момент: про temporal lookup"@) && contains(
                exact,
                "Смысловой срез времени: 2026-03-19T11:59:20+03:00 -> 2026-03-19T12:01:10+03:00"@,
            ) && contains(exact, "Подходящий chat thread: чат про continuity"@),
            exact,
        ),
        boundary_check(
            "missing_previous_chat_fail_closed"@,
            "previous_chat"@,
            seq![("offset"@, JsonView::Number(30))],
            contains(
                missing_previous,
                "На чём закончился прошлый чат: для такого смещения назад нет известного чата."@,
            ) && contains(missing_previous, "Смещение назад по чатам: 30"@) && contains(
                missing_previous,
                "Текущая активная линия проекта сейчас: Current project line"@,
            ),
            missing_previous,
        ),
        boundary_check(
            "missing_exact_time_fail_closed"@,
            "chat_at_time"@,
            seq![("target_time"@, JsonView::Str(missing_time()))],
            contains(
                missing_exact,
                "Что было в чате на этот момент: для этого момента нет точного совпадения в известных чатах."@,
            ) && contains(missing_exact, "Целевой момент времени: 2099-01-01T12:00:00Z"@) && contains(
                missing_exact,
                "Текущая активная линия проекта сейчас: Current project line"@,
            ),
            missing_exact,
        ),
    ]
}

fn same_label(label: &str) -> (r: String)
    ensures
        r@ == label@,
{
    label.to_string()
}

fn check_handoff_json() -> (r: Json)
    ensures
        r@ == check_handoff(),
{
    let mut b = ObjectBuilder::new();
    b.push("headline", Json::Str("Current project line".to_string()));
    b.push("next_step", Json::Str("Current project next step.".to_string()));
    assert(b.view_entries() =~= check_handoff()->Object_0);
    b.build()
}

fn message(role: &str, text: &str) -> (m: TranscriptMessage)
    ensures
        m.role@ == role@,
        m.text@ == text@,
{
    TranscriptMessage { role: role.to_string(), text: text.to_string() }
}

fn previous_chat() -> (t: ChatTail)
    ensures
        previous_chat_fixture(t),
{
    let mut messages: Vec<TranscriptMessage> = Vec::new();
    messages.push(message("user", "на чем закончили?"));
    messages.push(
        message(
            "assistant",
            "Закончили на temporal contour.\nБлижайший обязательный следующий шаг: Проверить новый чат ещё раз.",
        ),
    );
    ChatTail {
        thread_id: "thread-2".to_string(),
        title: "чат про continuity".to_string(),
        summary_headline: Some("Закончили на temporal contour.".to_string()),
        summary_next_step: Some("Проверить новый чат ещё раз.".to_string()),
        selected_time_slice: None,
        messages,
    }
}

fn exact_time_chat() -> (t: ChatTail)
    ensures
        exact_time_fixture(t),
{
    let mut messages: Vec<TranscriptMessage> = Vec::new();
    messages.push(message("user", "о чём говорили?"));
    messages.push(message("assistant", "про temporal lookup"));
    let slice = ThreadTimeSliceSummary {
        started_at: "2026-03-19T11:59:20+03:00".to_string(),
        ended_at: "2026-03-19T12:01:10+03:00".to_string(),
        started_at_epoch_s: 1,
        ended_at_epoch_s: 2,
        user_anchor: "разбирали temporal lookup и его точный смысловой ответ".to_string(),
        assistant_anchor: "про temporal lookup".to_string(),
        summary_headline: "про temporal lookup".to_string(),
        summary_next_step: String::new(),
    };
    ChatTail {
        thread_id: "thread-1".to_string(),
        title: "чат про continuity".to_string(),
        summary_headline: Some("про temporal lookup".to_string()),
        summary_next_step: None,
        selected_time_slice: Some(slice),
        messages,
    }
}

fn check_probe(
    recovered: bool,
    name: &str,
    intent: &str,
    scope_key: Option<&str>,
    scope_value: Json,
    ok: bool,
    answer: String,
) -> (r: StartupProbe)
    ensures
        ({
            let scope = match scope_key {
                Some(k) => seq![(k@, scope_value@)],
                None => Seq::empty(),
            };
            probe_view(r) == if recovered {
                recovered_check(name@, intent@, scope, ok, answer@)
            } else {
                boundary_check(name@, intent@, scope, ok, answer@)
            }
        }),
{
    let ghost scope = match scope_key {
        Some(k) => seq![(k@, scope_value@)],
        None => Seq::<(Seq<char>, JsonView)>::empty(),
    };
    let ghost av = answer@;
    let mut b = ObjectBuilder::new();
    if recovered {
        b.push("expected_present", Json::Bool(ok));
        b.push("unexpected_present", Json::Bool(false));
    } else {
        b.push("boundary_clean", Json::Bool(ok));
        b.push("fail_closed_ok", Json::Bool(ok));
        b.push("unexpected_present", Json::Bool(false));
    }
    b.push("intent", Json::Str(intent.to_string()));
    let ghost head = b.view_entries();
    match scope_key {
        Some(k) => b.push(k, scope_value),
        None => {},
    }
    assert(b.view_entries() =~= head + scope);
    b.push("answer", Json::Str(answer));
    let expected = if recovered {
        "recovered_useful".to_string()
    } else {
        "hit_correct_target".to_string()
    };
    let r = StartupProbe { name: name.to_string(), expected_verdict_class: expected, details: b.build() };
    proof {
        let entries = r.details@->Object_0;
        if recovered {
            assert(entries =~= seq![
                ("expected_present"@, JsonView::Bool(ok)),
                ("unexpected_present"@, JsonView::Bool(false)),
                ("intent"@, JsonView::Str(intent@)),
            ] + scope + seq![("answer"@, JsonView::Str(av))]);
        } else {
            assert(entries =~= seq![
                ("boundary_clean"@, JsonView::Bool(ok)),
                ("fail_closed_ok"@, JsonView::Bool(ok)),
                ("unexpected_present"@, JsonView::Bool(false)),
                ("intent"@, JsonView::Str(intent@)),
            ] + scope + seq![("answer"@, JsonView::Str(av))]);
        }
    }
    r
}

/// The temporal lookup self-check: the answers to a found previous chat and a found
/// chat at a moment are checked for what they should recover, and those to a previous
/// chat too far back and to a moment without a chat for failing closed. The probes are
/// then judged by the eval layer.
pub fn continuity_temporal_lookup_probes() -> (r: Vec<StartupProbe>)
    ensures
        exists|previous: ChatTail, exact: ChatTail|
            #[trigger] previous_chat_fixture(previous) && #[trigger] exact_time_fixture(exact) && probes_view(r@)
                == temporal_lookup_checks(
                direct_answer(check_handoff(), None, Some(previous), "previous_chat"@, None, 1, None),
                direct_answer(check_handoff(), None, Some(exact), "chat_at_time"@, Some(check_time()), 1, None),
                direct_answer(check_handoff(), None, None, "previous_chat"@, None, 30, None),
                direct_answer(check_handoff(), None, None, "chat_at_time"@, Some(missing_time()), 1, None),
            ),
{
    let handoff = check_handoff_json();
    let prev = previous_chat();
    let previous_answer = render_direct_answer(&handoff, None, Some(&prev), "previous_chat", None, 1, &same_label);
    let previous_ok = contains_str(previous_answer.as_str(), "На чём закончился прошлый чат: Закончили на temporal contour.")
        && contains_str(previous_answer.as_str(), "Ближайший обязательный следующий шаг: Проверить новый чат ещё раз.")
        && contains_str(previous_answer.as_str(), "Предыдущий чат по времени: чат про continuity");
    let exact = exact_time_chat();
    let exact_time = "2026-03-19T12:00:00+03:00";
    let exact_answer = render_direct_answer(&handoff, None, Some(&exact), "chat_at_time", Some(exact_time), 1, &same_label);
    let exact_ok = contains_str(exact_answer.as_str(), "Что было в чате на этот момент: про temporal lookup")
        && contains_str(
            exact_answer.as_str(),
            "Смысловой срез времени: 2026-03-19T11:59:20+03:00 -> 2026-03-19T12:01:10+03:00",
        ) && contains_str(exact_answer.as_str(), "Подходящий chat thread: чат про continuity");
    let missing_previous = render_direct_answer(&handoff, None, None, "previous_chat", None, 30, &same_label);
    let missing_previous_ok = contains_str(
        missing_previous.as_str(),
        "На чём закончился прошлый чат: для такого смещения назад нет известного чата.",
    ) && contains_str(missing_previous.as_str(), "Смещение назад по чатам: 30") && contains_str(
        missing_previous.as_str(),
        "Текущая активная линия проекта сейчас: Current project line",
    );
    let missing_time_text = "2099-01-01T12:00:00Z";
    let missing_exact = render_direct_answer(
        &handoff,
        None,
        None,
        "chat_at_time",
        Some(missing_time_text),
        1,
        &same_label,
    );
    let missing_exact_ok = contains_str(
        missing_exact.as_str(),
        "Что было в чате на этот момент: для этого момента нет точного совпадения в известных чатах.",
    ) && contains_str(missing_exact.as_str(), "Целевой момент времени: 2099-01-01T12:00:00Z") && contains_str(
        missing_exact.as_str(),
        "Текущая активная линия проекта сейчас: Current project line",
    );
    let ghost a0 = previous_answer@;
    let ghost a1 = exact_answer@;
    let ghost a2 = missing_previous@;
    let ghost a3 = missing_exact@;
    let mut probes: Vec<StartupProbe> = Vec::new();
    probes.push(
        check_probe(true, "previous_chat_recovered_useful", "previous_chat", None, Json::Null, previous_ok, previous_answer),
    );
    probes.push(
        check_probe(
            true,
            "exact_time_recovered_useful",
            "chat_at_time",
            Some("target_time"),
            Json::Str(exact_time.to_string()),
            exact_ok,
            exact_answer,
        ),
    );
    probes.push(
        check_probe(
            false,
            "missing_previous_chat_fail_closed",
            "previous_chat",
            Some("offset"),
            Json::Number(30),
            missing_previous_ok,
            missing_previous,
        ),
    );
    probes.push(
        check_probe(
            false,
            "missing_exact_time_fail_closed",
            "chat_at_time",
            Some("target_time"),
            Json::Str(missing_time_text.to_string()),
            missing_exact_ok,
            missing_exact,
        ),
    );
    assert(probes_view(probes@) =~= temporal_lookup_checks(a0, a1, a2, a3));
    assert(previous_chat_fixture(prev) && exact_time_fixture(exact));
    probes
}

/// The handoff of the degradation checks: a refresh that has not finished.
pub open spec fn refresh_handoff() -> JsonView {
    JsonView::Object(
        seq![
            ("headline"@, JsonView::Str("Partial refresh line"@)),
            ("next_step"@, JsonView::Str("Finish continuity refresh."@)),
        ],
    )
}

/// The moment that the partial thread index is asked about.
pub open spec fn partial_thread_time() -> Seq<char> {
    "2026-03-18T12:00:00+03:00"@
}

/// One degradation scenario: its class, title, whether it passed, why, and its details.
pub open spec fn scenario_view(
    class_key: Seq<char>,
    title: Seq<char>,
    pass: bool,
    pass_reason: Seq<char>,
    critical_reason: Seq<char>,
    details: JsonView,
) -> JsonView {
    JsonView::Object(
        seq![
            ("class_key"@, JsonView::Str(class_key)),
            ("title"@, JsonView::Str(title)),
            ("status"@, JsonView::Str(if pass { "pass"@ } else { "critical"@ })),
            ("reason"@, JsonView::Str(if pass { pass_reason } else { critical_reason })),
            ("details"@, details),
        ],
    )
}

/// The degradation scenarios, given the answer to a previous chat during an unfinished
/// refresh, whether the temporal lookup over a partial thread index found a chat, and
/// the answer about the moment it was asked about.
pub open spec fn degradation_scenarios(refresh_answer: Seq<char>, thread_found: bool, thread_answer: Seq<char>) -> Seq<
    JsonView,
> {
    let refresh_pass = contains(
        refresh_answer,
        "На чём закончился прошлый чат: для такого смещения назад нет известного чата."@,
    ) && contains(refresh_answer, "Текущая активная линия проекта сейчас: Partial refresh line"@) && contains(
        refresh_answer,
        "Ближайший обязательный следующий шаг: Finish continuity refresh."@,
    );
    let thread_pass = !thread_found && contains(
        thread_answer,
        "Что было в чате на этот момент: для этого момента нет точного совпадения в известных чатах."@,
    ) && contains(thread_answer, partial_thread_time());
    seq![
        scenario_view(
            "partial_refresh"@,
            "Неполный refresh"@,
            refresh_pass,
            "continuity answer не маскирует неполный refresh под найденный previous chat и честно сообщает, что такого смещения назад пока нет."@,
            "continuity answer подменил неполный refresh выдуманным previous-chat ответом."@,
            JsonView::Object(seq![("answer"@, JsonView::Str(refresh_answer))]),
        ),
        scenario_view(
            "partial_thread_index"@,
            "Неполный thread index"@,
            thread_pass,
            "temporal lookup fail-closed отбрасывает слишком далёкий time-slice и честно пишет, что точного совпадения нет."@,
            "temporal lookup подменил неполный thread index случайным соседним chat slice."@,
            JsonView::Object(
                seq![("target_time"@, JsonView::Str(partial_thread_time())), ("answer"@, JsonView::Str(thread_answer))],
            ),
        ),
    ]
}

fn refresh_handoff_json() -> (r: Json)
    ensures
        r@ == refresh_handoff(),
{
    let mut b = ObjectBuilder::new();
    b.push("headline", Json::Str("Partial refresh line".to_string()));
    b.push("next_step", Json::Str("Finish continuity refresh.".to_string()));
    assert(b.view_entries() =~= refresh_handoff()->Object_0);
    b.build()
}

fn scenario_json(
    class_key: &str,
    title: &str,
    pass: bool,
    pass_reason: &str,
    critical_reason: &str,
    details: Json,
) -> (r: Json)
    ensures
        r@ == scenario_view(class_key@, title@, pass, pass_reason@, critical_reason@, details@),
{
    let ghost dv = details@;
    let mut b = ObjectBuilder::new();
    b.push("class_key", Json::Str(class_key.to_string()));
    b.push("title", Json::Str(title.to_string()));
    b.push("status", Json::Str(if pass { "pass".to_string() } else { "critical".to_string() }));
    b.push("reason", Json::Str(if pass { pass_reason.to_string() } else { critical_reason.to_string() }));
    b.push("details", details);
    assert(b.view_entries() =~= scenario_view(class_key@, title@, pass, pass_reason@, critical_reason@, dv)->Object_0);
    b.build()
}

/// The degradation proof scenarios: whether continuity answers stay honest when the
/// refresh has not finished and when the thread index is partial.
/// `partial_thread_tail` is what the temporal lookup over the partial thread index
/// (one long thread whose only time slice lies days away) returned for the moment asked
/// about.
pub fn degradation_proof_scenarios(partial_thread_tail: Option<&ChatTail>) -> (r: Vec<Json>)
    ensures
        r@.map_values(|j: Json| j@) == degradation_scenarios(
            direct_answer(refresh_handoff(), None, None, "previous_chat"@, None, 2, None),
            partial_thread_tail is Some,
            direct_answer(
                refresh_handoff(),
                None,
                crate::direct_answer::opt_tail(partial_thread_tail),
                "chat_at_time"@,
                Some(partial_thread_time()),
                1,
                None,
            ),
        ),
{
    let handoff = refresh_handoff_json();
    let refresh_answer = render_direct_answer(&handoff, None, None, "previous_chat", None, 2, &same_label);
    let refresh_pass = contains_str(
        refresh_answer.as_str(),
        "На чём закончился прошлый чат: для такого смещения назад нет известного чата.",
    ) && contains_str(refresh_answer.as_str(), "Текущая активная линия проекта сейчас: Partial refresh line")
        && contains_str(refresh_answer.as_str(), "Ближайший обязательный следующий шаг: Finish continuity refresh.");
    let target_time = "2026-03-18T12:00:00+03:00";
    let thread_answer = render_direct_answer(
        &handoff,
        None,
        partial_thread_tail,
        "chat_at_time",
        Some(target_time),
        1,
        &same_label,
    );
    let thread_pass = partial_thread_tail.is_none() && contains_str(
        thread_answer.as_str(),
        "Что было в чате на этот момент: для этого момента нет точного совпадения в известных чатах.",
    ) && contains_str(thread_answer.as_str(), target_time);
    let ghost ra = refresh_answer@;
    let ghost ta = thread_answer@;
    let mut refresh_details = ObjectBuilder::new();
    refresh_details.push("answer", Json::Str(refresh_answer));
    assert(refresh_details.view_entries() =~= seq![("answer"@, JsonView::Str(ra))]);
    let mut thread_details = ObjectBuilder::new();
    thread_details.push("target_time", Json::Str(target_time.to_string()));
    thread_details.push("answer", Json::Str(thread_answer));
    assert(thread_details.view_entries() =~= seq![
        ("target_time"@, JsonView::Str(partial_thread_time())),
        ("answer"@, JsonView::Str(ta)),
    ]);
    let mut r: Vec<Json> = Vec::new();
    r.push(
        scenario_json(
            "partial_refresh",
            "Неполный refresh",
            refresh_pass,
            "continuity answer не маскирует неполный refresh под найденный previous chat и честно сообщает, что такого смещения назад пока нет.",
            "continuity answer подменил неполный refresh выдуманным previous-chat ответом.",
            refresh_details.build(),
        ),
    );
    r.push(
        scenario_json(
            "partial_thread_index",
            "Неполный thread index",
            thread_pass,
            "temporal lookup fail-closed отбрасывает слишком далёкий time-slice и честно пишет, что точного совпадения нет.",
            "temporal lookup подменил неполный thread index случайным соседним chat slice.",
            thread_details.build(),
        ),
    );
    assert(r@.map_values(|j: Json| j@) =~= degradation_scenarios(ra, partial_thread_tail is Some, ta));
    r
}

/// The headline of a handoff snapshot.
pub open spec fn handoff_headline(s: ObservabilitySnapshotRecord) -> Option<Seq<char>> {
    as_str(field(field(s.payload@, "continuity_handoff"@), "headline"@))
}

/// The headline of the active workline of an import snapshot.
pub open spec fn import_headline(s: ObservabilitySnapshotRecord) -> Option<Seq<char>> {
    as_str(
        field(field(field(field(s.payload@, "continuity_import"@), "active_workline_summary"@), "details"@), "headline"@),
    )
}

/// A replay check: the snapshot selected is the fresh one, captured at 2000, and not
/// the replay that was stored later.
pub open spec fn replay_check(name: Seq<char>, selected: Option<Seq<char>>, epoch: int, expected: Seq<char>) -> ProbeView {
    let ok = selected == Some(expected) && epoch == 2000;
    ProbeView {
        name,
        expected: "recovered_useful"@,
        details: JsonView::Object(
            seq![
                ("expected_present"@, JsonView::Bool(ok)),
                ("unexpected_present"@, JsonView::Bool(!ok)),
                (
                    "selected_headline"@,
                    crate::json::opt_str_view(
                        match selected {
                            Some(t) => non_empty_trimmed(t),
                            None => None,
                        },
                    ),
                ),
                ("selected_semantic_epoch_ms"@, JsonView::Number(epoch)),
                ("expected_headline"@, JsonView::Str(expected)),
                ("expected_semantic_epoch_ms"@, JsonView::Number(2000)),
            ],
        ),
    }
}

/// Two snapshots of the `art` project's `continuity` namespace under `root_key`: a
/// replay of old content (captured at `1000`, stored at `3000`) and fresh content
/// (captured and stored at `2000`).
pub open spec fn replay_pair(snaps: Seq<ObservabilitySnapshotRecord>, root_key: Seq<char>) -> bool {
    &&& snaps.len() == 2
    &&& snaps[0].created_at_epoch_ms == 3000
    &&& semantic_epoch(snaps[0].payload@, 3000, root_key) == 1000
    &&& snaps[1].created_at_epoch_ms == 2000
    &&& semantic_epoch(snaps[1].payload@, 2000, root_key) == 2000
    &&& in_scope(snaps[0], root_key, "art"@, "continuity"@, SnapshotFilter::Any)
    &&& in_scope(snaps[1], root_key, "art"@, "continuity"@, SnapshotFilter::Any)
    &&& semantic_epoch_fits(snaps[0].payload@, root_key)
    &&& semantic_epoch_fits(snaps[1].payload@, root_key)
}

/// The handoff replay pair: the replay headed `Stale replay`, the fresh one `Fresh
/// handoff`.
pub open spec fn handoff_replay_pair(snaps: Seq<ObservabilitySnapshotRecord>) -> bool {
    &&& replay_pair(snaps, "continuity_handoff"@)
    &&& handoff_headline(snaps[0]) == Some("Stale replay"@)
    &&& handoff_headline(snaps[1]) == Some("Fresh handoff"@)
}

/// The replay checks over the handoff and import replay pairs: `None` when the
/// selection of the latest handoff or import found nothing.
pub open spec fn replay_checks(
    handoffs: Seq<ObservabilitySnapshotRecord>,
    imports: Seq<ObservabilitySnapshotRecord>,
) -> Option<Seq<ProbeView>> {
    match (
        latest_index(handoffs, "continuity_handoff"@, "art"@, "continuity"@, SnapshotFilter::NonMetaHandoff, 2),
        latest_index(imports, "continuity_import"@, "art"@, "continuity"@, SnapshotFilter::Any, 2),
    ) {
        (Some(h), Some(i)) => Some(
            seq![
                replay_check(
                    "handoff_replay_rejected"@,
                    handoff_headline(handoffs[h]),
                    semantic_epoch(handoffs[h].payload@, handoffs[h].created_at_epoch_ms as int, "continuity_handoff"@),
                    "Fresh handoff"@,
                ),
                replay_check(
                    "import_replay_rejected"@,
                    import_headline(imports[i]),
                    semantic_epoch(imports[i].payload@, imports[i].created_at_epoch_ms as int, "continuity_import"@),
                    "Fresh import"@,
                ),
            ],
        ),
        _ => None,
    }
}

fn replay_probe(
    name: &str,
    selected: Option<&str>,
    epoch: i64,
    expected: &str,
) -> (r: StartupProbe)
    ensures
        probe_view(r) == replay_check(name@, crate::answer::opt_view(selected), epoch as int, expected@),
{
    let ok = match selected {
        Some(t) => crate::text::str_eq(t, expected),
        None => false,
    } && epoch == 2000;
    let mut b = ObjectBuilder::new();
    b.push("expected_present", Json::Bool(ok));
    b.push("unexpected_present", Json::Bool(!ok));
    b.push("selected_headline", crate::projections::normalized_optional_text_json(selected));
    b.push("selected_semantic_epoch_ms", Json::Number(epoch as i128));
    b.push("expected_headline", Json::Str(expected.to_string()));
    b.push("expected_semantic_epoch_ms", Json::Number(2000));
    assert(b.view_entries() =~= replay_check(name@, crate::answer::opt_view(selected), epoch as int, expected@).details->Object_0);
    StartupProbe { name: name.to_string(), expected_verdict_class: "recovered_useful".to_string(), details: b.build() }
}

fn field_ref<'a>(v: &'a Json, key: &str) -> (r: &'a Json)
    ensures
        r@ == field(v@, key@),
{
    match get(v, key) {
        Some(x) => x,
        None => &Json::Null,
    }
}

/// The replay guard self-check: a replay of old handoff content stored after fresh
/// content must not be selected as the latest handoff, nor a replayed import as the
/// latest import. `None` when the selection found nothing.
pub fn continuity_replay_guard_probes() -> (r: Option<Vec<StartupProbe>>)
    ensures
        exists|handoffs: Seq<ObservabilitySnapshotRecord>, imports: Seq<ObservabilitySnapshotRecord>|
            #[trigger] handoff_replay_pair(handoffs) && #[trigger] replay_pair(imports, "continuity_import"@) && match (r, replay_checks(handoffs, imports)) {
                (Some(ps), Some(checks)) => crate::startup_payload::probes_view(ps@) == checks,
                (None, None) => true,
                _ => false,
            },
{
    let mut handoffs: Vec<ObservabilitySnapshotRecord> = Vec::new();
    handoffs.push(fake_continuity_handoff_snapshot(3000, 1000, "Stale replay"));
    handoffs.push(fake_continuity_handoff_snapshot(2000, 2000, "Fresh handoff"));
    let mut imports: Vec<ObservabilitySnapshotRecord> = Vec::new();
    imports.push(fake_continuity_import_snapshot(3000, 1000, "Stale import"));
    imports.push(fake_continuity_import_snapshot(2000, 2000, "Fresh import"));
    let ghost hs = handoffs@;
    let ghost is = imports@;
    assert(handoff_replay_pair(hs));
    assert(replay_pair(is, "continuity_import"@));
    let handoff = latest_scoped_snapshot(
        handoffs.as_slice(),
        "continuity_handoff",
        "art",
        "continuity",
        SnapshotFilter::NonMetaHandoff,
    );
    let import = latest_scoped_snapshot(imports.as_slice(), "continuity_import", "art", "continuity", SnapshotFilter::Any);
    proof {
        crate::snapshots::lemma_latest_in_scope(
            hs,
            "continuity_handoff"@,
            "art"@,
            "continuity"@,
            SnapshotFilter::NonMetaHandoff,
            2,
        );
        crate::snapshots::lemma_latest_in_scope(is, "continuity_import"@, "art"@, "continuity"@, SnapshotFilter::Any, 2);
    }
    match (handoff, import) {
        (Some(h), Some(i)) => {
            let h_epoch = continuity_snapshot_semantic_epoch_ms(h, "continuity_handoff");
            let i_epoch = continuity_snapshot_semantic_epoch_ms(i, "continuity_import");
            let h_headline = get_str(field_ref(&h.payload, "continuity_handoff"), "headline");
            let i_headline = get_str(
                field_ref(field_ref(field_ref(&i.payload, "continuity_import"), "active_workline_summary"), "details"),
                "headline",
            );
            let mut probes: Vec<StartupProbe> = Vec::new();
            probes.push(replay_probe("handoff_replay_rejected", h_headline, h_epoch, "Fresh handoff"));
            probes.push(replay_probe("import_replay_rejected", i_headline, i_epoch, "Fresh import"));
            assert(crate::startup_payload::probes_view(probes@) =~= replay_checks(hs, is)->Some_0);
            Some(probes)
        },
        _ => None,
    }
}

} // verus!
