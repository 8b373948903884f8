use amai_continuity::advisory::{
    normalize_client_budget_status_label,
    build_compact_chat_details, build_rotate_chat_details, display_client_budget_status_label,
    format_client_budget_status_label_for_human, startup_materialized_notes,
    summarize_startup_materialized_notes,
};
use amai_continuity::answer::{ChatTail, ThreadTimeSliceSummary, TranscriptMessage};
use amai_continuity::direct_answer::render_direct_answer;
use amai_continuity::json::{Json, ObjectBuilder};
use amai_continuity::runtime_summaries::{summarize_recent_actions, summarize_string_list};

fn obj(entries: Vec<(&str, Json)>) -> Json {
    let mut b = ObjectBuilder::new();
    for (k, v) in entries {
        b.push(k, v);
    }
    b.build()
}

fn s(t: &str) -> Json {
    Json::Str(t.to_string())
}

fn arr(items: Vec<Json>) -> Json {
    Json::Array(items)
}

fn field<'a>(j: &'a Json, key: &str) -> &'a Json {
    static NULL: Json = Json::Null;
    amai_continuity::json::get(j, key).unwrap_or(&NULL)
}

/// The compact wording of the dashboard's client-pressure labels, as the operator
/// surfaces show them.
fn compact_wording(label: &str) -> String {
    match label {
        "новый чат нужен сейчас" => "сожми текущий чат сейчас".to_string(),
        "новый чат рекомендован" => "сожми текущий чат".to_string(),
        other => other.to_string(),
    }
}

fn answer(
    handoff: &Json,
    restore: Option<&Json>,
    tail: Option<&ChatTail>,
    intent: &str,
    at: Option<&str>,
    offset: usize,
) -> String {
    render_direct_answer(handoff, restore, tail, intent, at, offset, &compact_wording)
}

fn project_handoff() -> Json {
    obj(vec![
        ("headline", s("Current project line")),
        ("next_step", s("Current project next step.")),
    ])
}

#[test]
fn render_direct_answer_prefers_concise_restore_bundle() {
    let handoff = obj(vec![
        ("headline", s("Amai startup restore pack enriched and committed")),
        ("next_step", s("Сделать auto-injection restore pack прямо в chat-start prompt.")),
    ]);
    let restore = obj(vec![(
        "working_state_restore",
        obj(vec![
            (
                "materialized_notes",
                arr(vec![
                    s("startup теперь поднимает materialized решения из handoff details"),
                    s("показывает недавние действия, а не только headline и next step"),
                ]),
            ),
            (
                "recent_actions",
                arr(vec![
                    obj(vec![(
                        "headline",
                        s("Проверили новую чистую рабочую поверхность на реальном старте"),
                    )]),
                    obj(vec![("headline", s("Усилили startup restore pack"))]),
                ]),
            ),
            (
                "active_files",
                arr(vec![
                    s("/home/art/agent-memory-index/src/continuity.rs"),
                    s("/home/art/Art/AGENTS.md"),
                ]),
            ),
            ("restore_confidence", s("high")),
        ]),
    )]);

    let answer = answer(&handoff, Some(&restore), None, "last_chat", None, 1);

    assert!(answer.contains("На чём остановились: Amai startup restore pack enriched and committed"));
    assert!(answer.contains("Что уже materialized: startup теперь поднимает materialized решения из handoff details; показывает недавние действия, а не только headline и next step"));
    assert!(answer.contains("Последние действия: Проверили новую чистую рабочую поверхность на реальном старте; Усилили startup restore pack"));
    assert!(answer.contains("Активные файлы: /home/art/agent-memory-index/src/continuity.rs; /home/art/Art/AGENTS.md"));
    assert!(answer.contains("Ближайший обязательный следующий шаг: Сделать auto-injection restore pack прямо в chat-start prompt."));
}

#[test]
fn render_direct_answer_formats_time_addressable_chat_lookup() {
    let handoff = obj(vec![
        ("headline", s("Temporal lookup materialized")),
        ("next_step", s("Проверить lookup по точному времени на реальном новом чате.")),
    ]);
    let chat_tail = ChatTail {
        thread_id: "thread-1".to_string(),
        title: "чат про continuity".to_string(),
        summary_headline: Some("про temporal lookup".to_string()),
        summary_next_step: None,
        selected_time_slice: Some(ThreadTimeSliceSummary {
            started_at: "2026-03-19T11:59:20+03:00".to_string(),
            ended_at: "2026-03-19T12:01:10+03:00".to_string(),
            started_at_epoch_s: 1,
            ended_at_epoch_s: 2,
            user_anchor: "разбирали temporal lookup и его точный смысловой ответ".to_string(),
            assistant_anchor: "про temporal lookup".to_string(),
            summary_headline: "про temporal lookup".to_string(),
            summary_next_step: String::new(),
        }),
        messages: vec![
            TranscriptMessage { role: "user".to_string(), text: "о чём говорили?".to_string() },
            TranscriptMessage {
                role: "assistant".to_string(),
                text: "про temporal lookup".to_string(),
            },
        ],
    };

    let answer = answer(
        &handoff,
        None,
        Some(&chat_tail),
        "chat_at_time",
        Some("2026-03-19T12:00:00+03:00"),
        1,
    );

    assert!(answer.contains("Что было в чате на этот момент: про temporal lookup"));
    assert!(answer.contains("Целевой момент времени: 2026-03-19T12:00:00+03:00"));
    assert!(answer.contains(
        "Смысловой срез времени: 2026-03-19T11:59:20+03:00 -> 2026-03-19T12:01:10+03:00"
    ));
    assert!(answer.contains(
        "О чём шёл разговор в этот момент: разбирали temporal lookup и его точный смысловой ответ"
    ));
    assert!(answer.contains("Подходящий chat thread: чат про continuity"));
    assert!(answer.contains("Текущая активная линия проекта сейчас: Temporal lookup materialized"));
    assert!(answer.contains("Ближайшие сообщения к этому моменту:"));
    assert!(answer.contains("- Ваше: о чём говорили?"));
    assert!(answer.contains("- Моё: про temporal lookup"));
}

fn finished_tail(slice: Option<ThreadTimeSliceSummary>, summary: Option<&str>, next: Option<&str>) -> ChatTail {
    ChatTail {
        thread_id: "thread-2".to_string(),
        title: "чат про continuity".to_string(),
        summary_headline: summary.map(str::to_string),
        summary_next_step: next.map(str::to_string),
        selected_time_slice: slice,
        messages: vec![
            TranscriptMessage { role: "user".to_string(), text: "на чем закончили?".to_string() },
            TranscriptMessage {
                role: "assistant".to_string(),
                text: "Закончили на temporal contour.\nБлижайший обязательный следующий шаг: Проверить новый чат ещё раз.".to_string(),
            },
        ],
    }
}

#[test]
fn render_direct_answer_uses_thread_next_step_when_available() {
    let chat_tail = finished_tail(
        None,
        Some("Закончили на temporal contour."),
        Some("Проверить новый чат ещё раз."),
    );

    let answer = answer(&project_handoff(), None, Some(&chat_tail), "previous_chat", None, 1);

    assert!(answer.contains("На чём закончился прошлый чат: Закончили на temporal contour."));
    assert!(answer.contains("Ближайший обязательный следующий шаг: Проверить новый чат ещё раз."));
    assert!(answer.contains("Текущая активная линия проекта сейчас: Current project line"));
}

#[test]
fn render_direct_answer_ignores_whitespace_thread_summary_fields() {
    let slice = ThreadTimeSliceSummary {
        started_at: "2026-03-19T11:59:20+03:00".to_string(),
        ended_at: "2026-03-19T12:01:10+03:00".to_string(),
        started_at_epoch_s: 1,
        ended_at_epoch_s: 2,
        user_anchor: "разбирали temporal lookup".to_string(),
        assistant_anchor: "про temporal lookup".to_string(),
        summary_headline: "   ".to_string(),
        summary_next_step: "   ".to_string(),
    };
    let chat_tail = finished_tail(Some(slice), Some("   "), Some("   "));

    let answer = answer(&project_handoff(), None, Some(&chat_tail), "previous_chat", None, 1);

    assert!(answer.contains("На чём закончился прошлый чат: Закончили на temporal contour."));
    assert!(answer.contains("Ближайший обязательный следующий шаг: Проверить новый чат ещё раз."));
}

#[test]
fn render_direct_answer_reports_missing_exact_time_match_without_fake_chat() {
    let answer = answer(
        &project_handoff(),
        None,
        None,
        "chat_at_time",
        Some("2099-01-01T12:00:00Z"),
        1,
    );

    assert!(answer.contains(
        "Что было в чате на этот момент: для этого момента нет точного совпадения в известных чатах."
    ));
    assert!(answer.contains("Целевой момент времени: 2099-01-01T12:00:00Z"));
    assert!(answer.contains("Текущая активная линия проекта сейчас: Current project line"));
    assert!(answer.contains("Ближайший обязательный следующий шаг: Current project next step."));
}

#[test]
fn render_direct_answer_reports_missing_previous_chat_match_without_fake_fallback() {
    let answer = answer(&project_handoff(), None, None, "previous_chat", None, 30);

    assert!(answer.contains(
        "На чём закончился прошлый чат: для такого смещения назад нет известного чата."
    ));
    assert!(answer.contains("Смещение назад по чатам: 30"));
    assert!(answer.contains("Текущая активная линия проекта сейчас: Current project line"));
    assert!(answer.contains("Ближайший обязательный следующий шаг: Current project next step."));
}

#[test]
fn render_direct_answer_normalizes_empty_project_handoff_text() {
    let handoff = obj(vec![("headline", s("   ")), ("next_step", s(""))]);

    let answer = answer(&handoff, None, None, "previous_chat", None, 30);

    assert!(answer.contains("Текущая активная линия проекта сейчас: ещё нет данных"));
    assert!(answer.contains("Ближайший обязательный следующий шаг: ещё нет данных"));
}

#[test]
fn render_direct_answer_marks_ordinal_previous_chat_lookup() {
    let chat_tail = ChatTail {
        thread_id: "thread-2".to_string(),
        title: "чат про continuity".to_string(),
        summary_headline: Some("Закончили на temporal contour.".to_string()),
        summary_next_step: Some("Проверить новый чат ещё раз.".to_string()),
        selected_time_slice: None,
        messages: vec![],
    };

    let answer = answer(&project_handoff(), None, Some(&chat_tail), "previous_chat", None, 3);

    assert!(answer.contains("Смещение назад по чатам: 3"));
}

#[test]
fn render_direct_answer_omits_redundant_noisy_chat_label() {
    let chat_tail = ChatTail {
        thread_id: "thread-3".to_string(),
        title: "AGENTS.md прочитан. Продолжай строго из `/home/art/Art`.".to_string(),
        summary_headline: Some(
            "Amai ordinal chat recovery and prompt restore materialized".to_string(),
        ),
        summary_next_step: None,
        selected_time_slice: None,
        messages: vec![TranscriptMessage {
            role: "assistant".to_string(),
            text: "Amai ordinal chat recovery and prompt restore materialized".to_string(),
        }],
    };

    let answer = answer(&project_handoff(), None, Some(&chat_tail), "last_chat", None, 1);

    assert!(
        !answer.contains("Найденный chat thread: AGENTS.md прочитан"),
        "noisy chat label must be suppressed"
    );
}

#[test]
fn render_direct_answer_omits_continue_strictly_label() {
    let chat_tail = ChatTail {
        thread_id: "thread-4".to_string(),
        title: "Продолжай строго из `/home/art/Art` и строго по `/home/art/Art/AGENTS.md`."
            .to_string(),
        summary_headline: Some("Human continuity summary".to_string()),
        summary_next_step: None,
        selected_time_slice: None,
        messages: vec![TranscriptMessage {
            role: "assistant".to_string(),
            text: "Human continuity summary".to_string(),
        }],
    };

    let answer = answer(&project_handoff(), None, Some(&chat_tail), "last_chat", None, 1);

    assert!(
        !answer.contains("Найденный chat thread: Продолжай строго"),
        "system-style chat label must be suppressed"
    );
}

#[test]
fn render_direct_answer_omits_overlong_exact_time_thread_label() {
    let chat_tail = ChatTail {
        thread_id: "thread-5".to_string(),
        title: "теперь у нас реализован механизм отслеживания корреляции реадми в доменах и поддоменах и в docs? чтобы мы видели если где изменился документ по дате, то нужно посмотреть соответствующий раздел".to_string(),
        summary_headline: Some("Проверю текущее покрытие механизма и сразу закреплю правило в `AGENTS.md`.".to_string()),
        summary_next_step: None,
        selected_time_slice: Some(ThreadTimeSliceSummary {
            started_at: "2026-03-11T06:19:47.067Z".to_string(),
            ended_at: "2026-03-11T06:19:58.631Z".to_string(),
            started_at_epoch_s: 1,
            ended_at_epoch_s: 2,
            user_anchor: "теперь у нас реализован механизм отслеживания корреляции реадми в доменах и поддоменах и в docs? чтобы мы видели если где изменился документ по дате".to_string(),
            assistant_anchor: "Проверю текущее покрытие механизма и сразу закреплю правило в `AGENTS.md`.".to_string(),
            summary_headline: "Проверю текущее покрытие механизма и сразу закреплю правило в `AGENTS.md`.".to_string(),
            summary_next_step: String::new(),
        }),
        messages: vec![
            TranscriptMessage {
                role: "user".to_string(),
                text: "теперь у нас реализован механизм отслеживания корреляции реадми...".to_string(),
            },
            TranscriptMessage {
                role: "assistant".to_string(),
                text: "Проверю текущее покрытие механизма и сразу закреплю правило в `AGENTS.md`.".to_string(),
            },
        ],
    };

    let answer = answer(
        &project_handoff(),
        None,
        Some(&chat_tail),
        "chat_at_time",
        Some("2026-03-11T12:00:00+03:00"),
        1,
    );

    assert!(!answer.contains("Подходящий chat thread:"));
}

#[test]
fn render_direct_answer_is_exact_for_a_found_chat() {
    let chat_tail = ChatTail {
        thread_id: "t".to_string(),
        title: "чат про continuity".to_string(),
        summary_headline: Some("Итог".to_string()),
        summary_next_step: None,
        selected_time_slice: None,
        messages: vec![TranscriptMessage { role: "user".to_string(), text: "привет".to_string() }],
    };
    let answer = answer(&project_handoff(), None, Some(&chat_tail), "continue", None, 1);
    assert_eq!(
        answer,
        "Продолжаем с этой линии: Current project line\nНайденный chat thread: чат про continuity\nПоследние сообщения этого чата:\n- Ваше: привет\nБлижайший обязательный следующий шаг: Current project next step."
    );
}

#[test]
fn render_direct_answer_marks_a_preliminary_restore() {
    let restore = obj(vec![(
        "working_state_restore",
        obj(vec![
            ("restore_confidence", s("preliminary")),
            ("client_budget_guard", obj(vec![("status_label", s("новый чат нужен сейчас"))])),
        ]),
    )]);
    let answer = answer(&project_handoff(), Some(&restore), None, "handoff", None, 1);
    assert_eq!(
        answer,
        "Текущий handoff в Amai: Current project line\nЧто уже materialized: Client-budget advisory signal: сожми текущий чат сейчас.\nСтатус continuity: предварительно, потому что живая выборка ещё маленькая.\nБлижайший обязательный следующий шаг: Current project next step."
    );
}

#[test]
fn build_rotate_chat_details_prefers_delivery_surface_status_label() {
    let guard = obj(vec![
        ("status_label", s("новый чат нужен сейчас")),
        ("delivery_surface_status_label", s("новая чистая рабочая поверхность нужна сейчас")),
        ("last_request", s("162594 из 258400")),
        ("client_limits", s("5ч остаётся 8.00%")),
    ]);

    let details = build_rotate_chat_details(
        &guard,
        "Продолжить активную рабочую линию",
        "Сначала сожми текущий чат",
        &compact_wording,
    );

    assert!(details
        .contains("Client-budget advisory signal: новая чистая рабочая поверхность нужна сейчас."));
    assert!(!details.contains("Client-budget advisory signal: сожми текущий чат сейчас."));
}

#[test]
fn startup_materialized_notes_fall_back_to_normalized_status_label() {
    let restore = obj(vec![(
        "client_budget_guard",
        obj(vec![
            ("status_label", s("новый чат нужен сейчас")),
            ("last_request", s("162594 из 258400")),
        ]),
    )]);

    let notes = startup_materialized_notes(&restore, &compact_wording);

    assert!(notes
        .iter()
        .any(|note| note == "Client-budget advisory signal: сожми текущий чат сейчас."));
}

#[test]
fn startup_materialized_notes_and_summaries_ignore_whitespace_only_text() {
    let restore = obj(vec![
        (
            "client_budget_guard",
            obj(vec![
                ("status_label", s("новый чат нужен сейчас")),
                ("last_request", s("   ")),
                ("client_limits", s("\n\t")),
            ]),
        ),
        (
            "recent_actions",
            arr(vec![
                obj(vec![("headline", s("   ")), ("summary", s("   "))]),
                obj(vec![
                    ("headline", s("Поднять continuity runtime audit")),
                    ("summary", s("   ")),
                ]),
            ]),
        ),
        ("active_files", arr(vec![s("   "), s("src/continuity.rs"), s("")])),
    ]);

    let notes = startup_materialized_notes(&restore, &compact_wording);
    let actions = summarize_recent_actions(field(&restore, "recent_actions"));
    let files = summarize_string_list(field(&restore, "active_files"), 3);

    assert!(notes.iter().all(|note| !note.contains("Последний запрос в модель:")));
    assert!(notes.iter().all(|note| !note.contains("Лимит клиента сейчас:")));
    assert_eq!(actions.as_deref(), Some("Поднять continuity runtime audit"));
    assert_eq!(files.as_deref(), Some("src/continuity.rs"));
}

#[test]
fn build_rotate_chat_details_ignores_empty_delivery_surface_status_label() {
    let guard = obj(vec![
        ("status_label", s("новый чат нужен сейчас")),
        ("delivery_surface_status_label", s("   ")),
        ("last_request", s("162594 из 258400")),
    ]);

    let details = build_rotate_chat_details(
        &guard,
        "Продолжить активную рабочую линию",
        "Сначала сожми текущий чат",
        &compact_wording,
    );

    assert!(details.contains("Client-budget advisory signal: сожми текущий чат сейчас."));
}

#[test]
fn rotate_and_compact_details_are_exact() {
    let guard = obj(vec![
        ("delivery_surface_status_label", s("поверхность")),
        ("last_request", s("10 из 20")),
        ("client_limits", s("последнее observed: 5ч 8%")),
        ("note", s("давление")),
    ]);
    assert_eq!(
        build_rotate_chat_details(&guard, "Линия", "Шаг", &compact_wording),
        "Client-budget advisory signal: поверхность.\nПоследний запрос в модель: 10 из 20.\nПоследний observed лимит клиента: последнее observed: 5ч 8%.\nПочему advisory-сигнал рекомендует rotate/compact: давление.\nПродолжить ту же рабочую линию: Линия.\nБлижайший обязательный следующий шаг в новой рабочей поверхности: Шаг."
    );
    assert_eq!(
        build_compact_chat_details(&obj(vec![]), "Линия", "Шаг", &compact_wording),
        "Запрошен compact-chat control для переноса рабочей линии на новую clean surface.\nСохраняем текущую рабочую линию: Линия.\nПосле clean-surface restore обязательный следующий шаг: Шаг."
    );
}

#[test]
fn startup_notes_drop_guard_repeats_and_update_old_wording() {
    let restore = obj(vec![(
        "materialized_notes",
        arr(vec![
            s("Client-budget guard: новый чат нужен сейчас"),
            s("  Лимит клиента сейчас: 5ч  "),
            s(" решение: новый чат рекомендован "),
            Json::Number(1),
            s("второе"),
            s("третье"),
        ]),
    )]);
    let notes = startup_materialized_notes(&restore, &compact_wording);
    assert_eq!(
        notes,
        vec!["решение: сожми текущий чат".to_string(), "второе".to_string(), "третье".to_string()]
    );
    assert_eq!(
        summarize_startup_materialized_notes(&restore, &compact_wording),
        Some("решение: сожми текущий чат; второе".to_string())
    );
    assert_eq!(summarize_startup_materialized_notes(&obj(vec![]), &compact_wording), None);
}

#[test]
fn display_client_budget_status_label_returns_none_when_all_labels_missing() {
    let guard = obj(vec![
        ("status_label", s("   ")),
        ("delivery_surface_status_label", s("")),
    ]);

    assert!(display_client_budget_status_label(&guard, &compact_wording).is_none());
}

#[test]
fn format_client_budget_status_label_for_human_preserves_missing_state() {
    assert_eq!(
        format_client_budget_status_label_for_human(
            &obj(vec![("status_label", s("сожми текущий чат сейчас"))]),
            &compact_wording
        ),
        "сожми текущий чат сейчас"
    );
    assert_eq!(
        format_client_budget_status_label_for_human(
            &obj(vec![("status_label", s("   "))]),
            &compact_wording
        ),
        "ещё нет данных"
    );
    assert_eq!(
        format_client_budget_status_label_for_human(&obj(vec![]), &compact_wording),
        "ещё нет данных"
    );
}

#[test]
fn status_label_is_trimmed_before_the_dashboard_wording() {
    assert_eq!(normalize_client_budget_status_label("  новый чат нужен сейчас \n", &compact_wording), "сожми текущий чат сейчас");
    assert_eq!(normalize_client_budget_status_label(" ok ", &compact_wording), "ok");
}

#[test]
fn missing_chat_answers_claim_no_temporal_match() {
    let handoff = project_handoff();
    for (intent, at, offset) in [("chat_at_time", Some("2025-01-01T10:00:00Z"), 1usize), ("previous_chat", None, 3usize)] {
        let text = answer(&handoff, None, None, intent, at, offset);
        assert!(!amai_continuity::answer::answer_mentions_temporal_match(&text));
        assert!(text.ends_with("Ближайший обязательный следующий шаг: Current project next step."));
    }
}
