//! The direct continuity answer: what the line was, where the chat ended or what it held
//! at a moment, and the next step, rendered as text lines.
use vstd::prelude::*;
use crate::advisory::{guard_of, notes_summary, shown_status_label, startup_notes, summarize_startup_materialized_notes};
use crate::answer::{
    chat_tail_headline, chat_tail_label, chat_tail_next_step, collapse_answer_text, collapsed_answer,
    extract_chat_tail_next_step, normalize_next_step_value, normalized_next_step, opt_string, opt_view,
    select_chat_tail_label, summarize_chat_tail_headline, ChatTail, ThreadTimeSliceSummary,
    TranscriptMessage,
};
use crate::json::{as_str, as_text, field, get, get_str, Json, JsonView};
use crate::labels::{format_optional_text_for_human, no_data, opt_text, text_or};
use crate::runtime_summaries::{
    continuity_decision_trace_summary, decision_trace_summary, recent_actions_summary,
    string_list_summary, summarize_recent_actions, summarize_string_list,
};
use crate::text::{chars_of, decimal, has_prefix, has_suffix, join, join_chars, push_str, str_eq, string_of, u64_to_string, views};

verus! {

/// The heading an answer opens with for each intent.
pub open spec fn answer_heading(intent: Seq<char>) -> Seq<char> {
    if intent == "continue"@ {
        "Продолжаем с этой линии:"@
    } else if intent == "handoff"@ {
        "Текущий handoff в Amai:"@
    } else if intent == "previous_chat"@ {
        "На чём закончился прошлый чат:"@
    } else if intent == "chat_at_time"@ {
        "Что было в чате на этот момент:"@
    } else {
        "На чём остановились:"@
    }
}

/// Whether the intent asks about a chat rather than the project line.
pub open spec fn is_chat_intent(intent: Seq<char>) -> bool {
    intent == "previous_chat"@ || intent == "chat_at_time"@
}

pub open spec fn str_or_empty(v: JsonView) -> Seq<char> {
    match as_str(v) {
        Some(s) => s,
        None => Seq::empty(),
    }
}

/// The project headline of a handoff summary, or the placeholder.
pub open spec fn project_headline(handoff: JsonView) -> Seq<char> {
    text_or(as_text(field(handoff, "headline"@)), no_data())
}

/// The normalised project next step of a handoff summary, or the placeholder.
pub open spec fn project_next_step(handoff: JsonView) -> Seq<char> {
    text_or(normalized_next_step(str_or_empty(field(handoff, "next_step"@))), no_data())
}

pub open spec fn project_line(headline: Seq<char>) -> Seq<char> {
    "Текущая активная линия проекта сейчас: "@ + headline
}

pub open spec fn next_step_line(step: Seq<char>) -> Seq<char> {
    "Ближайший обязательный следующий шаг: "@ + step
}

/// `prefix text` as a line when there is text.
pub open spec fn opt_line(o: Option<Seq<char>>, prefix: Seq<char>) -> Seq<Seq<char>> {
    match o {
        Some(t) => seq![prefix + t],
        None => Seq::empty(),
    }
}

/// The line naming how far back the chat lies, when it is more than one chat back.
pub open spec fn offset_lines(offset: nat) -> Seq<Seq<char>> {
    if offset > 1 {
        seq!["Смещение назад по чатам: "@ + decimal(offset)]
    } else {
        Seq::empty()
    }
}

/// The answer when no chat matches the asked moment.
pub open spec fn missing_moment_lines(
    heading: Seq<char>,
    at_time: Option<Seq<char>>,
    headline: Seq<char>,
    next_step: Seq<char>,
) -> Seq<Seq<char>> {
    seq![heading + " для этого момента нет точного совпадения в известных чатах."@] + opt_line(
        at_time,
        "Целевой момент времени: "@,
    ) + seq![project_line(headline), next_step_line(next_step)]
}

/// The answer when no chat lies that far back.
pub open spec fn missing_previous_lines(offset: nat, headline: Seq<char>, next_step: Seq<char>) -> Seq<Seq<char>> {
    seq!["На чём закончился прошлый чат: для такого смещения назад нет известного чата."@]
        + offset_lines(offset) + seq![project_line(headline), next_step_line(next_step)]
}

/// What the working-state restore adds to an answer about the project line, after its
/// materialised notes.
pub open spec fn restore_summary_lines(node: JsonView) -> Seq<Seq<char>> {
    let trace = field(node, "latest_decision_trace"@);
    opt_line(recent_actions_summary(field(node, "recent_actions"@)), "Последние действия: "@)
        + opt_line(string_list_summary(field(node, "active_files"@), 3), "Активные файлы: "@)
        + opt_line(
        decision_trace_summary(Some(trace), "included"@),
        "Почему вошёл текущий контекст: "@,
    ) + opt_line(decision_trace_summary(Some(trace), "not_included"@), "Почему часть не вошла: "@)
        + if as_str(field(node, "restore_confidence"@)) == Some("preliminary"@) {
        seq!["Статус continuity: предварительно, потому что живая выборка ещё маленькая."@]
    } else {
        Seq::empty()
    }
}

/// What the working-state restore adds to an answer about the project line.
pub open spec fn restore_lines(node: JsonView, shown: Option<Seq<char>>) -> Seq<Seq<char>> {
    opt_line(notes_summary(startup_notes(node, shown)), "Что уже materialized: "@)
        + restore_summary_lines(node)
}

pub open spec fn or_unknown(s: Seq<char>) -> Seq<char> {
    if s.len() == 0 {
        "неизвестно"@
    } else {
        s
    }
}

/// The time slice of a chat: its span and, when known, what the user was asking.
pub open spec fn slice_lines(slice: Option<ThreadTimeSliceSummary>) -> Seq<Seq<char>> {
    match slice {
        Some(sl) => seq![
            "Смысловой срез времени: "@ + or_unknown(sl.started_at@) + " -> "@ + or_unknown(sl.ended_at@),
        ] + if sl.user_anchor@.len() > 0 {
            seq!["О чём шёл разговор в этот момент: "@ + collapsed_answer(sl.user_anchor@, 220)]
        } else {
            Seq::empty()
        },
        None => Seq::empty(),
    }
}

pub open spec fn role_word(role: Seq<char>) -> Seq<char> {
    if role == "user"@ {
        "Ваше"@
    } else {
        "Моё"@
    }
}

pub open spec fn message_line(m: TranscriptMessage) -> Seq<char> {
    "- "@ + role_word(m.role@) + ": "@ + collapsed_answer(m.text@, 320)
}

/// The heading over the quoted messages.
pub open spec fn messages_heading(at_time: Option<Seq<char>>, intent: Seq<char>) -> Seq<char> {
    if at_time is Some {
        "Ближайшие сообщения к этому моменту:"@
    } else if intent == "previous_chat"@ {
        "Последние сообщения предыдущего чата:"@
    } else {
        "Последние сообщения этого чата:"@
    }
}

/// The quoted messages of a chat, under their heading, when there are any.
pub open spec fn message_lines(
    messages: Seq<TranscriptMessage>,
    at_time: Option<Seq<char>>,
    intent: Seq<char>,
) -> Seq<Seq<char>> {
    if messages.len() == 0 {
        Seq::empty()
    } else {
        seq![messages_heading(at_time, intent)] + messages.map_values(|m: TranscriptMessage| message_line(m))
    }
}

/// What a matched chat adds to an answer: the moment, the slice and the chat's label,
/// then its messages.
pub open spec fn tail_lines(
    tail: ChatTail,
    answer_headline: Seq<char>,
    intent: Seq<char>,
    at_time: Option<Seq<char>>,
) -> Seq<Seq<char>> {
    let title = chat_tail_label(tail, answer_headline);
    let head = match at_time {
        Some(at) => seq!["Целевой момент времени: "@ + at] + slice_lines(tail.selected_time_slice)
            + opt_line(title, "Подходящий chat thread: "@),
        None => if intent == "previous_chat"@ {
            opt_line(title, "Предыдущий чат по времени: "@)
        } else {
            opt_line(title, "Найденный chat thread: "@)
        },
    };
    head + message_lines(tail.messages@, at_time, intent)
}

pub open spec fn tail_headline(tail: Option<ChatTail>, intent: Seq<char>) -> Option<Seq<char>> {
    if is_chat_intent(intent) {
        match tail {
            Some(t) => chat_tail_headline(t),
            None => None,
        }
    } else {
        None
    }
}

pub open spec fn tail_next_step(tail: Option<ChatTail>, intent: Seq<char>) -> Option<Seq<char>> {
    if is_chat_intent(intent) {
        match tail {
            Some(t) => chat_tail_next_step(t),
            None => None,
        }
    } else {
        None
    }
}

/// Whether the answer consults the working-state restore (and so its client-budget
/// guard).
pub open spec fn consults_restore(intent: Seq<char>, restore: Option<JsonView>) -> bool {
    !is_chat_intent(intent) && restore is Some
}

pub open spec fn restore_node(restore: Option<JsonView>) -> JsonView {
    match restore {
        Some(r) => field(r, "working_state_restore"@),
        None => JsonView::Null,
    }
}

/// The lines of a direct answer, `shown` being how the restore's client-budget status
/// label is shown.
pub open spec fn direct_answer_lines(
    handoff: JsonView,
    restore: Option<JsonView>,
    tail: Option<ChatTail>,
    intent: Seq<char>,
    at_time: Option<Seq<char>>,
    offset: nat,
    shown: Option<Seq<char>>,
) -> Seq<Seq<char>> {
    let heading = answer_heading(intent);
    let headline = project_headline(handoff);
    let step = project_next_step(handoff);
    if intent == "chat_at_time"@ && tail is None {
        missing_moment_lines(heading, at_time, headline, step)
    } else if intent == "previous_chat"@ && tail is None {
        missing_previous_lines(offset, headline, step)
    } else {
        let answer_headline = text_or(tail_headline(tail, intent), headline);
        let answer_step = text_or(tail_next_step(tail, intent), step);
        seq![heading + " "@ + answer_headline] + (if intent == "previous_chat"@ {
            offset_lines(offset)
        } else {
            Seq::empty()
        }) + (if consults_restore(intent, restore) {
            restore_lines(restore_node(restore), shown)
        } else {
            Seq::empty()
        }) + (match tail {
            Some(t) => tail_lines(t, answer_headline, intent, at_time),
            None => Seq::empty(),
        }) + (if is_chat_intent(intent) && headline != no_data() && headline != answer_headline {
            seq![project_line(headline)]
        } else {
            Seq::empty()
        }) + seq![next_step_line(answer_step)]
    }
}

/// The direct answer: its lines joined with newlines.
pub open spec fn direct_answer(
    handoff: JsonView,
    restore: Option<JsonView>,
    tail: Option<ChatTail>,
    intent: Seq<char>,
    at_time: Option<Seq<char>>,
    offset: nat,
    shown: Option<Seq<char>>,
) -> Seq<char> {
    join(direct_answer_lines(handoff, restore, tail, intent, at_time, offset, shown), "\n"@)
}

pub open spec fn opt_json(o: Option<&Json>) -> Option<JsonView> {
    match o {
        Some(j) => Some(j@),
        None => None,
    }
}

pub open spec fn opt_tail(o: Option<&ChatTail>) -> Option<ChatTail> {
    match o {
        Some(t) => Some(*t),
        None => None,
    }
}

fn field_ref<'a>(v: &'a Json, key: &str) -> (r: &'a Json)
    ensures
        r@ == field(v@, key@),
{
    match get(v, key) {
        Some(x) => x,
        None => &Json::Null,
    }
}

fn text_line(prefix: &str, body: &str) -> (r: Vec<char>)
    ensures
        r@ == prefix@ + body@,
{
    let mut v: Vec<char> = Vec::new();
    push_str(&mut v, prefix);
    push_str(&mut v, body);
    v
}

fn push_line(lines: &mut Vec<Vec<char>>, line: Vec<char>)
    ensures
        views(final(lines)@) == views(old(lines)@).push(line@),
{
    let ghost before = views(lines@);
    let ghost lv = line@;
    lines.push(line);
    assert(views(lines@) =~= before.push(lv));
}

fn push_opt_line(lines: &mut Vec<Vec<char>>, body: Option<&str>, prefix: &str)
    ensures
        views(final(lines)@) == views(old(lines)@) + opt_line(opt_view(body), prefix@),
{
    match body {
        Some(b) => {
            let ghost before = views(lines@);
            push_line(lines, text_line(prefix, b));
            assert(views(lines@) =~= before + opt_line(opt_view(body), prefix@));
        },
        None => {
            assert(views(lines@) =~= views(lines@) + opt_line(opt_view(body), prefix@));
        },
    }
}

fn as_opt_str(o: &Option<String>) -> (r: Option<&str>)
    ensures
        opt_view(r) == opt_string(*o),
{
    match o {
        Some(s) => Some(s.as_str()),
        None => None,
    }
}

fn push_offset_line(lines: &mut Vec<Vec<char>>, offset: usize)
    ensures
        views(final(lines)@) == views(old(lines)@) + offset_lines(offset as nat),
{
    if offset > 1 {
        let n = u64_to_string(offset as u64);
        let ghost before = views(lines@);
        push_line(lines, text_line("Смещение назад по чатам: ", n.as_str()));
        assert(views(lines@) =~= before + offset_lines(offset as nat));
    } else {
        assert(views(lines@) =~= views(lines@) + offset_lines(offset as nat));
    }
}

fn push_restore_summary_lines(lines: &mut Vec<Vec<char>>, node: &Json)
    ensures
        views(final(lines)@) == views(old(lines)@) + restore_summary_lines(node@),
{
    let ghost start = views(lines@);
    let actions = summarize_recent_actions(field_ref(node, "recent_actions"));
    push_opt_line(lines, as_opt_str(&actions), "Последние действия: ");
    let ghost l1 = views(lines@);
    let files = summarize_string_list(field_ref(node, "active_files"), 3);
    push_opt_line(lines, as_opt_str(&files), "Активные файлы: ");
    let ghost l2 = views(lines@);
    let trace = field_ref(node, "latest_decision_trace");
    let included = continuity_decision_trace_summary(Some(trace), "included");
    push_opt_line(lines, as_opt_str(&included), "Почему вошёл текущий контекст: ");
    let ghost l3 = views(lines@);
    let excluded = continuity_decision_trace_summary(Some(trace), "not_included");
    push_opt_line(lines, as_opt_str(&excluded), "Почему часть не вошла: ");
    let ghost l4 = views(lines@);
    let preliminary = match get_str(node, "restore_confidence") {
        Some(c) => str_eq(c, "preliminary"),
        None => false,
    };
    if preliminary {
        push_line(lines, chars_of("Статус continuity: предварительно, потому что живая выборка ещё маленькая."));
    }
    proof {
        let trace_v = field(node@, "latest_decision_trace"@);
        assert(l1 == start + opt_line(recent_actions_summary(field(node@, "recent_actions"@)), "Последние действия: "@));
        assert(l2 == l1 + opt_line(string_list_summary(field(node@, "active_files"@), 3), "Активные файлы: "@));
        assert(l3 == l2 + opt_line(decision_trace_summary(Some(trace_v), "included"@), "Почему вошёл текущий контекст: "@));
        assert(l4 == l3 + opt_line(decision_trace_summary(Some(trace_v), "not_included"@), "Почему часть не вошла: "@));
        assert(views(lines@) =~= start + restore_summary_lines(node@));
    }
}

fn push_restore_lines<F: Fn(&str) -> String>(lines: &mut Vec<Vec<char>>, node: &Json, display: &F)
    requires
        forall|s: &str| #[trigger] display.requires((s,)),
    ensures
        exists|shown: Option<Seq<char>>| #[trigger] shown_status_label(*display, guard_of(node@), shown)
            && views(final(lines)@) == views(old(lines)@) + restore_lines(node@, shown),
{
    let ghost start = views(lines@);
    let notes = summarize_startup_materialized_notes(node, display);
    let ghost shown = choose|shown: Option<Seq<char>>|
        #[trigger] shown_status_label(*display, guard_of(node@), shown) && opt_string(notes)
            == notes_summary(startup_notes(node@, shown));
    push_opt_line(lines, as_opt_str(&notes), "Что уже materialized: ");
    let ghost mid = views(lines@);
    push_restore_summary_lines(lines, node);
    proof {
        assert(views(lines@) =~= start + restore_lines(node@, shown));
    }
}

fn or_unknown_exec(s: &str) -> (r: &str)
    ensures
        r@ == or_unknown(s@),
{
    if s.unicode_len() == 0 {
        "неизвестно"
    } else {
        s
    }
}

fn push_slice_lines(lines: &mut Vec<Vec<char>>, slice: &Option<ThreadTimeSliceSummary>)
    ensures
        views(final(lines)@) == views(old(lines)@) + slice_lines(*slice),
{
    let ghost start = views(lines@);
    match slice {
        Some(sl) => {
            let mut l: Vec<char> = Vec::new();
            push_str(&mut l, "Смысловой срез времени: ");
            push_str(&mut l, or_unknown_exec(sl.started_at.as_str()));
            push_str(&mut l, " -> ");
            push_str(&mut l, or_unknown_exec(sl.ended_at.as_str()));
            push_line(lines, l);
            if sl.user_anchor.as_str().unicode_len() > 0 {
                let anchor = collapse_answer_text(sl.user_anchor.as_str(), 220);
                push_line(lines, text_line("О чём шёл разговор в этот момент: ", anchor.as_str()));
            }
            assert(views(lines@) =~= start + slice_lines(*slice));
        },
        None => {
            assert(views(lines@) =~= start + slice_lines(*slice));
        },
    }
}

fn push_message_lines(
    lines: &mut Vec<Vec<char>>,
    messages: &Vec<TranscriptMessage>,
    at_time: Option<&str>,
    intent: &str,
)
    ensures
        views(final(lines)@) == views(old(lines)@) + message_lines(messages@, opt_view(at_time), intent@),
{
    let ghost start = views(lines@);
    if messages.len() == 0 {
        assert(views(lines@) =~= start + message_lines(messages@, opt_view(at_time), intent@));
        return;
    }
    let heading = if at_time.is_some() {
        "Ближайшие сообщения к этому моменту:"
    } else if str_eq(intent, "previous_chat") {
        "Последние сообщения предыдущего чата:"
    } else {
        "Последние сообщения этого чата:"
    };
    push_line(lines, chars_of(heading));
    let ghost with_heading = views(lines@);
    let ghost quoted = messages@.map_values(|m: TranscriptMessage| message_line(m));
    let mut i: usize = 0;
    while i < messages.len()
        invariant
            i <= messages@.len(),
            quoted == messages@.map_values(|m: TranscriptMessage| message_line(m)),
            views(lines@) == with_heading + quoted.take(i as int),
        decreases messages@.len() - i,
    {
        let m = &messages[i];
        let role = if str_eq(m.role.as_str(), "user") {
            "Ваше"
        } else {
            "Моё"
        };
        let body = collapse_answer_text(m.text.as_str(), 320);
        let mut l: Vec<char> = Vec::new();
        push_str(&mut l, "- ");
        push_str(&mut l, role);
        push_str(&mut l, ": ");
        push_str(&mut l, body.as_str());
        assert(l@ == message_line(messages@[i as int]));
        let ghost before = views(lines@);
        push_line(lines, l);
        assert(quoted.take(i + 1) =~= quoted.take(i as int).push(quoted[i as int]));
        assert(views(lines@) =~= with_heading + quoted.take(i + 1));
        i = i + 1;
    }
    assert(quoted.take(messages@.len() as int) =~= quoted);
    assert(views(lines@) =~= start + message_lines(messages@, opt_view(at_time), intent@));
}

fn push_tail_lines(
    lines: &mut Vec<Vec<char>>,
    tail: &ChatTail,
    answer_headline: &str,
    intent: &str,
    at_time: Option<&str>,
)
    ensures
        views(final(lines)@) == views(old(lines)@) + tail_lines(*tail, answer_headline@, intent@, opt_view(at_time)),
{
    let ghost start = views(lines@);
    let title = select_chat_tail_label(tail, answer_headline);
    match at_time {
        Some(at) => {
            push_line(lines, text_line("Целевой момент времени: ", at));
            push_slice_lines(lines, &tail.selected_time_slice);
            push_opt_line(lines, as_opt_str(&title), "Подходящий chat thread: ");
        },
        None => {
            if str_eq(intent, "previous_chat") {
                push_opt_line(lines, as_opt_str(&title), "Предыдущий чат по времени: ");
            } else {
                push_opt_line(lines, as_opt_str(&title), "Найденный chat thread: ");
            }
        },
    }
    let ghost head = views(lines@);
    push_message_lines(lines, &tail.messages, at_time, intent);
    assert(views(lines@) =~= start + tail_lines(*tail, answer_headline@, intent@, opt_view(at_time)));
}

fn heading_exec(intent: &str) -> (r: &'static str)
    ensures
        r@ == answer_heading(intent@),
{
    if str_eq(intent, "continue") {
        "Продолжаем с этой линии:"
    } else if str_eq(intent, "handoff") {
        "Текущий handoff в Amai:"
    } else if str_eq(intent, "previous_chat") {
        "На чём закончился прошлый чат:"
    } else if str_eq(intent, "chat_at_time") {
        "Что было в чате на этот момент:"
    } else {
        "На чём остановились:"
    }
}

pub(crate) fn project_next_step_exec(handoff: &Json) -> (r: String)
    ensures
        r@ == project_next_step(handoff@),
{
    let raw = match get_str(handoff, "next_step") {
        Some(s) => s,
        None => "",
    };
    proof {
        reveal_strlit("");
        assert(raw@ == str_or_empty(field(handoff@, "next_step"@)));
    }
    match normalize_next_step_value(raw) {
        Some(s) => s,
        None => "ещё нет данных".to_string(),
    }
}

fn join_lines(lines: &Vec<Vec<char>>) -> (r: String)
    ensures
        r@ == join(views(lines@), "\n"@),
{
    let nl = chars_of("\n");
    let joined = join_chars(lines, nl.as_slice());
    string_of(joined.as_slice())
}

pub fn render_direct_answer<F: Fn(&str) -> String>(
    handoff_summary: &Json,
    restore: Option<&Json>,
    chat_tail: Option<&ChatTail>,
    intent: &str,
    at_time_rfc3339: Option<&str>,
    previous_chat_offset: usize,
    status_label_display: &F,
) -> (r: String)
    requires
        forall|s: &str| #[trigger] status_label_display.requires((s,)),
    ensures
        consults_restore(intent@, opt_json(restore)) ==> exists|shown: Option<Seq<char>>|
            #[trigger] shown_status_label(*status_label_display, guard_of(restore_node(opt_json(restore))), shown)
                && r@ == direct_answer(
                handoff_summary@,
                opt_json(restore),
                opt_tail(chat_tail),
                intent@,
                opt_view(at_time_rfc3339),
                previous_chat_offset as nat,
                shown,
            ),
        !consults_restore(intent@, opt_json(restore)) ==> r@ == direct_answer(
            handoff_summary@,
            opt_json(restore),
            opt_tail(chat_tail),
            intent@,
            opt_view(at_time_rfc3339),
            previous_chat_offset as nat,
            None,
        ),
{
    let heading = heading_exec(intent);
    let raw_headline = get_str(handoff_summary, "headline");
    let headline = format_optional_text_for_human(raw_headline);
    assert(opt_text(raw_headline) == as_text(field(handoff_summary@, "headline"@)));
    let project_step = project_next_step_exec(handoff_summary);
    let chat_intent = str_eq(intent, "previous_chat") || str_eq(intent, "chat_at_time");
    let ghost h = handoff_summary@;
    let ghost rv = opt_json(restore);
    let ghost tv = opt_tail(chat_tail);
    let ghost av = opt_view(at_time_rfc3339);
    let ghost off = previous_chat_offset as nat;
    let mut lines: Vec<Vec<char>> = Vec::new();
    if str_eq(intent, "chat_at_time") && chat_tail.is_none() {
        let mut first: Vec<char> = Vec::new();
        push_str(&mut first, heading);
        push_str(&mut first, " для этого момента нет точного совпадения в известных чатах.");
        push_line(&mut lines, first);
        push_opt_line(&mut lines, at_time_rfc3339, "Целевой момент времени: ");
        push_line(&mut lines, text_line("Текущая активная линия проекта сейчас: ", headline.as_str()));
        push_line(&mut lines, text_line("Ближайший обязательный следующий шаг: ", project_step.as_str()));
        proof {
            assert(views(lines@) =~= direct_answer_lines(h, rv, tv, intent@, av, off, None));
        }
        return join_lines(&lines);
    }
    if str_eq(intent, "previous_chat") && chat_tail.is_none() {
        push_line(
            &mut lines,
            chars_of("На чём закончился прошлый чат: для такого смещения назад нет известного чата."),
        );
        push_offset_line(&mut lines, previous_chat_offset);
        push_line(&mut lines, text_line("Текущая активная линия проекта сейчас: ", headline.as_str()));
        push_line(&mut lines, text_line("Ближайший обязательный следующий шаг: ", project_step.as_str()));
        proof {
            assert(views(lines@) =~= direct_answer_lines(h, rv, tv, intent@, av, off, None));
        }
        return join_lines(&lines);
    }
    let thread_headline = if chat_intent {
        match chat_tail {
            Some(t) => summarize_chat_tail_headline(t),
            None => None,
        }
    } else {
        None
    };
    let thread_step = if chat_intent {
        match chat_tail {
            Some(t) => extract_chat_tail_next_step(t),
            None => None,
        }
    } else {
        None
    };
    let answer_headline = match thread_headline {
        Some(t) => t,
        None => headline.clone(),
    };
    let answer_step = match thread_step {
        Some(t) => t,
        None => project_step.clone(),
    };
    assert(answer_headline@ == text_or(tail_headline(tv, intent@), headline@));
    assert(answer_step@ == text_or(tail_next_step(tv, intent@), project_step@));
    let mut first: Vec<char> = Vec::new();
    push_str(&mut first, heading);
    push_str(&mut first, " ");
    push_str(&mut first, answer_headline.as_str());
    push_line(&mut lines, first);
    let ghost l1 = views(lines@);
    if str_eq(intent, "previous_chat") {
        push_offset_line(&mut lines, previous_chat_offset);
    }
    let ghost l2 = views(lines@);
    let ghost mut shown: Option<Seq<char>> = None;
    if !chat_intent && restore.is_some() {
        let node = field_ref(restore.unwrap(), "working_state_restore");
        push_restore_lines(&mut lines, node, status_label_display);
        proof {
            shown = choose|s: Option<Seq<char>>|
                #[trigger] shown_status_label(*status_label_display, guard_of(node@), s) && views(lines@)
                    == l2 + restore_lines(node@, s);
        }
    }
    let ghost l3 = views(lines@);
    match chat_tail {
        Some(t) => push_tail_lines(&mut lines, t, answer_headline.as_str(), intent, at_time_rfc3339),
        None => {},
    }
    let ghost l4 = views(lines@);
    if chat_intent && !str_eq(headline.as_str(), "ещё нет данных") && !str_eq(headline.as_str(), answer_headline.as_str()) {
        push_line(&mut lines, text_line("Текущая активная линия проекта сейчас: ", headline.as_str()));
    }
    push_line(&mut lines, text_line("Ближайший обязательный следующий шаг: ", answer_step.as_str()));
    proof {
        assert(views(lines@) =~= direct_answer_lines(h, rv, tv, intent@, av, off, shown));
    }
    join_lines(&lines)
}

/// A direct answer always ends with the next mandatory step: the chat's own when the
/// question is about a chat that names one, else the project's.
pub proof fn lemma_direct_answer_ends_with_next_step(
    handoff: JsonView,
    restore: Option<JsonView>,
    tail: Option<ChatTail>,
    intent: Seq<char>,
    at_time: Option<Seq<char>>,
    offset: nat,
    shown: Option<Seq<char>>,
)
    ensures
        direct_answer_lines(handoff, restore, tail, intent, at_time, offset, shown).len() > 0,
        direct_answer_lines(handoff, restore, tail, intent, at_time, offset, shown).last() == next_step_line(
            text_or(tail_next_step(tail, intent), project_next_step(handoff)),
        ),
{
}

/// When the chat asked about is not known, the answer says so and still names the
/// project's current line and next step; it shows no chat.
pub proof fn lemma_missing_chat_answer_is_honest(
    handoff: JsonView,
    restore: Option<JsonView>,
    intent: Seq<char>,
    at_time: Option<Seq<char>>,
    offset: nat,
    shown: Option<Seq<char>>,
)
    requires
        is_chat_intent(intent),
    ensures
        ({
            let lines = direct_answer_lines(handoff, restore, None, intent, at_time, offset, shown);
            &&& lines.len() >= 3
            &&& lines[lines.len() - 2] == project_line(project_headline(handoff))
            &&& lines.last() == next_step_line(project_next_step(handoff))
            &&& lines[0] == if intent == "chat_at_time"@ {
                answer_heading(intent) + " для этого момента нет точного совпадения в известных чатах."@
            } else {
                "На чём закончился прошлый чат: для такого смещения назад нет известного чата."@
            }
        }),
{
}


/// A law of direct answers, read as text: when the chat asked about is not known, the
/// answer's first line is the plain statement that no such chat is known (for a moment in
/// time, that no known chat matches it exactly), and the answer ends with a line naming
/// the project's next mandatory step.
pub proof fn lemma_missing_chat_answer_text(
    handoff: JsonView,
    restore: Option<JsonView>,
    intent: Seq<char>,
    at_time: Option<Seq<char>>,
    offset: nat,
    shown: Option<Seq<char>>,
)
    requires
        is_chat_intent(intent),
    ensures
        ({
            let t = direct_answer(handoff, restore, None, intent, at_time, offset, shown);
            let first = if intent == "chat_at_time"@ {
                "Что было в чате на этот момент: для этого момента нет точного совпадения в известных чатах."@
            } else {
                "На чём закончился прошлый чат: для такого смещения назад нет известного чата."@
            };
            &&& has_prefix(t, first + "\n"@)
            &&& !crate::text::contains(first, "\n"@)
            &&& has_suffix(t, "\n"@ + next_step_line(project_next_step(handoff)))
            &&& intent == "chat_at_time"@ && at_time is Some ==> has_prefix(
                t,
                first + "\n"@ + "Целевой момент времени: "@ + at_time->0 + "\n"@,
            )
        }),
{
    lemma_missing_chat_answer_is_honest(handoff, restore, intent, at_time, offset, shown);
    let lines = direct_answer_lines(handoff, restore, None, intent, at_time, offset, shown);
    crate::text::lemma_join_starts_with_first(lines, "\n"@);
    crate::text::lemma_join_ends_with_last(lines, "\n"@);
    reveal_strlit("Что было в чате на этот момент:");
    reveal_strlit(" для этого момента нет точного совпадения в известных чатах.");
    reveal_strlit("Что было в чате на этот момент: для этого момента нет точного совпадения в известных чатах.");
    reveal_strlit("На чём закончился прошлый чат: для такого смещения назад нет известного чата.");
    reveal_strlit("\n");
    let first = if intent == "chat_at_time"@ {
        "Что было в чате на этот момент: для этого момента нет точного совпадения в известных чатах."@
    } else {
        "На чём закончился прошлый чат: для такого смещения назад нет известного чата."@
    };
    if intent == "chat_at_time"@ {
        reveal_strlit("continue");
        reveal_strlit("handoff");
        reveal_strlit("previous_chat");
        reveal_strlit("chat_at_time");
        assert("continue"@.len() == 8 && "handoff"@.len() == 7 && "chat_at_time"@.len() == 12);
        assert("previous_chat"@.len() == 13);
        assert(answer_heading(intent) == "Что было в чате на этот момент:"@);
        assert(answer_heading(intent) + " для этого момента нет точного совпадения в известных чатах."@
            =~= first);
    }
    assert(lines[0] == first);
    if intent == "chat_at_time"@ && at_time is Some {
        crate::text::lemma_join_starts_with_parts(lines, "\n"@, 2);
        let two = lines.take(2);
        assert(two.drop_last() =~= seq![first]);
        assert(join(two.drop_last(), "\n"@) == first);
        assert(two.last() == "Целевой момент времени: "@ + at_time->0);
        assert(join(two, "\n"@) + "\n"@ =~= first + "\n"@ + "Целевой момент времени: "@ + at_time->0
            + "\n"@);
    }
    if crate::text::contains(first, "\n"@) {
        let i = choose|i: int| crate::text::occurs_at(first, "\n"@, i);
        assert(first.subrange(i, i + 1)[0] == first[i]);
        assert(first[i] != '\n');
    }
}

/// A marker heading's shape: it ends with its only `:`, opens with neither a space nor a
/// digit, and holds no line break.
pub open spec fn marker_shape(m: Seq<char>) -> bool {
    &&& m.len() >= 2
    &&& m.last() == ':'
    &&& forall|j: int| 0 <= j < m.len() - 1 ==> #[trigger] m[j] != ':'
    &&& m[0] != ' '
    &&& !('0' <= m[0] && m[0] <= '9')
    &&& forall|j: int| 0 <= j < m.len() ==> #[trigger] m[j] != '\n'
}

/// Fixed text whose only `:` stands at `c`, and which a marker `m` cannot end at.
pub open spec fn colon_at_only(f: Seq<char>, c: int, m: Seq<char>) -> bool {
    &&& 0 <= c < f.len()
    &&& f[c] == ':'
    &&& forall|k: int| 0 <= k < f.len() && #[trigger] f[k] == ':' ==> k == c
    &&& (c + 1 < m.len() || f[c + 1 - m.len()] != m[0])
}

proof fn lemma_occurrence_char(s: Seq<char>, m: Seq<char>, i: int, j: int)
    requires
        crate::text::occurs_at(s, m, i),
        0 <= j < m.len(),
    ensures
        s[i + j] == m[j],
{
    assert(s.subrange(i, i + m.len())[j] == s[i + j]);
}

/// Fixed text with a single `:` that a marker cannot end at holds no marker.
proof fn lemma_fixed_holds_no_marker(f: Seq<char>, c: int, m: Seq<char>)
    requires
        marker_shape(m),
        colon_at_only(f, c, m),
    ensures
        !crate::text::contains(f, m),
{
    if crate::text::contains(f, m) {
        let i = choose|i: int| crate::text::occurs_at(f, m, i);
        lemma_occurrence_char(f, m, i, m.len() - 1);
        assert(f[i + m.len() - 1] == ':');
        lemma_occurrence_char(f, m, i, 0);
    }
}

/// `p` followed by text `u`, where `p` ends with `: ` at its only `:`, holds a marker only
/// where `u` does.
proof fn lemma_prefixed_holds_no_marker(p: Seq<char>, u: Seq<char>, m: Seq<char>)
    requires
        marker_shape(m),
        colon_at_only(p, p.len() - 2, m),
        p[p.len() - 1] == ' ',
        !crate::text::contains(u, m),
    ensures
        !crate::text::contains(p + u, m),
{
    let l = p + u;
    if crate::text::contains(l, m) {
        let i = choose|i: int| crate::text::occurs_at(l, m, i);
        let c = p.len() - 2;
        if i >= p.len() {
            assert(l.subrange(i, i + m.len()) =~= u.subrange(i - p.len(), i - p.len() + m.len()));
            assert(crate::text::occurs_at(u, m, i - p.len()));
        } else if i == p.len() - 1 {
            lemma_occurrence_char(l, m, i, 0);
            assert(l[i] == p[i]);
        } else {
            let e = i + m.len() - 1;
            lemma_occurrence_char(l, m, i, m.len() - 1);
            if e < p.len() {
                assert(l[e] == p[e]);
                lemma_occurrence_char(l, m, i, 0);
                assert(l[i] == p[i]);
            } else {
                lemma_occurrence_char(l, m, i, c - i);
                assert(l[c] == p[c]);
            }
        }
    }
}

/// An occurrence of text without a line break in lines joined by line breaks lies in one
/// of the lines.
proof fn lemma_joined_occurrence(ls: Seq<Seq<char>>, m: Seq<char>)
    requires
        m.len() > 0,
        forall|j: int| 0 <= j < m.len() ==> #[trigger] m[j] != '\n',
        forall|k: int| 0 <= k < ls.len() ==> !crate::text::contains(#[trigger] ls[k], m),
    ensures
        !crate::text::contains(join(ls, "\n"@), m),
    decreases ls.len(),
{
    reveal_strlit("\n");
    if ls.len() == 0 {
        if crate::text::contains(join(ls, "\n"@), m) {
            let i = choose|i: int| crate::text::occurs_at(join(ls, "\n"@), m, i);
        }
    } else if ls.len() == 1 {
        assert(!crate::text::contains(ls[0], m));
    } else {
        let p = ls.drop_last();
        assert forall|k: int| 0 <= k < p.len() implies !crate::text::contains(#[trigger] p[k], m) by {
            assert(p[k] == ls[k]);
        }
        lemma_joined_occurrence(p, m);
        let a = join(p, "\n"@);
        let b = ls.last();
        let t = join(ls, "\n"@);
        assert(t == a + "\n"@ + b);
        if crate::text::contains(t, m) {
            let i = choose|i: int| crate::text::occurs_at(t, m, i);
            if i + m.len() <= a.len() {
                assert(t.subrange(i, i + m.len()) =~= a.subrange(i, i + m.len()));
                assert(crate::text::occurs_at(a, m, i));
            } else if i > a.len() {
                assert(t.subrange(i, i + m.len()) =~= b.subrange(i - a.len() - 1, i - a.len() - 1 + m.len()));
                assert(crate::text::occurs_at(b, m, i - a.len() - 1));
                assert(!crate::text::contains(ls[ls.len() - 1], m));
            } else {
                lemma_occurrence_char(t, m, i, a.len() - i);
                assert(t[a.len() as int] == '\n');
            }
        }
    }
}

proof fn lemma_decimal_digits(n: nat)
    ensures
        forall|i: int| 0 <= i < decimal(n).len() ==> '0' <= #[trigger] decimal(n)[i] && decimal(n)[i] <= '9',
    decreases n,
{
    if n >= 10 {
        lemma_decimal_digits(n / 10);
        let d = decimal(n);
        let p = decimal(n / 10);
        assert forall|i: int| 0 <= i < d.len() implies '0' <= #[trigger] d[i] && d[i] <= '9' by {
            if i < p.len() {
                assert(d[i] == p[i]);
            }
        }
    }
}

proof fn lemma_decimal_holds_no_marker(n: nat, m: Seq<char>)
    requires
        marker_shape(m),
    ensures
        !crate::text::contains(decimal(n), m),
{
    lemma_decimal_digits(n);
    if crate::text::contains(decimal(n), m) {
        let i = choose|i: int| crate::text::occurs_at(decimal(n), m, i);
        lemma_occurrence_char(decimal(n), m, i, 0);
    }
}

/// The fixed texts of a missing-chat answer and the marker headings, read character by
/// character.
proof fn lemma_marker_facts(k: int)
    requires
        0 <= k < 6,
    ensures
        ({
            let m = crate::answer::temporal_markers()[k];
            &&& marker_shape(m)
            &&& colon_at_only(
                "Что было в чате на этот момент: для этого момента нет точного совпадения в известных чатах."@,
                30,
                m,
            )
            &&& colon_at_only("На чём закончился прошлый чат: для такого смещения назад нет известного чата."@, 29, m)
            &&& colon_at_only("Целевой момент времени: "@, 22, m)
            &&& colon_at_only("Смещение назад по чатам: "@, 23, m)
            &&& colon_at_only("Текущая активная линия проекта сейчас: "@, 37, m)
            &&& colon_at_only("Ближайший обязательный следующий шаг: "@, 36, m)
            &&& "Целевой момент времени: "@.len() == 24 && "Целевой момент времени: "@[23] == ' '
            &&& "Смещение назад по чатам: "@.len() == 25 && "Смещение назад по чатам: "@[24] == ' '
            &&& "Текущая активная линия проекта сейчас: "@.len() == 39
            &&& "Текущая активная линия проекта сейчас: "@[38] == ' '
            &&& "Ближайший обязательный следующий шаг: "@.len() == 38
            &&& "Ближайший обязательный следующий шаг: "@[37] == ' '
        }),
{
    reveal_strlit("Предыдущий чат по времени:");
    reveal_strlit("Подходящий chat thread:");
    reveal_strlit("Найденный chat thread:");
    reveal_strlit("Последние сообщения предыдущего чата:");
    reveal_strlit("Ближайшие сообщения к этому моменту:");
    reveal_strlit("Смысловой срез времени:");
    reveal_strlit("Что было в чате на этот момент: для этого момента нет точного совпадения в известных чатах.");
    reveal_strlit("На чём закончился прошлый чат: для такого смещения назад нет известного чата.");
    reveal_strlit("Целевой момент времени: ");
    reveal_strlit("Смещение назад по чатам: ");
    reveal_strlit("Текущая активная линия проекта сейчас: ");
    reveal_strlit("Ближайший обязательный следующий шаг: ");
}

/// A law of direct answers: when the chat asked about is not known, and neither the
/// project's headline and next step as shown nor the asked moment holds a marker heading,
/// the answer holds none of the headings that report a chat matched by time or order; it
/// claims no chat it did not find.
pub proof fn lemma_missing_chat_answer_claims_no_match(
    handoff: JsonView,
    restore: Option<JsonView>,
    intent: Seq<char>,
    at_time: Option<Seq<char>>,
    offset: nat,
    shown: Option<Seq<char>>,
)
    requires
        is_chat_intent(intent),
        forall|k: int|
            0 <= k < 6 ==> !crate::text::contains(project_headline(handoff), #[trigger] crate::answer::temporal_markers()[k]),
        forall|k: int|
            0 <= k < 6 ==> !crate::text::contains(project_next_step(handoff), #[trigger] crate::answer::temporal_markers()[k]),
        forall|k: int|
            0 <= k < 6 ==> (at_time matches Some(a) ==> !crate::text::contains(a, #[trigger] crate::answer::temporal_markers()[k])),
    ensures
        !exists|k: int|
            0 <= k < 6 && crate::text::contains(
                direct_answer(handoff, restore, None, intent, at_time, offset, shown),
                #[trigger] crate::answer::temporal_markers()[k],
            ),
{
    let lines = direct_answer_lines(handoff, restore, None, intent, at_time, offset, shown);
    let h = project_headline(handoff);
    let st = project_next_step(handoff);
    reveal_strlit("chat_at_time");
    reveal_strlit("previous_chat");
    reveal_strlit("continue");
    reveal_strlit("handoff");
    assert("continue"@.len() == 8 && "handoff"@.len() == 7 && "chat_at_time"@.len() == 12);
    assert("previous_chat"@.len() == 13);
    assert forall|k: int| 0 <= k < 6 implies !crate::text::contains(
        direct_answer(handoff, restore, None, intent, at_time, offset, shown),
        #[trigger] crate::answer::temporal_markers()[k],
    ) by {
        let m = crate::answer::temporal_markers()[k];
        lemma_marker_facts(k);
        lemma_prefixed_holds_no_marker("Текущая активная линия проекта сейчас: "@, h, m);
        lemma_prefixed_holds_no_marker("Ближайший обязательный следующий шаг: "@, st, m);
        assert forall|j: int| 0 <= j < lines.len() implies !crate::text::contains(#[trigger] lines[j], m) by {
            if intent == "chat_at_time"@ {
                let first = "Что было в чате на этот момент: для этого момента нет точного совпадения в известных чатах."@;
                lemma_fixed_holds_no_marker(first, 30, m);
                reveal_strlit("Что было в чате на этот момент:");
                reveal_strlit(" для этого момента нет точного совпадения в известных чатах.");
                reveal_strlit("Что было в чате на этот момент: для этого момента нет точного совпадения в известных чатах.");
                assert(answer_heading(intent) + " для этого момента нет точного совпадения в известных чатах."@ =~= first);
                match at_time {
                    Some(a) => {
                        lemma_prefixed_holds_no_marker("Целевой момент времени: "@, a, m);
                    },
                    None => {},
                }
            } else {
                lemma_fixed_holds_no_marker(
                    "На чём закончился прошлый чат: для такого смещения назад нет известного чата."@,
                    29,
                    m,
                );
                lemma_decimal_holds_no_marker(offset, m);
                lemma_prefixed_holds_no_marker("Смещение назад по чатам: "@, decimal(offset), m);
            }
        }
        lemma_joined_occurrence(lines, m);
    }
}

} // verus!

