//! Client-budget advisory lines shown to the operator: the status label of a guard, the
//! details of rotate-chat and compact-chat, and the notes that startup materialised.
//!
//! The legacy `status_label` of a guard is shown through a display rule that belongs to
//! the dashboard; callers hand that rule in as a closure, and the contracts here hold for
//! whatever text it gives.
use vstd::prelude::*;
use crate::answer::opt_view;
use crate::budget::{advisory_text, normalize_client_budget_advisory_text};
use crate::json::{as_array, as_str, as_text, field, get, get_text, items_view, lemma_items_view, Json, JsonView};
use crate::labels::{no_data, text_or};
use crate::runtime_summaries::{client_limits_surface_label, limits_last_observed};
use crate::text::{chars_of, has_prefix, join, join_chars, push_str, starts_with, string_of, trim, trim_chars, views};

verus! {

/// Whether the display rule may show the legacy label `label` as `shown`.
pub open spec fn shown_as<F: Fn(&str) -> String>(display: F, label: Seq<char>, shown: Seq<char>) -> bool {
    exists|s: &str, out: String| s@ == label && out@ == shown && #[trigger] display.ensures((s,), out)
}

/// How a guard's status label is shown: the trimmed delivery-surface label when there is
/// one, else the trimmed legacy label through the display rule, else nothing.
pub open spec fn shown_status_label<F: Fn(&str) -> String>(
    display: F,
    guard: JsonView,
    shown: Option<Seq<char>>,
) -> bool {
    match as_text(field(guard, "delivery_surface_status_label"@)) {
        Some(d) => shown == Some(d),
        None => match as_text(field(guard, "status_label"@)) {
            Some(l) => shown matches Some(t) && shown_as(display, l, t),
            None => shown is None,
        },
    }
}

/// A legacy status label as the dashboard shows it: trimmed, then through the display
/// rule.
pub fn normalize_client_budget_status_label<F: Fn(&str) -> String>(status_label: &str, display: &F) -> (r: String)
    requires
        forall|s: &str| #[trigger] display.requires((s,)),
    ensures
        shown_as(*display, trim(status_label@), r@),
{
    let t = crate::text::trim_str(status_label);
    let out = display(t);
    assert(display.ensures((t,), out));
    out
}

pub fn display_client_budget_status_label<F: Fn(&str) -> String>(guard: &Json, display: &F) -> (r: Option<String>)
    requires
        forall|s: &str| #[trigger] display.requires((s,)),
    ensures
        shown_status_label(*display, guard@, crate::answer::opt_string(r)),
{
    match get_text(guard, "delivery_surface_status_label") {
        Some(t) => return Some(t.to_string()),
        None => {},
    }
    match get_text(guard, "status_label") {
        Some(l) => {
            proof {
                crate::text::lemma_trim_idempotent(as_str(field(guard@, "status_label"@))->Some_0);
                assert(trim(l@) == l@);
            }
            Some(normalize_client_budget_status_label(l, display))
        },
        None => None,
    }
}

/// The shown status label, or the missing-data placeholder.
pub fn format_client_budget_status_label_for_human<F: Fn(&str) -> String>(guard: &Json, display: &F) -> (r: String)
    requires
        forall|s: &str| #[trigger] display.requires((s,)),
    ensures
        exists|shown: Option<Seq<char>>| #[trigger] shown_status_label(*display, guard@, shown) && r@ == text_or(shown, no_data()),
{
    let shown = display_client_budget_status_label(guard, display);
    assert(shown_status_label(*display, guard@, crate::answer::opt_string(shown)));
    match shown {
        Some(t) => t,
        None => "ещё нет данных".to_string(),
    }
}

/// `prefix text.` as a line when there is text.
pub open spec fn line_of(o: Option<Seq<char>>, prefix: Seq<char>) -> Seq<Seq<char>> {
    match o {
        Some(t) => seq![prefix + t + "."@],
        None => Seq::empty(),
    }
}

/// The label that client limits are shown under.
pub open spec fn limits_label(guard: JsonView) -> Seq<char> {
    if limits_last_observed(guard) {
        "Последний observed лимит клиента"@
    } else {
        "Лимит клиента сейчас"@
    }
}

/// The advisory signal, the last model request and the client limits of a guard, each
/// as a line when there is text for it.
pub open spec fn budget_lines(guard: JsonView, shown: Option<Seq<char>>) -> Seq<Seq<char>> {
    line_of(shown, "Client-budget advisory signal: "@) + line_of(
        as_text(field(guard, "last_request"@)),
        "Последний запрос в модель: "@,
    ) + line_of(as_text(field(guard, "client_limits"@)), limits_label(guard) + ": "@)
}

/// The details of a rotate-chat request.
pub open spec fn rotate_details(
    guard: JsonView,
    shown: Option<Seq<char>>,
    headline: Seq<char>,
    next_step: Seq<char>,
) -> Seq<char> {
    join(
        budget_lines(guard, shown) + line_of(
            as_text(field(guard, "note"@)),
            "Почему advisory-сигнал рекомендует rotate/compact: "@,
        ) + seq![
            "Продолжить ту же рабочую линию: "@ + headline + "."@,
            "Ближайший обязательный следующий шаг в новой рабочей поверхности: "@ + next_step + "."@,
        ],
        "\n"@,
    )
}

/// The details of a compact-chat request.
pub open spec fn compact_details(
    guard: JsonView,
    shown: Option<Seq<char>>,
    headline: Seq<char>,
    next_step: Seq<char>,
) -> Seq<char> {
    join(
        budget_lines(guard, shown) + seq![
            "Запрошен compact-chat control для переноса рабочей линии на новую clean surface."@,
            "Сохраняем текущую рабочую линию: "@ + headline + "."@,
            "После clean-surface restore обязательный следующий шаг: "@ + next_step + "."@,
        ],
        "\n"@,
    )
}

fn line_vec(prefix: &str, body: &str) -> (r: Vec<char>)
    ensures
        r@ == prefix@ + body@ + "."@,
{
    let mut v: Vec<char> = Vec::new();
    push_str(&mut v, prefix);
    push_str(&mut v, body);
    push_str(&mut v, ".");
    v
}

fn push_opt_line(lines: &mut Vec<Vec<char>>, body: Option<&str>, prefix: &str)
    ensures
        views(final(lines)@) == views(old(lines)@) + line_of(opt_view(body), prefix@),
{
    match body {
        Some(b) => {
            let l = line_vec(prefix, b);
            let ghost lv = l@;
            let ghost before = views(lines@);
            lines.push(l);
            assert(views(lines@) =~= before + seq![lv]);
        },
        None => {
            assert(line_of(opt_view(body), prefix@) =~= Seq::<Seq<char>>::empty());
            assert(views(lines@) =~= views(lines@) + Seq::<Seq<char>>::empty());
        },
    }
}

fn push_fixed_line(lines: &mut Vec<Vec<char>>, text: &str)
    ensures
        views(final(lines)@) == views(old(lines)@).push(text@),
{
    let ghost before = views(lines@);
    lines.push(chars_of(text));
    assert(views(lines@) =~= before.push(text@));
}

fn push_budget_lines(lines: &mut Vec<Vec<char>>, guard: &Json, shown: Option<&str>)
    ensures
        views(final(lines)@) == views(old(lines)@) + budget_lines(guard@, opt_view(shown)),
{
    let ghost start = views(lines@);
    push_opt_line(lines, shown, "Client-budget advisory signal: ");
    push_opt_line(lines, get_text(guard, "last_request"), "Последний запрос в модель: ");
    let label = client_limits_surface_label(guard);
    let mut prefix: Vec<char> = Vec::new();
    push_str(&mut prefix, label);
    push_str(&mut prefix, ": ");
    let prefix_text = string_of(prefix.as_slice());
    assert(prefix_text@ == limits_label(guard@) + ": "@);
    push_opt_line(lines, get_text(guard, "client_limits"), prefix_text.as_str());
    assert(views(lines@) =~= start + budget_lines(guard@, opt_view(shown)));
}

fn opt_as_str(o: &Option<String>) -> (r: Option<&str>)
    ensures
        opt_view(r) == crate::answer::opt_string(*o),
{
    match o {
        Some(s) => Some(s.as_str()),
        None => None,
    }
}

pub fn build_rotate_chat_details<F: Fn(&str) -> String>(
    client_budget_guard: &Json,
    headline: &str,
    next_step: &str,
    display: &F,
) -> (r: String)
    requires
        forall|s: &str| #[trigger] display.requires((s,)),
    ensures
        exists|shown: Option<Seq<char>>| #[trigger] shown_status_label(*display, client_budget_guard@, shown)
            && r@ == rotate_details(client_budget_guard@, shown, headline@, next_step@),
{
    let shown = display_client_budget_status_label(client_budget_guard, display);
    let ghost sv = crate::answer::opt_string(shown);
    let mut lines: Vec<Vec<char>> = Vec::new();
    push_budget_lines(&mut lines, client_budget_guard, opt_as_str(&shown));
    push_opt_line(
        &mut lines,
        get_text(client_budget_guard, "note"),
        "Почему advisory-сигнал рекомендует rotate/compact: ",
    );
    let a = line_vec("Продолжить ту же рабочую линию: ", headline);
    let b = line_vec("Ближайший обязательный следующий шаг в новой рабочей поверхности: ", next_step);
    let ghost before = views(lines@);
    let ghost av = a@;
    let ghost bv = b@;
    lines.push(a);
    lines.push(b);
    assert(views(lines@) =~= before + seq![av, bv]);
    let nl = chars_of("\n");
    let joined = join_chars(&lines, nl.as_slice());
    proof {
        assert(views(lines@) =~= budget_lines(client_budget_guard@, sv) + line_of(
            as_text(field(client_budget_guard@, "note"@)),
            "Почему advisory-сигнал рекомендует rotate/compact: "@,
        ) + seq![
            "Продолжить ту же рабочую линию: "@ + headline@ + "."@,
            "Ближайший обязательный следующий шаг в новой рабочей поверхности: "@ + next_step@ + "."@,
        ]);
        assert(shown_status_label(*display, client_budget_guard@, sv));
    }
    string_of(joined.as_slice())
}

pub fn build_compact_chat_details<F: Fn(&str) -> String>(
    client_budget_guard: &Json,
    headline: &str,
    next_step: &str,
    display: &F,
) -> (r: String)
    requires
        forall|s: &str| #[trigger] display.requires((s,)),
    ensures
        exists|shown: Option<Seq<char>>| #[trigger] shown_status_label(*display, client_budget_guard@, shown)
            && r@ == compact_details(client_budget_guard@, shown, headline@, next_step@),
{
    let shown = display_client_budget_status_label(client_budget_guard, display);
    let ghost sv = crate::answer::opt_string(shown);
    let mut lines: Vec<Vec<char>> = Vec::new();
    push_budget_lines(&mut lines, client_budget_guard, opt_as_str(&shown));
    push_fixed_line(
        &mut lines,
        "Запрошен compact-chat control для переноса рабочей линии на новую clean surface.",
    );
    let a = line_vec("Сохраняем текущую рабочую линию: ", headline);
    let b = line_vec("После clean-surface restore обязательный следующий шаг: ", next_step);
    let ghost before = views(lines@);
    let ghost av = a@;
    let ghost bv = b@;
    lines.push(a);
    lines.push(b);
    assert(views(lines@) =~= before + seq![av, bv]);
    let nl = chars_of("\n");
    let joined = join_chars(&lines, nl.as_slice());
    proof {
        assert(views(lines@) =~= budget_lines(client_budget_guard@, sv) + seq![
            "Запрошен compact-chat control для переноса рабочей линии на новую clean surface."@,
            "Сохраняем текущую рабочую линию: "@ + headline@ + "."@,
            "После clean-surface restore обязательный следующий шаг: "@ + next_step@ + "."@,
        ]);
        assert(shown_status_label(*display, client_budget_guard@, sv));
    }
    string_of(joined.as_slice())
}

/// Whether a materialised note repeats one of the lines built from the guard.
pub open spec fn is_budget_note(t: Seq<char>) -> bool {
    ||| has_prefix(t, "Client-budget advisory signal:"@)
    ||| has_prefix(t, "Client-budget guard:"@)
    ||| has_prefix(t, "Последний запрос в модель:"@)
    ||| has_prefix(t, "Лимит клиента сейчас:"@)
    ||| has_prefix(t, "Последний observed лимит клиента:"@)
}

/// The materialised notes among the first `n` items that are kept: trimmed strings that
/// are not blank and do not repeat a guard line, in their current advisory wording.
pub open spec fn kept_notes(items: Seq<JsonView>, n: int) -> Seq<Seq<char>>
    decreases n,
{
    if n <= 0 {
        Seq::empty()
    } else {
        let rest = kept_notes(items, n - 1);
        match as_str(items[n - 1]) {
            Some(s) => if trim(s).len() == 0 || is_budget_note(trim(s)) {
                rest
            } else {
                rest.push(advisory_text(trim(s)))
            },
            None => rest,
        }
    }
}

/// The client-budget guard of a working-state restore.
pub open spec fn guard_of(restore_node: JsonView) -> JsonView {
    field(restore_node, "client_budget_guard"@)
}

/// The notes that startup shows as materialised: the guard lines, then the kept notes.
pub open spec fn startup_notes(restore_node: JsonView, shown: Option<Seq<char>>) -> Seq<Seq<char>> {
    budget_lines(guard_of(restore_node), shown) + match as_array(field(restore_node, "materialized_notes"@)) {
        Some(items) => kept_notes(items, items.len() as int),
        None => Seq::empty(),
    }
}

/// The first two notes joined with `; `; nothing without notes.
pub open spec fn notes_summary(notes: Seq<Seq<char>>) -> Option<Seq<char>> {
    if notes.len() == 0 {
        None
    } else if notes.len() < 2 {
        Some(join(notes, "; "@))
    } else {
        Some(join(notes.take(2), "; "@))
    }
}

fn is_budget_note_exec(t: &str) -> (b: bool)
    ensures
        b == is_budget_note(t@),
{
    crate::text::str_starts_with(t, "Client-budget advisory signal:")
        || crate::text::str_starts_with(t, "Client-budget guard:")
        || crate::text::str_starts_with(t, "Последний запрос в модель:")
        || crate::text::str_starts_with(t, "Лимит клиента сейчас:")
        || crate::text::str_starts_with(t, "Последний observed лимит клиента:")
}

fn startup_note_lines<F: Fn(&str) -> String>(restore_node: &Json, display: &F) -> (r: Vec<Vec<char>>)
    requires
        forall|s: &str| #[trigger] display.requires((s,)),
    ensures
        exists|shown: Option<Seq<char>>| #[trigger] shown_status_label(*display, guard_of(restore_node@), shown)
            && views(r@) == startup_notes(restore_node@, shown),
{
    let guard = match get(restore_node, "client_budget_guard") {
        Some(g) => g,
        None => &Json::Null,
    };
    let shown = display_client_budget_status_label(guard, display);
    let ghost sv = crate::answer::opt_string(shown);
    let mut lines: Vec<Vec<char>> = Vec::new();
    push_budget_lines(&mut lines, guard, opt_as_str(&shown));
    let ghost base = views(lines@);
    assert(base =~= budget_lines(guard_of(restore_node@), sv));
    match get(restore_node, "materialized_notes") {
        Some(Json::Array(items)) => {
            proof {
                lemma_items_view(items@);
            }
            let ghost iv = items_view(items@);
            let mut i: usize = 0;
            while i < items.len()
                invariant
                    i <= items@.len(),
                    iv == items_view(items@),
                    iv.len() == items@.len(),
                    forall|j: int| 0 <= j < items@.len() ==> #[trigger] iv[j] == crate::json::json_view(items@[j]),
                    views(lines@) == base + kept_notes(iv, i as int),
                decreases items@.len() - i,
            {
                assert(iv[i as int] == crate::json::json_view(items@[i as int]));
                match &items[i] {
                    Json::Str(s) => {
                        let t = crate::text::trim_str(s.as_str());
                        if t.unicode_len() > 0 && !is_budget_note_exec(t) {
                            let n = normalize_client_budget_advisory_text(t);
                            let ghost before = views(lines@);
                            let nv = chars_of(n.as_str());
                            lines.push(nv);
                            assert(views(lines@) =~= before.push(advisory_text(trim(s@))));
                        }
                    },
                    _ => {},
                }
                i = i + 1;
            }
        },
        _ => {
            assert(base + Seq::<Seq<char>>::empty() =~= base);
        },
    }
    proof {
        assert(shown_status_label(*display, guard_of(restore_node@), sv));
    }
    lines
}

pub fn startup_materialized_notes<F: Fn(&str) -> String>(restore_node: &Json, display: &F) -> (r: Vec<String>)
    requires
        forall|s: &str| #[trigger] display.requires((s,)),
    ensures
        exists|shown: Option<Seq<char>>| #[trigger] shown_status_label(*display, guard_of(restore_node@), shown)
            && crate::answer::string_views(r@) == startup_notes(restore_node@, shown),
{
    let lines = startup_note_lines(restore_node, display);
    let mut out: Vec<String> = Vec::new();
    let mut i: usize = 0;
    while i < lines.len()
        invariant
            i <= lines@.len(),
            crate::answer::string_views(out@) == views(lines@).take(i as int),
        decreases lines@.len() - i,
    {
        let ghost before = crate::answer::string_views(out@);
        let t = string_of(lines[i].as_slice());
        assert(t@ == views(lines@)[i as int]);
        out.push(t);
        assert(crate::answer::string_views(out@) =~= before.push(t@));
        assert(crate::answer::string_views(out@) =~= views(lines@).take(i + 1));
        i = i + 1;
    }
    assert(views(lines@).take(lines@.len() as int) =~= views(lines@));
    out
}

pub fn summarize_startup_materialized_notes<F: Fn(&str) -> String>(restore_node: &Json, display: &F) -> (r: Option<String>)
    requires
        forall|s: &str| #[trigger] display.requires((s,)),
    ensures
        exists|shown: Option<Seq<char>>| #[trigger] shown_status_label(*display, guard_of(restore_node@), shown)
            && crate::answer::opt_string(r) == notes_summary(startup_notes(restore_node@, shown)),
{
    let lines = startup_note_lines(restore_node, display);
    if lines.len() == 0 {
        return None;
    }
    let mut first: Vec<Vec<char>> = Vec::new();
    let ghost all = views(lines@);
    let a = crate::text::slice_range(lines[0].as_slice(), 0, lines[0].len());
    assert(a@ =~= all[0]);
    first.push(a);
    if lines.len() >= 2 {
        let b = crate::text::slice_range(lines[1].as_slice(), 0, lines[1].len());
        assert(b@ =~= all[1]);
        first.push(b);
        assert(views(first@) =~= all.take(2));
    } else {
        assert(views(first@) =~= all);
    }
    let sep = chars_of("; ");
    let joined = join_chars(&first, sep.as_slice());
    Some(string_of(joined.as_slice()))
}

} // verus!
