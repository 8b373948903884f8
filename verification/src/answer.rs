//! Direct continuity answers: text collapsing, next-step extraction, chat-reference
//! parsing, intent resolution and the labels chosen from a chat tail.
use vstd::prelude::*;
use crate::text::{
    chars_eq_str, chars_of, occurs_at, collapse_whitespace, collapse_ws, contains, contains_exec, first_occurrence,
    find, has_prefix, is_ws, join, join_chars, lines, lines_of, parse_unsigned, parse_unsigned_bounded,
    push_all, push_str, slice_range, str_eq, str_starts_with, string_of, strip_leading,
    strip_leading_exec, strip_trailing, strip_trailing_exec, trim, trim_chars, views, CharSet,
    starts_with,
};

verus! {

/// One message of a chat transcript.
pub struct TranscriptMessage {
    pub role: String,
    pub text: String,
}

/// The summary of a time slice of a chat thread.
pub struct ThreadTimeSliceSummary {
    pub started_at: String,
    pub ended_at: String,
    pub started_at_epoch_s: i64,
    pub ended_at_epoch_s: i64,
    pub user_anchor: String,
    pub assistant_anchor: String,
    pub summary_headline: String,
    pub summary_next_step: String,
}

/// The tail of a chat thread that an answer is built from.
pub struct ChatTail {
    pub thread_id: String,
    pub title: String,
    pub summary_headline: Option<String>,
    pub summary_next_step: Option<String>,
    pub selected_time_slice: Option<ThreadTimeSliceSummary>,
    pub messages: Vec<TranscriptMessage>,
}

/// The marker line that agents print after reading their instructions.
pub open spec fn agents_read() -> Seq<char> {
    "AGENTS.md прочитан"@
}

/// The marker line that agents print when they could not read their instructions.
pub open spec fn agents_not_read() -> Seq<char> {
    "AGENTS.md не прочитан"@
}

pub open spec fn is_agents_marker(line: Seq<char>) -> bool {
    trim(line) == agents_read() || trim(line) == agents_not_read()
}

/// The lines that are not agents markers, in order.
pub open spec fn keep_content_lines(ls: Seq<Seq<char>>) -> Seq<Seq<char>>
    decreases ls.len(),
{
    if ls.len() == 0 {
        Seq::empty()
    } else if is_agents_marker(ls.last()) {
        keep_content_lines(ls.drop_last())
    } else {
        keep_content_lines(ls.drop_last()).push(ls.last())
    }
}

/// The collapsed text without a leading agents marker and the punctuation after it.
pub open spec fn strip_agents_prefix(c: Seq<char>) -> Seq<char> {
    if has_prefix(c, agents_read()) {
        trim(strip_leading(c.skip(agents_read().len() as int), CharSet::DotColonDashWs))
    } else if has_prefix(c, agents_not_read()) {
        trim(strip_leading(c.skip(agents_not_read().len() as int), CharSet::DotColonDashWs))
    } else {
        c
    }
}

/// `text` without agents marker lines, with whitespace collapsed, without a leading
/// agents marker, and cut to `max_chars` characters followed by `...` when longer.
pub open spec fn collapsed_answer(text: Seq<char>, max_chars: nat) -> Seq<char> {
    let stripped = join(keep_content_lines(lines(text)), seq![' ']);
    let c = strip_agents_prefix(collapse_ws(stripped));
    if c.len() <= max_chars {
        c
    } else {
        c.take(max_chars as int) + "..."@
    }
}

/// A collapsed answer never runs more than three characters past the limit (the `...`
/// that marks a cut), and an answer that is cut keeps its first `max_chars` characters.
pub proof fn lemma_collapsed_answer_bounded(text: Seq<char>, max_chars: nat)
    ensures
        collapsed_answer(text, max_chars).len() <= max_chars + 3,
        collapsed_answer(text, max_chars).len() > max_chars ==> collapsed_answer(text, max_chars)
            == collapsed_answer(text, max_chars).take(max_chars as int) + "..."@,
{
    reveal_strlit("...");
    let stripped = join(keep_content_lines(lines(text)), seq![' ']);
    let c = strip_agents_prefix(collapse_ws(stripped));
    if c.len() > max_chars {
        assert((c.take(max_chars as int) + "..."@).take(max_chars as int) =~= c.take(max_chars as int));
    }
}

/// Whitespace in `s` is only ever a plain space.
pub open spec fn spaces_only(s: Seq<char>) -> bool {
    forall|k: int| 0 <= k < s.len() && is_ws(#[trigger] s[k]) ==> s[k] == ' '
}

proof fn lemma_spaces_only_skip(s: Seq<char>, k: int)
    requires
        spaces_only(s),
        0 <= k <= s.len(),
    ensures
        spaces_only(s.skip(k)),
{
    assert forall|i: int| 0 <= i < s.skip(k).len() && is_ws(#[trigger] s.skip(k)[i]) implies s.skip(
        k,
    )[i] == ' ' by {
        assert(s.skip(k)[i] == s[i + k]);
    }
}

proof fn lemma_spaces_only_take(s: Seq<char>, k: int)
    requires
        spaces_only(s),
        0 <= k <= s.len(),
    ensures
        spaces_only(s.take(k)),
{
    assert forall|i: int| 0 <= i < s.take(k).len() && is_ws(#[trigger] s.take(k)[i]) implies s.take(
        k,
    )[i] == ' ' by {
        assert(s.take(k)[i] == s[i]);
    }
}

/// A law of collapsed answers: the answer is a single line; its only whitespace is plain
/// spaces, so no line break, tab or other whitespace survives.
pub proof fn lemma_collapsed_answer_one_line(text: Seq<char>, max_chars: nat)
    ensures
        spaces_only(collapsed_answer(text, max_chars)),
{
    reveal_strlit("...");
    let stripped = join(keep_content_lines(lines(text)), seq![' ']);
    let w = collapse_ws(stripped);
    crate::text::lemma_collapse_scan_form(stripped, stripped.len() as int);
    assert(spaces_only(w));
    let c = strip_agents_prefix(w);
    if has_prefix(w, agents_read()) || has_prefix(w, agents_not_read()) {
        let m = if has_prefix(w, agents_read()) { agents_read() } else { agents_not_read() };
        lemma_spaces_only_skip(w, m.len() as int);
        let a = w.skip(m.len() as int);
        crate::text::lemma_strip_leading_shape(a, CharSet::DotColonDashWs);
        let b = strip_leading(a, CharSet::DotColonDashWs);
        let kb = choose|k: int| 0 <= k <= a.len() && b == a.skip(k);
        lemma_spaces_only_skip(a, kb);
        crate::text::lemma_trim_start_shape(b);
        let ts = crate::text::trim_start(b);
        let kt = choose|k: int| 0 <= k <= b.len() && ts == b.skip(k);
        lemma_spaces_only_skip(b, kt);
        crate::text::lemma_trim_end_shape(ts);
        let te = crate::text::trim_end(ts);
        let ke = choose|k: int| 0 <= k <= ts.len() && te == ts.take(k);
        lemma_spaces_only_take(ts, ke);
        assert(c == te);
    }
    assert(spaces_only(c));
    if c.len() > max_chars {
        lemma_spaces_only_take(c, max_chars as int);
        let r = c.take(max_chars as int) + "..."@;
        assert forall|k: int| 0 <= k < r.len() && is_ws(#[trigger] r[k]) implies r[k] == ' ' by {
            if k < max_chars {
                assert(r[k] == c.take(max_chars as int)[k]);
            } else {
                assert(r[k] == '.');
            }
        }
    }
}

pub fn collapse_answer_text(text: &str, max_chars: usize) -> (r: String)
    ensures
        r@ == collapsed_answer(text@, max_chars as nat),
{
    let v = collapse_answer_chars(text);
    let c = v.as_slice();
    if c.len() <= max_chars {
        string_of(c)
    } else {
        let mut out = slice_range(c, 0, max_chars);
        push_str(&mut out, "...");
        string_of(out.as_slice())
    }
}

/// The collapsed text before it is cut to length.
fn collapse_answer_chars(text: &str) -> (r: Vec<char>)
    ensures
        r@ == strip_agents_prefix(
            collapse_ws(join(keep_content_lines(lines(text@)), seq![' '])),
        ),
{
    let chars = chars_of(text);
    let all = lines_of(chars.as_slice());
    let mut kept: Vec<Vec<char>> = Vec::new();
    let mut i: usize = 0;
    let ghost ls = lines(text@);
    while i < all.len()
        invariant
            i <= all@.len(),
            views(all@) == ls,
            views(kept@) == keep_content_lines(ls.take(i as int)),
        decreases all@.len() - i,
    {
        let line = trim_chars(all[i].as_slice());
        let marker = chars_eq_str(line.as_slice(), "AGENTS.md прочитан") || chars_eq_str(
            line.as_slice(),
            "AGENTS.md не прочитан",
        );
        let ghost k0 = kept@;
        proof {
            assert(ls.take(i + 1).drop_last() =~= ls.take(i as int));
            assert(ls.take(i + 1).last() == all@[i as int]@);
        }
        if !marker {
            kept.push(slice_range(all[i].as_slice(), 0, all[i].len()));
            assert(all@[i as int]@.subrange(0, all@[i as int]@.len() as int) =~= all@[i as int]@);
            assert(views(kept@) =~= views(k0).push(all@[i as int]@));
        }
        i = i + 1;
    }
    assert(ls.take(all@.len() as int) =~= ls);
    let space: [char; 1] = [' '];
    let joined = join_chars(&kept, space.as_slice());
    assert(space@ =~= seq![' ']);
    let collapsed = collapse_whitespace(joined.as_slice());
    let a = chars_of("AGENTS.md прочитан");
    let b = chars_of("AGENTS.md не прочитан");
    if starts_with(collapsed.as_slice(), a.as_slice()) {
        let rest = slice_range(collapsed.as_slice(), a.len(), collapsed.len());
        assert(rest@ =~= collapsed@.skip(a@.len() as int));
        let s = strip_leading_exec(rest.as_slice(), CharSet::DotColonDashWs);
        trim_chars(s.as_slice())
    } else if starts_with(collapsed.as_slice(), b.as_slice()) {
        let rest = slice_range(collapsed.as_slice(), b.len(), collapsed.len());
        assert(rest@ =~= collapsed@.skip(b@.len() as int));
        let s = strip_leading_exec(rest.as_slice(), CharSet::DotColonDashWs);
        trim_chars(s.as_slice())
    } else {
        collapsed
    }
}

/// A prompt fragment: the text collapsed and cut to `max_chars`.
pub fn compact_prompt_fragment(value: &str, max_chars: usize) -> (r: String)
    ensures
        r@ == collapsed_answer(value@, max_chars as nat),
{
    collapse_answer_text(value, max_chars)
}

/// The labels that announce a mandatory next step, in the order they are tried.
pub open spec fn next_step_labels() -> Seq<Seq<char>> {
    seq![
        "Ближайший обязательный следующий шаг:"@,
        "Ближайший обязательный следующий шаг был такой:"@,
        "Следующий обязательный следующий шаг:"@,
        "Следующий обязательный шаг:"@,
        "Nearest mandatory next step:"@,
    ]
}

/// The index of the first next-step label that `s` starts with, searching from `k`.
pub open spec fn first_label_prefix(s: Seq<char>, k: int) -> Option<int>
    decreases 5 - k,
{
    if k < 0 || k >= 5 {
        None
    } else if has_prefix(s, next_step_labels()[k]) {
        Some(k)
    } else {
        first_label_prefix(s, k + 1)
    }
}

/// `s` with one leading next-step label removed, if it starts with one.
pub open spec fn strip_one_label(s: Seq<char>) -> Option<Seq<char>> {
    match first_label_prefix(s, 0) {
        Some(k) => Some(
            trim(strip_leading(s.skip(next_step_labels()[k].len() as int), CharSet::ColonDashWs)),
        ),
        None => None,
    }
}

/// `s` with up to `n` nested next-step labels removed.
pub open spec fn strip_labels(s: Seq<char>, n: nat) -> Seq<char>
    decreases n,
{
    if n == 0 {
        s
    } else {
        match strip_one_label(s) {
            Some(t) => strip_labels(t, (n - 1) as nat),
            None => s,
        }
    }
}

/// A next step as stored: without up to three nested labels, without trailing quotes and
/// bars, trimmed; nothing when that leaves no text.
pub open spec fn normalized_next_step(value: Seq<char>) -> Option<Seq<char>> {
    let n = trim(strip_trailing(strip_labels(trim(value), 3), CharSet::ClosingQuotes));
    if n.len() > 0 {
        Some(n)
    } else {
        None
    }
}

/// The next-step labels as character vectors.
fn label_table() -> (r: Vec<Vec<char>>)
    ensures
        views(r@) == next_step_labels(),
        r@.len() == 5,
{
    let mut r: Vec<Vec<char>> = Vec::new();
    r.push(chars_of("Ближайший обязательный следующий шаг:"));
    r.push(chars_of("Ближайший обязательный следующий шаг был такой:"));
    r.push(chars_of("Следующий обязательный следующий шаг:"));
    r.push(chars_of("Следующий обязательный шаг:"));
    r.push(chars_of("Nearest mandatory next step:"));
    assert(views(r@) =~= next_step_labels());
    r
}

/// `strip_one_label` on characters.
fn strip_one_label_exec(s: &[char], labels: &Vec<Vec<char>>) -> (r: Option<Vec<char>>)
    requires
        views(labels@) == next_step_labels(),
        labels@.len() == 5,
    ensures
        r matches Some(t) ==> strip_one_label(s@) == Some(t@),
        r is None ==> strip_one_label(s@) is None,
{
    let mut k: usize = 0;
    while k < 5
        invariant
            k <= 5,
            views(labels@) == next_step_labels(),
            labels@.len() == 5,
            first_label_prefix(s@, 0) == first_label_prefix(s@, k as int),
        decreases 5 - k,
    {
        assert(labels@[k as int]@ == next_step_labels()[k as int]);
        if starts_with(s, labels[k].as_slice()) {
            let rest = slice_range(s, labels[k].len(), s.len());
            assert(rest@ =~= s@.skip(labels@[k as int]@.len() as int));
            let stripped = strip_leading_exec(rest.as_slice(), CharSet::ColonDashWs);
            return Some(trim_chars(stripped.as_slice()));
        }
        k = k + 1;
    }
    None
}

/// The normalized next step, or nothing when the value holds no text.
pub fn normalize_next_step_value(value: &str) -> (r: Option<String>)
    ensures
        r matches Some(t) ==> normalized_next_step(value@) == Some(t@),
        r is None ==> normalized_next_step(value@) is None,
{
    let chars = chars_of(value);
    let r = normalize_next_step_chars(chars.as_slice());
    match r {
        Some(v) => Some(string_of(v.as_slice())),
        None => None,
    }
}

fn normalize_next_step_chars(value: &[char]) -> (r: Option<Vec<char>>)
    ensures
        r matches Some(t) ==> normalized_next_step(value@) == Some(t@),
        r is None ==> normalized_next_step(value@) is None,
{
    let labels = label_table();
    let mut normalized = trim_chars(value);
    let mut round: usize = 0;
    let mut stop = false;
    while round < 3 && !stop
        invariant
            round <= 3,
            views(labels@) == next_step_labels(),
            labels@.len() == 5,
            strip_labels(trim(value@), 3) == strip_labels(normalized@, (3 - round) as nat),
            stop ==> strip_one_label(normalized@) is None,
        decreases 3 - round + (if stop { 0int } else { 1int }),
    {
        match strip_one_label_exec(normalized.as_slice(), &labels) {
            Some(t) => {
                normalized = t;
                round = round + 1;
            },
            None => {
                stop = true;
            },
        }
    }
    assert(strip_labels(trim(value@), 3) == normalized@);
    let stripped = strip_trailing_exec(normalized.as_slice(), CharSet::ClosingQuotes);
    let result = trim_chars(stripped.as_slice());
    if result.len() > 0 {
        Some(result)
    } else {
        None
    }
}

/// The first line of `s`, or nothing when `s` has no lines.
pub open spec fn first_line(s: Seq<char>) -> Seq<char> {
    if lines(s).len() > 0 {
        lines(s)[0]
    } else {
        Seq::empty()
    }
}

/// The next step announced in `text` by the label at index `k` or a later one.
pub open spec fn next_step_from(text: Seq<char>, k: int) -> Option<Seq<char>>
    decreases 5 - k,
{
    if k < 0 || k >= 5 {
        None
    } else {
        match step_after_label(text, next_step_labels()[k]) {
            Some(step) => Some(step),
            None => next_step_from(text, k + 1),
        }
    }
}

/// The normalized first line after the first occurrence of `label` in `text`.
pub open spec fn step_after_label(text: Seq<char>, label: Seq<char>) -> Option<Seq<char>> {
    match first_occurrence(text, label) {
        Some(i) => normalized_next_step(first_line(text.skip(i + label.len()))),
        None => None,
    }
}

pub(crate) fn first_line_exec(s: &[char]) -> (r: Vec<char>)
    ensures
        r@ == first_line(s@),
{
    let ls = lines_of(s);
    if ls.len() > 0 {
        let r = slice_range(ls[0].as_slice(), 0, ls[0].len());
        assert(ls@[0]@.subrange(0, ls@[0]@.len() as int) =~= ls@[0]@);
        assert(views(ls@)[0] == ls@[0]@);
        r
    } else {
        Vec::new()
    }
}

fn step_after_label_exec(text: &[char], label: &[char]) -> (r: Option<Vec<char>>)
    ensures
        r matches Some(t) ==> step_after_label(text@, label@) == Some(t@),
        r is None ==> step_after_label(text@, label@) is None,
{
    match find(text, label) {
        Some(i) => {
            assert(occurs_at(text@, label@, i as int));
            let n = text.len();
            let rest = slice_range(text, i + label.len(), n);
            assert(rest@ =~= text@.skip(i + label@.len()));
            let line = first_line_exec(rest.as_slice());
            normalize_next_step_chars(line.as_slice())
        },
        None => None,
    }
}

/// The next step announced in free text: for each label in turn, the normalized first
/// line after its first occurrence.
pub fn extract_next_step_from_text(text: &str) -> (r: Option<String>)
    ensures
        r matches Some(t) ==> next_step_from(text@, 0) == Some(t@),
        r is None ==> next_step_from(text@, 0) is None,
{
    let chars = chars_of(text);
    let r = extract_next_step_chars(chars.as_slice());
    match r {
        Some(v) => Some(string_of(v.as_slice())),
        None => None,
    }
}

fn extract_next_step_chars(text: &[char]) -> (r: Option<Vec<char>>)
    ensures
        r matches Some(t) ==> next_step_from(text@, 0) == Some(t@),
        r is None ==> next_step_from(text@, 0) is None,
{
    let labels = label_table();
    let mut k: usize = 0;
    while k < 5
        invariant
            k <= 5,
            views(labels@) == next_step_labels(),
            labels@.len() == 5,
            next_step_from(text@, 0) == next_step_from(text@, k as int),
        decreases 5 - k,
    {
        assert(labels@[k as int]@ == next_step_labels()[k as int]);
        match step_after_label_exec(text, labels[k].as_slice()) {
            Some(step) => {
                return Some(step);
            },
            None => {},
        }
        k = k + 1;
    }
    None
}

/// `previous` for a reference of the form `previous:<n>`.
pub open spec fn previous_prefix() -> Seq<char> {
    "previous:"@
}

/// The kind and offset of a chat reference: `previous:<n>` with a positive `n` gives
/// `("previous", n)`, `previous:` with anything else gives `("previous", 1)`, and any
/// other reference gives its trimmed text with offset 1.
pub open spec fn chat_reference(value: Seq<char>) -> (Seq<char>, nat) {
    let t = trim(value);
    if has_prefix(t, previous_prefix()) {
        let offset = parse_unsigned(t.skip(previous_prefix().len() as int));
        match offset {
            Some(n) if n > 0 && n <= usize::MAX => ("previous"@, n),
            _ => ("previous"@, 1),
        }
    } else {
        (t, 1)
    }
}

pub fn parse_chat_reference_spec(value: &str) -> (r: (&str, usize))
    ensures
        (r.0@, r.1 as nat) == chat_reference(value@),
{
    let trimmed = crate::text::trim_str(value);
    let chars = chars_of(trimmed);
    let prefix = chars_of("previous:");
    if starts_with(chars.as_slice(), prefix.as_slice()) {
        let rest = slice_range(chars.as_slice(), prefix.len(), chars.len());
        assert(rest@ =~= trimmed@.skip(previous_prefix().len() as int));
        let parsed = parse_unsigned_bounded(rest.as_slice(), usize::MAX as u64);
        let offset: usize = match parsed {
            Some(n) if n > 0 => n as usize,
            _ => 1,
        };
        return ("previous", offset);
    }
    (trimmed, 1)
}

/// The answer intent: a requested intent other than `last_chat` stands; `last_chat`
/// defers to the parsed intent; a `last_chat` that remains becomes `previous_chat` for a
/// `previous` reference, and then `chat_at_time` when a time is given.
pub open spec fn answer_intent(
    requested: Seq<char>,
    parsed: Option<Seq<char>>,
    reference_kind: Option<Seq<char>>,
    has_at_time: bool,
) -> Seq<char> {
    let first = if requested != "last_chat"@ {
        requested
    } else {
        match parsed {
            Some(p) => p,
            None => requested,
        }
    };
    let second = if first == "last_chat"@ && reference_kind == Some("previous"@) {
        "previous_chat"@
    } else {
        first
    };
    if second == "last_chat"@ && has_at_time {
        "chat_at_time"@
    } else {
        second
    }
}

pub open spec fn opt_view(o: Option<&str>) -> Option<Seq<char>> {
    match o {
        Some(s) => Some(s@),
        None => None,
    }
}

pub fn resolve_answer_intent(
    requested_intent: &str,
    parsed_intent: Option<&str>,
    chat_reference_kind: Option<&str>,
    has_at_time: bool,
) -> (r: String)
    ensures
        r@ == answer_intent(
            requested_intent@,
            opt_view(parsed_intent),
            opt_view(chat_reference_kind),
            has_at_time,
        ),
{
    let mut intent = if !str_eq(requested_intent, "last_chat") {
        requested_intent.to_string()
    } else {
        match parsed_intent {
            Some(p) => p.to_string(),
            None => requested_intent.to_string(),
        }
    };
    let is_previous = match chat_reference_kind {
        Some(k) => str_eq(k, "previous"),
        None => false,
    };
    if str_eq(intent.as_str(), "last_chat") && is_previous {
        intent = "previous_chat".to_string();
    }
    if str_eq(intent.as_str(), "last_chat") && has_at_time {
        intent = "chat_at_time".to_string();
    }
    intent
}

/// The headings under which an answer reports a chat matched by time or order.
pub open spec fn temporal_markers() -> Seq<Seq<char>> {
    seq![
        "Предыдущий чат по времени:"@,
        "Подходящий chat thread:"@,
        "Найденный chat thread:"@,
        "Последние сообщения предыдущего чата:"@,
        "Ближайшие сообщения к этому моменту:"@,
        "Смысловой срез времени:"@,
    ]
}

pub fn answer_mentions_temporal_match(answer_text: &str) -> (b: bool)
    ensures
        b == exists|k: int| 0 <= k < 6 && contains(answer_text@, #[trigger] temporal_markers()[k]),
{
    let text = chars_of(answer_text);
    let mut markers: Vec<Vec<char>> = Vec::new();
    markers.push(chars_of("Предыдущий чат по времени:"));
    markers.push(chars_of("Подходящий chat thread:"));
    markers.push(chars_of("Найденный chat thread:"));
    markers.push(chars_of("Последние сообщения предыдущего чата:"));
    markers.push(chars_of("Ближайшие сообщения к этому моменту:"));
    markers.push(chars_of("Смысловой срез времени:"));
    assert(views(markers@) =~= temporal_markers());
    assert(markers@.len() == 6);
    let mut k: usize = 0;
    while k < 6
        invariant
            k <= 6,
            views(markers@) == temporal_markers(),
            markers@.len() == 6,
            text@ == answer_text@,
            forall|j: int| 0 <= j < k ==> !contains(answer_text@, #[trigger] temporal_markers()[j]),
        decreases 6 - k,
    {
        assert(markers@[k as int]@ == temporal_markers()[k as int]);
        let found = contains_exec(text.as_slice(), markers[k].as_slice());
        assert(found == contains(answer_text@, temporal_markers()[k as int]));
        if found {
            return true;
        }
        k = k + 1;
    }
    false
}

/// A retrieval strategy as shown to humans; unknown strategies are shown as they are.
pub open spec fn strategy_label(strategy: Seq<char>) -> Seq<char> {
    if strategy == "exact_documents"@ {
        "точные совпадения"@
    } else if strategy == "symbol_hits"@ {
        "совпадения по символам"@
    } else if strategy == "lexical_chunks"@ {
        "текстовые фрагменты"@
    } else if strategy == "semantic_chunks"@ {
        "смысловые фрагменты"@
    } else {
        strategy
    }
}

pub fn continuity_strategy_label(strategy: &str) -> (r: &str)
    ensures
        r@ == strategy_label(strategy@),
{
    if str_eq(strategy, "exact_documents") {
        "точные совпадения"
    } else if str_eq(strategy, "symbol_hits") {
        "совпадения по символам"
    } else if str_eq(strategy, "lexical_chunks") {
        "текстовые фрагменты"
    } else if str_eq(strategy, "semantic_chunks") {
        "смысловые фрагменты"
    } else {
        strategy
    }
}

/// A live token source needs the live reply gate; operator, proof and verification
/// sources do not.
pub fn continuity_answer_requires_live_reply_gate(token_source_kind: &str) -> (b: bool)
    ensures
        b == has_prefix(token_source_kind@, "live_"@),
{
    str_starts_with(token_source_kind, "live_")
}

/// What `str::to_lowercase` returns for a string.
pub uninterp spec fn lowercase_of(s: Seq<char>) -> Seq<char>;

/// `str::to_lowercase`. The contract names its result by `lowercase_of` and states the
/// ASCII case: text of ASCII characters alone comes back with `A`..`Z` lowered and all else
/// kept. The Unicode mapping of other characters is left unsaid.
#[verifier::external_body]
pub fn to_lowercase(s: &str) -> (r: String)
    ensures
        r@ == lowercase_of(s@),
        crate::text::all_ascii(s@) ==> r@ == crate::text::ascii_lowered(s@),
{
    s.to_lowercase()
}

/// A lower-cased, trimmed label that says nothing about the chat: instruction
/// boilerplate, IDE context dumps, questions and labels shorter than four characters.
pub open spec fn noisy_lowered_label(n: Seq<char>) -> bool {
    ||| has_prefix(n, "agents.md прочитан"@)
    ||| contains(n, "agents.md прочитан"@)
    ||| has_prefix(n, "продолжай строго"@)
    ||| contains(n, "продолжай строго"@)
    ||| has_prefix(n, "# context from my ide setup"@)
    ||| contains(n, "## active file:"@)
    ||| contains(n, "## open tabs:"@)
    ||| contains(n, "перед любой содержательной работой"@)
    ||| contains(n, "<instructions>"@)
    ||| (n.len() > 0 && n.last() == '?')
    ||| n.len() < 4
}

/// Labels that say nothing about the chat, judged on the label trimmed and lower-cased.
pub open spec fn noisy_label(label: Seq<char>) -> bool {
    noisy_lowered_label(lowercase_of(trim(label)))
}

/// Whether a label that is already trimmed and lower-cased says nothing about the chat.
pub fn is_noisy_lowered_label(lowered: &str) -> (b: bool)
    ensures
        b == noisy_lowered_label(lowered@),
{
    let n = chars_of(lowered);
    let ns = n.as_slice();
    let a = chars_of("agents.md прочитан");
    let b = chars_of("продолжай строго");
    let c = chars_of("# context from my ide setup");
    let d = chars_of("## active file:");
    let e = chars_of("## open tabs:");
    let f = chars_of("перед любой содержательной работой");
    let g = chars_of("<instructions>");
    starts_with(ns, a.as_slice()) || contains_exec(ns, a.as_slice()) || starts_with(
        ns,
        b.as_slice(),
    ) || contains_exec(ns, b.as_slice()) || starts_with(ns, c.as_slice()) || contains_exec(
        ns,
        d.as_slice(),
    ) || contains_exec(ns, e.as_slice()) || contains_exec(ns, f.as_slice()) || contains_exec(
        ns,
        g.as_slice(),
    ) || (ns.len() > 0 && ns[ns.len() - 1] == '?') || ns.len() < 4
}

pub fn looks_like_noisy_chat_label(label: &str) -> (b: bool)
    ensures
        b == noisy_label(label@),
{
    let trimmed = crate::text::trim_str(label);
    let lower = to_lowercase(trimmed);
    is_noisy_lowered_label(lower.as_str())
}

pub open spec fn opt_string(o: Option<String>) -> Option<Seq<char>> {
    match o {
        Some(s) => Some(s@),
        None => None,
    }
}

/// Whether `candidate` may label the chat next to an answer headline.
pub open spec fn label_rejected(tail: ChatTail, answer_headline: Seq<char>, candidate: Seq<char>) -> bool {
    let normalized = collapsed_answer(candidate, 220);
    let normalized_answer = trim(collapsed_answer(answer_headline, 220));
    ||| trim(normalized).len() == 0
    ||| trim(normalized) == normalized_answer
    ||| (match tail.selected_time_slice {
        Some(slice) => trim(collapsed_answer(slice.user_anchor@, 220)) == trim(normalized),
        None => false,
    })
    ||| (tail.selected_time_slice is Some && normalized.len() > 140)
    ||| noisy_label(normalized)
}

/// The chat label shown with an answer: the first of the trimmed title and the trimmed
/// summary headline that is not empty and not rejected, collapsed to 220 characters.
pub open spec fn chat_tail_label(tail: ChatTail, answer_headline: Seq<char>) -> Option<Seq<char>> {
    let title = trim(tail.title@);
    let summary = trim(
        match tail.summary_headline {
            Some(s) => s@,
            None => Seq::empty(),
        },
    );
    if title.len() > 0 && !label_rejected(tail, answer_headline, title) {
        Some(collapsed_answer(title, 220))
    } else if summary.len() > 0 && !label_rejected(tail, answer_headline, summary) {
        Some(collapsed_answer(summary, 220))
    } else {
        None
    }
}

fn label_rejected_exec(tail: &ChatTail, answer_headline: &str, candidate: &str) -> (b: bool)
    ensures
        b == label_rejected(*tail, answer_headline@, candidate@),
{
    let normalized = collapse_answer_text(candidate, 220);
    let nt = crate::text::trim_str(normalized.as_str());
    let answer = collapse_answer_text(answer_headline, 220);
    let at = crate::text::trim_str(answer.as_str());
    if nt.unicode_len() == 0 || str_eq(nt, at) {
        return true;
    }
    match &tail.selected_time_slice {
        Some(slice) => {
            let anchor = collapse_answer_text(slice.user_anchor.as_str(), 220);
            if str_eq(crate::text::trim_str(anchor.as_str()), nt) {
                return true;
            }
            if normalized.as_str().unicode_len() > 140 {
                return true;
            }
        },
        None => {},
    }
    looks_like_noisy_chat_label(normalized.as_str())
}

pub fn select_chat_tail_label(chat_tail: &ChatTail, answer_headline: &str) -> (r: Option<String>)
    ensures
        opt_string(r) == chat_tail_label(*chat_tail, answer_headline@),
{
    let title = crate::text::trim_str(chat_tail.title.as_str());
    if title.unicode_len() > 0 && !label_rejected_exec(chat_tail, answer_headline, title) {
        return Some(collapse_answer_text(title, 220));
    }
    let summary = match &chat_tail.summary_headline {
        Some(s) => crate::text::trim_str(s.as_str()),
        None => "",
    };
    proof {
        reveal_strlit("");
    }
    if summary.unicode_len() > 0 && !label_rejected_exec(chat_tail, answer_headline, summary) {
        return Some(collapse_answer_text(summary, 220));
    }
    None
}

/// The last message of `messages[..n]` written by the assistant, if any.
pub open spec fn last_assistant(messages: Seq<TranscriptMessage>, n: int) -> Option<int>
    decreases n,
{
    if n <= 0 {
        None
    } else if messages[n - 1].role@ == "assistant"@ {
        Some(n - 1)
    } else {
        last_assistant(messages, n - 1)
    }
}

fn find_last_assistant(messages: &Vec<TranscriptMessage>) -> (r: Option<usize>)
    ensures
        match r {
            Some(i) => last_assistant(messages@, messages@.len() as int) == Some(i as int) && i
                < messages@.len(),
            None => last_assistant(messages@, messages@.len() as int) is None,
        },
{
    let mut n = messages.len();
    while n > 0
        invariant
            n <= messages@.len(),
            last_assistant(messages@, messages@.len() as int) == last_assistant(messages@, n as int),
        decreases n,
    {
        if str_eq(messages[n - 1].role.as_str(), "assistant") {
            return Some(n - 1);
        }
        n = n - 1;
    }
    None
}

pub open spec fn opt_non_empty(o: Option<String>) -> Option<Seq<char>> {
    match o {
        Some(s) => crate::text::non_empty_trimmed(s@),
        None => None,
    }
}

/// The headline of a chat tail: the trimmed headline of the selected time slice, else
/// the trimmed summary headline, else the last assistant message collapsed to 220
/// characters.
pub open spec fn chat_tail_headline(tail: ChatTail) -> Option<Seq<char>> {
    let slice_headline = match tail.selected_time_slice {
        Some(slice) => crate::text::non_empty_trimmed(slice.summary_headline@),
        None => None,
    };
    if slice_headline is Some {
        slice_headline
    } else if opt_non_empty(tail.summary_headline) is Some {
        opt_non_empty(tail.summary_headline)
    } else {
        match last_assistant(tail.messages@, tail.messages@.len() as int) {
            Some(i) => Some(collapsed_answer(tail.messages@[i].text@, 220)),
            None => None,
        }
    }
}

/// The next step of a chat tail: the trimmed next step of the selected time slice, else
/// the trimmed summary next step, else the next step announced in the last assistant
/// message.
pub open spec fn chat_tail_next_step(tail: ChatTail) -> Option<Seq<char>> {
    let slice_step = match tail.selected_time_slice {
        Some(slice) => crate::text::non_empty_trimmed(slice.summary_next_step@),
        None => None,
    };
    if slice_step is Some {
        slice_step
    } else if opt_non_empty(tail.summary_next_step) is Some {
        opt_non_empty(tail.summary_next_step)
    } else {
        match last_assistant(tail.messages@, tail.messages@.len() as int) {
            Some(i) => next_step_from(tail.messages@[i].text@, 0),
            None => None,
        }
    }
}

fn non_empty_owned(s: &str) -> (r: Option<String>)
    ensures
        opt_string(r) == crate::text::non_empty_trimmed(s@),
{
    let t = crate::text::trim_str(s);
    if t.unicode_len() > 0 {
        Some(t.to_string())
    } else {
        None
    }
}

pub fn summarize_chat_tail_headline(chat_tail: &ChatTail) -> (r: Option<String>)
    ensures
        opt_string(r) == chat_tail_headline(*chat_tail),
{
    match &chat_tail.selected_time_slice {
        Some(slice) => {
            let v = non_empty_owned(slice.summary_headline.as_str());
            if v.is_some() {
                return v;
            }
        },
        None => {},
    }
    match &chat_tail.summary_headline {
        Some(s) => {
            let v = non_empty_owned(s.as_str());
            if v.is_some() {
                return v;
            }
        },
        None => {},
    }
    match find_last_assistant(&chat_tail.messages) {
        Some(i) => Some(collapse_answer_text(chat_tail.messages[i].text.as_str(), 220)),
        None => None,
    }
}

pub fn extract_chat_tail_next_step(chat_tail: &ChatTail) -> (r: Option<String>)
    ensures
        opt_string(r) == chat_tail_next_step(*chat_tail),
{
    match &chat_tail.selected_time_slice {
        Some(slice) => {
            let v = non_empty_owned(slice.summary_next_step.as_str());
            if v.is_some() {
                return v;
            }
        },
        None => {},
    }
    match &chat_tail.summary_next_step {
        Some(s) => {
            let v = non_empty_owned(s.as_str());
            if v.is_some() {
                return v;
            }
        },
        None => {},
    }
    match find_last_assistant(&chat_tail.messages) {
        Some(i) => extract_next_step_from_text(chat_tail.messages[i].text.as_str()),
        None => None,
    }
}


pub open spec fn text_or_empty(o: Option<Seq<char>>) -> Seq<char> {
    match o {
        Some(t) => t,
        None => Seq::empty(),
    }
}

/// The messages of a chat, each collapsed to 320 characters.
pub open spec fn collapsed_messages(messages: Seq<TranscriptMessage>) -> Seq<Seq<char>> {
    messages.map_values(|m: TranscriptMessage| collapsed_answer(m.text@, 320))
}

/// The fragments an answer about a chat tail is expected to mention, before blank ones
/// are dropped: headline, next step, chat label, time-slice anchor and headline, and
/// every message.
pub open spec fn raw_expected_fragments(tail: ChatTail) -> Seq<Seq<char>> {
    let headline = text_or_empty(chat_tail_headline(tail));
    let next_step = text_or_empty(chat_tail_next_step(tail));
    let base = seq![headline, next_step];
    let with_label = match chat_tail_label(tail, headline) {
        Some(label) => base.push(label),
        None => base,
    };
    let with_slice = match tail.selected_time_slice {
        Some(slice) => with_label.push(collapsed_answer(slice.user_anchor@, 220)).push(
            collapsed_answer(slice.summary_headline@, 220),
        ),
        None => with_label,
    };
    with_slice + collapsed_messages(tail.messages@)
}

/// The fragments that are not blank, in order.
pub open spec fn non_blank(fs: Seq<Seq<char>>) -> Seq<Seq<char>>
    decreases fs.len(),
{
    if fs.len() == 0 {
        Seq::empty()
    } else if trim(fs.last()).len() == 0 {
        non_blank(fs.drop_last())
    } else {
        non_blank(fs.drop_last()).push(fs.last())
    }
}

pub open spec fn string_views(v: Seq<String>) -> Seq<Seq<char>> {
    v.map_values(|s: String| s@)
}

/// The non-blank fragments an answer about the chat tail is expected to mention.
pub fn continuity_answer_expected_fragments(chat_tail: &ChatTail) -> (r: Vec<String>)
    ensures
        string_views(r@) == non_blank(raw_expected_fragments(*chat_tail)),
{
    let headline = match summarize_chat_tail_headline(chat_tail) {
        Some(h) => h,
        None => String::new(),
    };
    let next_step = match extract_chat_tail_next_step(chat_tail) {
        Some(n) => n,
        None => String::new(),
    };
    let mut fragments: Vec<String> = Vec::new();
    let label = select_chat_tail_label(chat_tail, headline.as_str());
    fragments.push(headline);
    fragments.push(next_step);
    match label {
        Some(l) => fragments.push(l),
        None => {},
    }
    match &chat_tail.selected_time_slice {
        Some(slice) => {
            fragments.push(collapse_answer_text(slice.user_anchor.as_str(), 220));
            fragments.push(collapse_answer_text(slice.summary_headline.as_str(), 220));
        },
        None => {},
    }
    let ghost prefix = string_views(fragments@);
    let mut i: usize = 0;
    while i < chat_tail.messages.len()
        invariant
            i <= chat_tail.messages@.len(),
            string_views(fragments@) == prefix + collapsed_messages(
                chat_tail.messages@.take(i as int),
            ),
        decreases chat_tail.messages@.len() - i,
    {
        let ghost f0 = fragments@;
        let c = collapse_answer_text(chat_tail.messages[i].text.as_str(), 320);
        fragments.push(c);
        assert(chat_tail.messages@.take(i + 1) =~= chat_tail.messages@.take(i as int).push(
            chat_tail.messages@[i as int],
        ));
        assert(collapsed_messages(chat_tail.messages@.take(i + 1)) =~= collapsed_messages(
            chat_tail.messages@.take(i as int),
        ).push(c@));
        assert(string_views(fragments@) =~= string_views(f0).push(c@));
        assert(string_views(fragments@) =~= prefix + collapsed_messages(
            chat_tail.messages@.take(i + 1),
        ));
        i = i + 1;
    }
    assert(chat_tail.messages@.take(i as int) =~= chat_tail.messages@);
    assert(string_views(fragments@) =~= raw_expected_fragments(*chat_tail));
    let ghost all = string_views(fragments@);
    let mut kept: Vec<String> = Vec::new();
    let mut j: usize = 0;
    while j < fragments.len()
        invariant
            j <= fragments@.len(),
            all == string_views(fragments@),
            string_views(kept@) == non_blank(all.take(j as int)),
        decreases fragments@.len() - j,
    {
        let t = crate::text::trim_str(fragments[j].as_str());
        let ghost k0 = kept@;
        assert(all.take(j + 1).drop_last() =~= all.take(j as int));
        if t.unicode_len() > 0 {
            kept.push(fragments[j].clone());
            assert(string_views(kept@) =~= string_views(k0).push(all[j as int]));
        }
        j = j + 1;
    }
    assert(all.take(j as int) =~= all);
    kept
}

} // verus!
