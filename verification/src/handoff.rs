//! Handoff documents: rendering, meta-handoff detection, index refresh cadence, and
//! reading the active workline back out of continuity notes.
use vstd::prelude::*;
use crate::answer::{lowercase_of, to_lowercase};
use crate::text::{
    byte_len, chars_of, contains, contains_exec, first_occurrence, find, has_prefix, join,
    join_chars, lemma_encode_utf8_push, lines, lines_of, occurs_at, push_all, push_str,
    slice_range, starts_with, string_of, strip_leading, strip_leading_exec, trim, trim_chars,
    trim_start, trim_bounds, utf8_width, views, CharSet,
};

verus! {

/// Over the lower-cased headline, next step and details: a handoff that only records that
/// continuity was restored and reported, or that the user asked where work stopped.
pub open spec fn meta_lowered_handoff(h: Seq<char>, n: Seq<char>, d: Seq<char>) -> bool {
    ||| contains(h, "continuity restored"@)
    ||| contains(h, "continuity reported"@)
    ||| contains(h, "restored and reported for new chat"@)
    ||| contains(h, "reported for new chat"@)
    ||| contains(n, "ждать указание пользователя"@)
    ||| contains(d, "пользователь спросил, на чем остановились"@)
    ||| contains(d, "пользователь спросил, на чём остановились"@)
    ||| contains(d, "ответить именно по последней зафиксированной точке"@)
}

/// A handoff that only records that continuity was restored and reported, or that the
/// user asked where work stopped, carries no work of its own; judged on the lower case.
pub open spec fn meta_handoff(headline: Seq<char>, next_step: Seq<char>, details: Seq<char>) -> bool {
    meta_lowered_handoff(lowercase_of(headline), lowercase_of(next_step), lowercase_of(details))
}

fn has(s: &str, p: &str) -> (b: bool)
    ensures
        b == contains(s@, p@),
{
    let sv = chars_of(s);
    let pv = chars_of(p);
    contains_exec(sv.as_slice(), pv.as_slice())
}

/// Whether a handoff whose headline, next step and details are already lower-cased
/// carries no work of its own.
pub fn is_meta_lowered_handoff(headline: &str, next_step: &str, details: &str) -> (b: bool)
    ensures
        b == meta_lowered_handoff(headline@, next_step@, details@),
{
    has(headline, "continuity restored") || has(headline, "continuity reported") || has(
        headline,
        "restored and reported for new chat",
    ) || has(headline, "reported for new chat") || has(next_step, "ждать указание пользователя")
        || has(details, "пользователь спросил, на чем остановились") || has(
        details,
        "пользователь спросил, на чём остановились",
    ) || has(details, "ответить именно по последней зафиксированной точке")
}

pub fn is_meta_continuity_handoff(headline: &str, next_step: &str, details: &str) -> (b: bool)
    ensures
        b == meta_handoff(headline@, next_step@, details@),
{
    let h = to_lowercase(headline);
    let n = to_lowercase(next_step);
    let d = to_lowercase(details);
    is_meta_lowered_handoff(h.as_str(), n.as_str(), d.as_str())
}

/// The handoff document: a title, the headline and next step as bullets, and the trimmed
/// details under their own heading when there are any.
pub open spec fn handoff_markdown(headline: Seq<char>, next_step: Seq<char>, details: Seq<char>) -> Seq<char> {
    let head = "# Amai Continuity Handoff\n\n- headline: "@ + headline + "\n- next_step: "@ + next_step;
    if trim(details).len() > 0 {
        head + "\n\n## Details\n\n"@ + trim(details) + "\n"@
    } else {
        head + "\n"@
    }
}

pub fn render_handoff_markdown(headline: &str, next_step: &str, details: &str) -> (r: String)
    ensures
        r@ == handoff_markdown(headline@, next_step@, details@),
{
    let mut out: Vec<char> = Vec::new();
    push_str(&mut out, "# Amai Continuity Handoff\n\n- headline: ");
    push_str(&mut out, headline);
    push_str(&mut out, "\n- next_step: ");
    push_str(&mut out, next_step);
    let d = crate::text::trim_str(details);
    if d.unicode_len() > 0 {
        push_str(&mut out, "\n\n## Details\n\n");
        push_str(&mut out, d);
    }
    push_str(&mut out, "\n");
    string_of(out.as_slice())
}

/// The least interval between two refreshes of the handoff document index.
pub const CONTINUITY_HANDOFF_DOCUMENT_INDEX_REFRESH_MIN_INTERVAL_MS: u64 = 300_000;

/// The index is refreshed on the first handoff, and later only once more than the
/// minimum interval has passed since the previous refresh (a refresh dated after the
/// capture counts as no time passed).
pub open spec fn refresh_due(previous: Option<u64>, captured: u64) -> bool {
    match previous {
        Some(p) => (if captured >= p { captured - p } else { 0 }) > 300_000,
        None => true,
    }
}

pub fn continuity_handoff_document_index_refresh_due_from_previous(
    previous_refresh_epoch_ms: Option<u64>,
    captured_at_epoch_ms: u64,
) -> (b: bool)
    ensures
        b == refresh_due(previous_refresh_epoch_ms, captured_at_epoch_ms),
{
    match previous_refresh_epoch_ms {
        Some(p) => captured_at_epoch_ms.saturating_sub(p)
            > CONTINUITY_HANDOFF_DOCUMENT_INDEX_REFRESH_MIN_INTERVAL_MS,
        None => true,
    }
}

/// The first handoff always refreshes the index; once a refresh is due at some capture
/// time it stays due at every later one.
pub proof fn lemma_refresh_due_monotone(previous: Option<u64>, t1: u64, t2: u64)
    requires
        t1 <= t2,
    ensures
        previous is None ==> refresh_due(previous, t1),
        refresh_due(previous, t1) ==> refresh_due(previous, t2),
{
}

/// The second piece of `text` split at `heading` (`text.split(heading).nth(1)`).
pub open spec fn section_after(text: Seq<char>, heading: Seq<char>) -> Option<Seq<char>> {
    if heading.len() == 0 {
        if text.len() == 0 {
            Some(Seq::empty())
        } else {
            Some(text.take(1))
        }
    } else {
        match first_occurrence(text, heading) {
            Some(i) => {
                let rest = text.skip(i + heading.len());
                match first_occurrence(rest, heading) {
                    Some(j) => Some(rest.take(j)),
                    None => Some(rest),
                }
            },
            None => None,
        }
    }
}

/// The trimmed text of the first bullet among `ls[k..]`.
pub open spec fn first_bullet(ls: Seq<Seq<char>>, k: int) -> Option<Seq<char>>
    decreases ls.len() - k,
{
    if k < 0 || k >= ls.len() {
        None
    } else if has_prefix(trim_start(ls[k]), "- "@) {
        Some(trim(trim_start(ls[k]).skip(2)))
    } else {
        first_bullet(ls, k + 1)
    }
}

/// The first bullet of the section that follows `heading`.
pub open spec fn bullet_after(text: Seq<char>, heading: Seq<char>) -> Option<Seq<char>> {
    match section_after(text, heading) {
        Some(section) => first_bullet(lines(section), 0),
        None => None,
    }
}

fn section_after_exec(text: &[char], heading: &[char]) -> (r: Option<Vec<char>>)
    ensures
        r matches Some(s) ==> section_after(text@, heading@) == Some(s@),
        r is None ==> section_after(text@, heading@) is None,
{
    let n = text.len();
    if heading.len() == 0 {
        if n == 0 {
            return Some(Vec::new());
        }
        let r = slice_range(text, 0, 1);
        assert(r@ =~= text@.take(1));
        return Some(r);
    }
    match find(text, heading) {
        Some(i) => {
            assert(occurs_at(text@, heading@, i as int));
            let rest = slice_range(text, i + heading.len(), n);
            assert(rest@ =~= text@.skip(i + heading@.len()));
            match find(rest.as_slice(), heading) {
                Some(j) => {
                    assert(occurs_at(rest@, heading@, j as int));
                    let r = slice_range(rest.as_slice(), 0, j);
                    assert(r@ =~= rest@.take(j as int));
                    Some(r)
                },
                None => Some(rest),
            }
        },
        None => None,
    }
}

pub fn extract_first_bullet_after(text: &str, heading: &str) -> (r: Option<String>)
    ensures
        r matches Some(s) ==> bullet_after(text@, heading@) == Some(s@),
        r is None ==> bullet_after(text@, heading@) is None,
{
    let tv = chars_of(text);
    let hv = chars_of(heading);
    let section = match section_after_exec(tv.as_slice(), hv.as_slice()) {
        Some(s) => s,
        None => {
            return None;
        },
    };
    let ls = lines_of(section.as_slice());
    let dash = chars_of("- ");
    proof {
        reveal_strlit("- ");
    }
    let mut k: usize = 0;
    while k < ls.len()
        invariant
            k <= ls@.len(),
            views(ls@) == lines(section@),
            ls@.len() == lines(section@).len(),
            dash@ == "- "@,
            dash@.len() == 2,
            section_after(text@, heading@) == Some(section@),
            first_bullet(lines(section@), 0) == first_bullet(lines(section@), k as int),
        decreases ls@.len() - k,
    {
        assert(views(ls@)[k as int] == ls@[k as int]@);
        let (lo, _hi) = trim_bounds(ls[k].as_slice());
        let lead = slice_range(ls[k].as_slice(), lo, ls[k].len());
        if starts_with(lead.as_slice(), dash.as_slice()) {
            let rest = slice_range(lead.as_slice(), 2, lead.len());
            assert(rest@ =~= lead@.skip(2));
            let t = trim_chars(rest.as_slice());
            return Some(string_of(t.as_slice()));
        }
        k = k + 1;
    }
    None
}

/// Whether a trimmed line opens a list item of a next-step block.
pub open spec fn is_block_item(t: Seq<char>) -> bool {
    has_prefix(t, "- "@) || has_prefix(t, "  - "@) || has_prefix(t, "    - "@) || has_prefix(
        t,
        "1."@,
    )
}

/// Collecting the items of a block from the lines `ls[k..]`: the items so far.
pub open spec fn block_items(ls: Seq<Seq<char>>, k: int, collected: Seq<Seq<char>>) -> Seq<Seq<char>>
    decreases ls.len() - k,
{
    if k < 0 || k >= ls.len() {
        collected
    } else {
        let t = trim(ls[k]);
        if t.len() == 0 && collected.len() > 0 {
            collected
        } else if has_prefix(t, "Обновление continuity"@) && collected.len() > 0 {
            collected
        } else if is_block_item(t) {
            block_items(ls, k + 1, collected.push(trim(strip_leading(t, CharSet::Dash))))
        } else if collected.len() > 0 {
            collected
        } else {
            block_items(ls, k + 1, collected)
        }
    }
}

/// The last line index at which a trimmed line equals one of the labels.
pub open spec fn last_label_line(ls: Seq<Seq<char>>, labels: Seq<Seq<char>>, n: int) -> Option<int>
    decreases n,
{
    if n <= 0 {
        None
    } else if labels.contains(trim(ls[n - 1])) {
        Some(n - 1)
    } else {
        last_label_line(ls, labels, n - 1)
    }
}

/// The list block after the last label line, its items stripped of dashes and joined by
/// ` | `; nothing when there is no label line or no item.
pub open spec fn block_after_labels(text: Seq<char>, labels: Seq<Seq<char>>) -> Option<Seq<char>> {
    let ls = lines(text);
    match last_label_line(ls, labels, ls.len() as int) {
        Some(start) => {
            let items = block_items(ls, start + 1, Seq::empty());
            if items.len() > 0 {
                Some(join(items, " | "@))
            } else {
                None
            }
        },
        None => None,
    }
}

pub open spec fn str_views(v: Seq<&str>) -> Seq<Seq<char>> {
    v.map_values(|s: &str| s@)
}

fn is_label(t: &[char], labels: &[&str]) -> (b: bool)
    ensures
        b == str_views(labels@).contains(t@),
{
    let mut k: usize = 0;
    while k < labels.len()
        invariant
            k <= labels@.len(),
            forall|j: int| 0 <= j < k ==> str_views(labels@)[j] != t@,
        decreases labels@.len() - k,
    {
        let lv = chars_of(labels[k]);
        if crate::text::chars_eq(t, lv.as_slice()) {
            assert(str_views(labels@)[k as int] == t@);
            return true;
        }
        k = k + 1;
    }
    false
}

fn last_label_line_exec(ls: &Vec<Vec<char>>, labels: &[&str]) -> (r: Option<usize>)
    ensures
        r matches Some(i) ==> i < ls@.len() && last_label_line(
            views(ls@),
            str_views(labels@),
            ls@.len() as int,
        ) == Some(i as int),
        r is None ==> last_label_line(views(ls@), str_views(labels@), ls@.len() as int) is None,
{
    let ghost lsv = views(ls@);
    let ghost lab = str_views(labels@);
    let mut n = ls.len();
    while n > 0
        invariant
            n <= ls@.len(),
            lsv == views(ls@),
            lab == str_views(labels@),
            last_label_line(lsv, lab, lsv.len() as int) == last_label_line(lsv, lab, n as int),
        decreases n,
    {
        assert(lsv[n - 1] == ls@[n - 1]@);
        let t = trim_chars(ls[n - 1].as_slice());
        if is_label(t.as_slice(), labels) {
            return Some(n - 1);
        }
        n = n - 1;
    }
    None
}

fn block_items_exec(ls: &Vec<Vec<char>>, start: usize) -> (r: Vec<Vec<char>>)
    requires
        start <= ls@.len(),
    ensures
        views(r@) == block_items(views(ls@), start as int, Seq::empty()),
{
    let ghost lsv = views(ls@);
    let mut collected: Vec<Vec<char>> = Vec::new();
    let mut k = start;
    let d1 = chars_of("- ");
    let d2 = chars_of("  - ");
    let d3 = chars_of("    - ");
    let d4 = chars_of("1.");
    let upd = chars_of("Обновление continuity");
    let ghost goal = block_items(lsv, start as int, Seq::empty());
    assert(views(collected@) =~= Seq::<Seq<char>>::empty());
    assert(lsv.len() == ls@.len());
    while k < ls.len()
        invariant
            start <= k <= ls@.len(),
            lsv == views(ls@),
            lsv.len() == ls@.len(),
            goal == block_items(lsv, k as int, views(collected@)),
            goal == block_items(lsv, start as int, Seq::empty()),
            views(collected@).len() == collected@.len(),
            d1@ == "- "@,
            d2@ == "  - "@,
            d3@ == "    - "@,
            d4@ == "1."@,
            upd@ == "Обновление continuity"@,
        decreases ls@.len() - k,
    {
        assert(lsv[k as int] == ls@[k as int]@);
        let t = trim_chars(ls[k].as_slice());
        let ts = t.as_slice();
        if ts.len() == 0 && collected.len() > 0 {
            return collected;
        }
        if starts_with(ts, upd.as_slice()) && collected.len() > 0 {
            return collected;
        }
        if starts_with(ts, d1.as_slice()) || starts_with(ts, d2.as_slice()) || starts_with(
            ts,
            d3.as_slice(),
        ) || starts_with(ts, d4.as_slice()) {
            let s = strip_leading_exec(ts, CharSet::Dash);
            let item = trim_chars(s.as_slice());
            let ghost c0 = views(collected@);
            collected.push(item);
            assert(views(collected@) =~= c0.push(item@));
        } else if collected.len() > 0 {
            return collected;
        }
        k = k + 1;
    }
    collected
}

pub fn extract_last_block_after_labels(text: &str, labels: &[&str]) -> (r: Option<String>)
    ensures
        r matches Some(s) ==> block_after_labels(text@, str_views(labels@)) == Some(s@),
        r is None ==> block_after_labels(text@, str_views(labels@)) is None,
{
    let tv = chars_of(text);
    let ls = lines_of(tv.as_slice());
    let start = match last_label_line_exec(&ls, labels) {
        Some(s) => s,
        None => {
            return None;
        },
    };
    let n = ls.len();
    assert(start < n);
    let collected = block_items_exec(&ls, start + 1);
    if collected.len() == 0 {
        return None;
    }
    let sep = chars_of(" | ");
    let joined = join_chars(&collected, sep.as_slice());
    Some(string_of(joined.as_slice()))
}

} // verus!
