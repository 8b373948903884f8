//! Summaries read from a project's bootstrap and active-workline documents: the rendered
//! transcripts a bootstrap lists, its thread count, and the active line's headline and
//! next step.
use vstd::prelude::*;
use crate::handoff::{
    block_after_labels, bullet_after, extract_first_bullet_after, extract_last_block_after_labels,
    str_views,
};
use crate::json::{Json, JsonView, ObjectBuilder};
use crate::text::{
    byte_len, byte_len_exec, char_boundary, char_boundary_exec, chars_of, ends_with, has_prefix,
    has_suffix, last_index_of, last_index_of_exec, lemma_byte_len_take_mono, lemma_char_boundary,
    lines, lines_of, non_empty_trimmed, parse_unsigned, parse_unsigned_bounded, slice_range,
    starts_with, string_of, trim, trim_bounds, trim_start, views,
};

verus! {

pub open spec fn transcript_marker() -> Seq<char> {
    "- `rendered_transcript`:"@
}

pub open spec fn transcript_prefix() -> Seq<char> {
    "- `rendered_transcript`: `"@
}

/// The value between the full prefix and a closing backtick, when the line has both.
pub open spec fn quoted_transcript(t: Seq<char>) -> Option<Seq<char>> {
    let rest = t.skip(transcript_prefix().len() as int);
    if has_prefix(t, transcript_prefix()) && has_suffix(rest, seq!['`']) {
        Some(rest.drop_last())
    } else {
        None
    }
}

/// The byte offset of the line's last backtick.
pub open spec fn last_backtick_byte(line: Seq<char>) -> Option<int> {
    match last_index_of(line, '`') {
        Some(i) => Some(byte_len(line.take(i)) as int),
        None => None,
    }
}

/// A marked line without the quoted form: its value is cut from the trimmed line between
/// the prefix's byte length and the byte offset of the last backtick of the untrimmed line.
pub open spec fn cut_applies(line: Seq<char>) -> bool {
    let t = trim_start(line);
    &&& has_prefix(t, transcript_marker())
    &&& quoted_transcript(t) is None
    &&& byte_len(line) > byte_len(transcript_prefix())
    &&& last_backtick_byte(line) matches Some(e) && e > byte_len(transcript_prefix())
}

/// The cut falls on character boundaries of the trimmed line (else it panics).
pub open spec fn transcript_line_ok(line: Seq<char>) -> bool {
    let t = trim_start(line);
    cut_applies(line) ==> char_boundary(t, byte_len(transcript_prefix()) as int) is Some
        && char_boundary(t, last_backtick_byte(line)->0) is Some
}

/// The rendered transcript a bootstrap line names, if any.
pub open spec fn line_transcript(line: Seq<char>) -> Option<Seq<char>> {
    let t = trim_start(line);
    if !has_prefix(t, transcript_marker()) {
        None
    } else {
        match quoted_transcript(t) {
            Some(v) => non_empty_trimmed(v),
            None => if cut_applies(line) {
                non_empty_trimmed(
                    t.subrange(
                        char_boundary(t, byte_len(transcript_prefix()) as int)->0,
                        char_boundary(t, last_backtick_byte(line)->0)->0,
                    ),
                )
            } else {
                None
            },
        }
    }
}

/// The rendered transcripts the lines name, in order.
pub open spec fn transcripts_in(ls: Seq<Seq<char>>) -> Seq<Seq<char>>
    decreases ls.len(),
{
    if ls.len() == 0 {
        Seq::empty()
    } else {
        let prev = transcripts_in(ls.drop_last());
        match line_transcript(ls.last()) {
            Some(p) => prev.push(p),
            None => prev,
        }
    }
}

/// No line of the text makes the transcript parse panic, and the text's byte length fits
/// in a `usize`.
pub open spec fn bootstrap_text_ok(text: Seq<char>) -> bool {
    &&& byte_len(text) <= usize::MAX
    &&& forall|i: int| 0 <= i < lines(text).len() ==> transcript_line_ok(#[trigger] lines(text)[i])
}

proof fn lemma_line_bytes(s: Seq<char>, i: int)
    requires
        0 <= i < lines(s).len(),
    ensures
        byte_len(lines(s)[i]) <= byte_len(s),
{
    let ls = lines(s);
    crate::chunks::lemma_lines_total(s);
    crate::chunks::lemma_rendered_total_take(ls, i);
    crate::chunks::lemma_rendered_total_take(ls, i + 1);
}

fn line_transcript_exec(line: &[char]) -> (r: Option<Vec<char>>)
    requires
        transcript_line_ok(line@),
        byte_len(line@) <= usize::MAX,
    ensures
        match r {
            Some(v) => line_transcript(line@) == Some(v@),
            None => line_transcript(line@) is None,
        },
{
    let (lo, _hi) = trim_bounds(line);
    let t = slice_range(line, lo, line.len());
    let marker = chars_of("- `rendered_transcript`:");
    if !starts_with(t.as_slice(), marker.as_slice()) {
        return None;
    }
    let prefix = chars_of("- `rendered_transcript`: `");
    let tick = chars_of("`");
    proof {
        reveal_strlit("`");
        assert(tick@ =~= seq!['`']);
    }
    if starts_with(t.as_slice(), prefix.as_slice()) {
        let rest = slice_range(t.as_slice(), prefix.len(), t.len());
        assert(rest@ =~= t@.skip(prefix@.len() as int));
        if ends_with(rest.as_slice(), tick.as_slice()) {
            let inner = slice_range(rest.as_slice(), 0, rest.len() - 1);
            assert(inner@ =~= rest@.drop_last());
            let (a, b) = trim_bounds(inner.as_slice());
            if a < b {
                return Some(slice_range(inner.as_slice(), a, b));
            } else {
                return None;
            }
        }
    }
    proof {
        lemma_byte_len_take_mono(line@, 0, line@.len() as int);
        assert(line@.take(line@.len() as int) =~= line@);
        crate::text::lemma_byte_len_prefix_le(line@, lo as int);
        assert(t@ =~= line@.skip(lo as int));
    }
    proof {
        reveal_strlit("- `rendered_transcript`: `");
        crate::text::lemma_byte_len_bound(prefix@);
    }
    let prefix_bytes = byte_len_exec(prefix.as_slice());
    let line_bytes = byte_len_exec(line);
    let end = match last_index_of_exec(line, '`') {
        Some(i) => {
            let head = slice_range(line, 0, i);
            assert(head@ =~= line@.take(i as int));
            proof {
                lemma_byte_len_take_mono(line@, i as int, line@.len() as int);
            }
            byte_len_exec(head.as_slice())
        },
        None => {
            return None;
        },
    };
    if !(line_bytes > prefix_bytes && end > prefix_bytes) {
        return None;
    }
    proof {
        crate::text::lemma_trim_start_shape(line@);
        lemma_suffix_bytes(line@, lo as int);
    }
    let start_char = char_boundary_exec(t.as_slice(), prefix_bytes);
    let end_char = char_boundary_exec(t.as_slice(), end);
    match (start_char, end_char) {
        (Some(a0), Some(b0)) => {
            proof {
                lemma_char_boundary(t@, prefix_bytes as int);
                lemma_char_boundary(t@, end as int);
                if a0 > b0 {
                    lemma_byte_len_take_mono(t@, b0 as int, a0 as int);
                }
            }
            let cut = slice_range(t.as_slice(), a0, b0);
            let (a, b) = trim_bounds(cut.as_slice());
            if a < b {
                Some(slice_range(cut.as_slice(), a, b))
            } else {
                None
            }
        },
        _ => None,
    }
}

/// A suffix takes no more bytes than the whole.
proof fn lemma_suffix_bytes(s: Seq<char>, k: int)
    requires
        0 <= k <= s.len(),
    ensures
        byte_len(s.skip(k)) <= byte_len(s),
{
    crate::text::lemma_encode_utf8_concat(s.take(k), s.skip(k));
    assert(s.take(k) + s.skip(k) =~= s);
}

fn transcripts_exec(ls: &Vec<Vec<char>>, Ghost(text): Ghost<Seq<char>>) -> (r: Vec<Vec<char>>)
    requires
        views(ls@) == lines(text),
        bootstrap_text_ok(text),
    ensures
        views(r@) == transcripts_in(lines(text)),
{
    let ghost lsv = lines(text);
    let mut out: Vec<Vec<char>> = Vec::new();
    let mut k: usize = 0;
    assert(lsv.take(0) =~= Seq::<Seq<char>>::empty());
    while k < ls.len()
        invariant
            k <= ls@.len(),
            views(ls@) == lsv,
            lsv == lines(text),
            bootstrap_text_ok(text),
            views(out@) == transcripts_in(lsv.take(k as int)),
        decreases ls@.len() - k,
    {
        proof {
            assert(ls@[k as int]@ == lsv[k as int]);
            assert(transcript_line_ok(lines(text)[k as int]));
            lemma_line_bytes(text, k as int);
            assert(lsv.take(k + 1).drop_last() =~= lsv.take(k as int));
        }
        let r = line_transcript_exec(ls[k].as_slice());
        let ghost before = out@;
        match r {
            Some(p) => {
                let ghost pv = p@;
                out.push(p);
                assert(views(out@) =~= views(before).push(pv));
            },
            None => {},
        }
        k = k + 1;
    }
    assert(lsv.take(k as int) =~= lsv);
    out
}

/// The rendered transcripts a bootstrap document lists, in order (blank entries skipped).
pub fn parse_rendered_transcripts(text: &str) -> (paths: Vec<String>)
    requires
        bootstrap_text_ok(text@),
    ensures
        paths@.map_values(|p: String| p@) == transcripts_in(lines(text@)),
{
    let chars = chars_of(text);
    let ls = lines_of(chars.as_slice());
    let found = transcripts_exec(&ls, Ghost(text@));
    let mut paths: Vec<String> = Vec::new();
    let mut i: usize = 0;
    while i < found.len()
        invariant
            i <= found@.len(),
            paths@.map_values(|p: String| p@) == views(found@).take(i as int),
        decreases found@.len() - i,
    {
        let ghost before = paths@.map_values(|p: String| p@);
        let p = string_of(found[i].as_slice());
        let ghost pv = p@;
        assert(views(found@)[i as int] == found@[i as int]@);
        paths.push(p);
        assert(paths@.map_values(|p: String| p@) =~= before.push(pv));
        assert(views(found@).take(i + 1) =~= views(found@).take(i as int).push(pv));
        i = i + 1;
    }
    assert(views(found@).take(i as int) =~= views(found@));
    paths
}

pub open spec fn thread_count_prefix() -> Seq<char> {
    "- `thread_count`: `"@
}

/// What follows `p` on the first of the lines `ls[k..]` that starts with it.
pub open spec fn first_prefixed(ls: Seq<Seq<char>>, p: Seq<char>, k: int) -> Option<Seq<char>>
    decreases ls.len() - k,
{
    if k < 0 || k >= ls.len() {
        None
    } else if has_prefix(ls[k], p) {
        Some(ls[k].skip(p.len() as int))
    } else {
        first_prefixed(ls, p, k + 1)
    }
}

/// `str::parse::<u64>`.
pub open spec fn parse_u64(s: Seq<char>) -> Option<u64> {
    match parse_unsigned(s) {
        Some(v) => if v <= u64::MAX {
            Some(v as u64)
        } else {
            None
        },
        None => None,
    }
}

/// The thread count a bootstrap states on its first `thread_count` line, or else the
/// number of rendered transcripts it lists.
pub open spec fn bootstrap_thread_count(text: Seq<char>) -> int {
    let ls = lines(text);
    let listed = transcripts_in(ls).len() as int;
    match first_prefixed(ls, thread_count_prefix(), 0) {
        Some(rest) => if has_suffix(rest, seq!['`']) {
            match parse_u64(rest.drop_last()) {
                Some(v) => v as int,
                None => listed,
            }
        } else {
            listed
        },
        None => listed,
    }
}

/// The bootstrap summary: the thread count and the last rendered transcript, or `null`.
pub open spec fn bootstrap_summary(text: Seq<char>) -> JsonView {
    let ts = transcripts_in(lines(text));
    JsonView::Object(
        seq![
            ("thread_count"@, JsonView::Number(bootstrap_thread_count(text))),
            (
                "latest_rendered_transcript"@,
                if ts.len() > 0 {
                    JsonView::Str(ts.last())
                } else {
                    JsonView::Null
                },
            ),
        ],
    )
}

fn stated_thread_count(ls: &Vec<Vec<char>>) -> (r: Option<u64>)
    ensures
        r == (match first_prefixed(views(ls@), thread_count_prefix(), 0) {
            Some(rest) => if has_suffix(rest, seq!['`']) {
                parse_u64(rest.drop_last())
            } else {
                None
            },
            None => None,
        }),
{
    let p = chars_of("- `thread_count`: `");
    let tick = chars_of("`");
    proof {
        reveal_strlit("`");
        assert(tick@ =~= seq!['`']);
    }
    let ghost lsv = views(ls@);
    let mut k: usize = 0;
    while k < ls.len()
        invariant
            k <= ls@.len(),
            lsv == views(ls@),
            p@ == thread_count_prefix(),
            tick@ == seq!['`'],
            first_prefixed(lsv, thread_count_prefix(), 0) == first_prefixed(lsv, thread_count_prefix(), k as int),
        decreases ls@.len() - k,
    {
        assert(ls@[k as int]@ == lsv[k as int]);
        if starts_with(ls[k].as_slice(), p.as_slice()) {
            let rest = slice_range(ls[k].as_slice(), p.len(), ls[k].len());
            assert(rest@ =~= lsv[k as int].skip(p@.len() as int));
            if !ends_with(rest.as_slice(), tick.as_slice()) {
                return None;
            }
            let body = slice_range(rest.as_slice(), 0, rest.len() - 1);
            assert(body@ =~= rest@.drop_last());
            return parse_unsigned_bounded(body.as_slice(), u64::MAX);
        }
        k = k + 1;
    }
    None
}

/// The thread count and latest rendered transcript of a bootstrap document.
pub fn summarize_bootstrap(text: &str) -> (r: Json)
    requires
        bootstrap_text_ok(text@),
    ensures
        r@ == bootstrap_summary(text@),
{
    let chars = chars_of(text);
    let ls = lines_of(chars.as_slice());
    let found = transcripts_exec(&ls, Ghost(text@));
    let ghost ts = transcripts_in(lines(text@));
    let listed = found.len() as u64;
    let count = match stated_thread_count(&ls) {
        Some(n) => n,
        None => listed,
    };
    let latest = if found.len() > 0 {
        Json::Str(string_of(found[found.len() - 1].as_slice()))
    } else {
        Json::Null
    };
    let ghost lv = latest@;
    let mut b = ObjectBuilder::new();
    b.push("thread_count", Json::Number(count as i128));
    b.push("latest_rendered_transcript", latest);
    proof {
        assert(views(found@).len() == found@.len());
        if found@.len() > 0 {
            assert(views(found@).last() == found@[found@.len() - 1]@);
        }
    }
    assert(b.view_entries() =~= seq![
        ("thread_count"@, JsonView::Number(bootstrap_thread_count(text@))),
        ("latest_rendered_transcript"@, lv),
    ]);
    b.build()
}

pub open spec fn active_line_heading() -> Seq<char> {
    "## Текущая активная линия"@
}

/// The labels after which an active-workline document states its next step.
pub open spec fn next_step_labels() -> Seq<Seq<char>> {
    seq![
        "- nearest mandatory next step:"@,
        "- ближайший обязательный следующий шаг:"@,
        "- ближайший обязательный следующий шаг без отклонений:"@,
        "- ближайший обязательный следующий шаг без угадывания:"@,
    ]
}

/// The active workline summary: the first bullet under the active-line heading and the
/// last next-step block, each shown as the placeholder when missing.
pub open spec fn active_workline_summary(text: Seq<char>) -> JsonView {
    JsonView::Object(
        seq![
            ("headline"@, JsonView::Str(crate::labels::text_or(bullet_after(text, active_line_heading()), crate::labels::no_data()))),
            ("next_step"@, JsonView::Str(crate::labels::text_or(block_after_labels(text, next_step_labels()), crate::labels::no_data()))),
        ],
    )
}

/// The headline and next step of an active-workline document.
pub fn summarize_active_workline(text: &str) -> (r: Json)
    ensures
        r@ == active_workline_summary(text@),
{
    let headline = match extract_first_bullet_after(text, "## Текущая активная линия") {
        Some(h) => h,
        None => "ещё нет данных".to_string(),
    };
    let labels: [&str; 4] = [
        "- nearest mandatory next step:",
        "- ближайший обязательный следующий шаг:",
        "- ближайший обязательный следующий шаг без отклонений:",
        "- ближайший обязательный следующий шаг без угадывания:",
    ];
    assert(str_views(labels@) =~= next_step_labels());
    let next_step = match extract_last_block_after_labels(text, labels.as_slice()) {
        Some(n) => n,
        None => "ещё нет данных".to_string(),
    };
    let ghost hv = headline@;
    let ghost nv = next_step@;
    let mut b = ObjectBuilder::new();
    b.push("headline", Json::Str(headline));
    b.push("next_step", Json::Str(next_step));
    assert(b.view_entries() =~= seq![
        ("headline"@, JsonView::Str(hv)),
        ("next_step"@, JsonView::Str(nv)),
    ]);
    b.build()
}

} // verus!
