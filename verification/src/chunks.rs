//! Splitting a continuity document into chunks of whole lines for indexing.
//!
//! Each line is taken with a `\n` after it. Lines are packed greedily: a chunk is closed
//! as soon as the next line would carry it past the byte budget, and a single line that
//! is longer than the budget forms a chunk of its own.
use vstd::prelude::*;
use crate::json::{Json, JsonView, ObjectBuilder};
use crate::text::{
    byte_len, byte_len_exec, chars_of, lemma_byte_len_prefix_le, lemma_encode_utf8_concat,
    lemma_encode_utf8_push, lines, lines_of, lines_scan, push_all, string_of, strip_cr, views,
};

verus! {

/// A chunk as the packing lays it out: its first and last line (numbered from 1), the
/// byte offsets it spans, and its text.
pub struct ChunkSpan {
    pub start_line: int,
    pub end_line: int,
    pub start_byte: int,
    pub end_byte: int,
    pub content: Seq<char>,
}

/// The packing after some lines: the closed chunks, where the open chunk starts, the
/// next line's number and byte offset, and the open chunk's text.
pub struct PackState {
    pub spans: Seq<ChunkSpan>,
    pub start_line: int,
    pub line: int,
    pub start_byte: int,
    pub byte: int,
    pub buffer: Seq<char>,
}

/// A line as it is stored in a chunk.
pub open spec fn rendered(line: Seq<char>) -> Seq<char> {
    line.push('\n')
}

/// The open chunk, closed where the packing stands.
pub open spec fn pending_span(st: PackState) -> ChunkSpan {
    ChunkSpan {
        start_line: st.start_line,
        end_line: st.line - 1,
        start_byte: st.start_byte,
        end_byte: st.byte,
        content: st.buffer,
    }
}

/// Packing one more rendered line `r` under the budget `max`.
pub open spec fn pack_step(st: PackState, r: Seq<char>, max: int) -> PackState {
    if st.buffer.len() > 0 && byte_len(st.buffer) + byte_len(r) > max {
        PackState {
            spans: st.spans.push(pending_span(st)),
            start_line: st.line,
            line: st.line + 1,
            start_byte: st.byte,
            byte: st.byte + byte_len(r),
            buffer: r,
        }
    } else {
        PackState {
            spans: st.spans,
            start_line: st.start_line,
            line: st.line + 1,
            start_byte: st.start_byte,
            byte: st.byte + byte_len(r),
            buffer: st.buffer + r,
        }
    }
}

/// The packing after the first `k` lines.
pub open spec fn pack_scan(ls: Seq<Seq<char>>, max: int, k: int) -> PackState
    decreases k,
{
    if k <= 0 {
        PackState {
            spans: Seq::empty(),
            start_line: 1,
            line: 1,
            start_byte: 0,
            byte: 0,
            buffer: Seq::empty(),
        }
    } else {
        pack_step(pack_scan(ls, max, k - 1), rendered(ls[k - 1]), max)
    }
}

/// The chunks of `content` under the budget `max`.
pub open spec fn chunk_spans(content: Seq<char>, max: int) -> Seq<ChunkSpan> {
    let ls = lines(content);
    let st = pack_scan(ls, max, ls.len() as int);
    if st.buffer.len() > 0 {
        st.spans.push(pending_span(st))
    } else {
        st.spans
    }
}

/// The bytes the rendered lines take together.
pub open spec fn rendered_total(ls: Seq<Seq<char>>) -> nat
    decreases ls.len(),
{
    if ls.len() == 0 {
        0
    } else {
        rendered_total(ls.drop_last()) + byte_len(ls.last()) + 1
    }
}

/// A rendered line takes one byte more than the line.
pub proof fn lemma_rendered_len(line: Seq<char>)
    ensures
        byte_len(rendered(line)) == byte_len(line) + 1,
{
    lemma_encode_utf8_push(line, '\n');
    assert(vstd::utf8::encode_scalar('\n' as u32).len() == 1);
}

/// The rendered lines of a prefix take no more than those of the whole, and one more
/// line adds its rendered length.
pub proof fn lemma_rendered_total_take(ls: Seq<Seq<char>>, j: int)
    requires
        0 <= j <= ls.len(),
    ensures
        rendered_total(ls.take(j)) <= rendered_total(ls),
        j < ls.len() ==> rendered_total(ls.take(j + 1)) == rendered_total(ls.take(j))
            + byte_len(ls[j]) + 1,
    decreases ls.len() - j,
{
    if j < ls.len() {
        assert(ls.take(j + 1).drop_last() =~= ls.take(j));
        lemma_rendered_total_take(ls, j + 1);
    } else {
        assert(ls.take(j) =~= ls);
    }
}

/// Every rendered line takes at least one byte.
pub proof fn lemma_count_le_total(ls: Seq<Seq<char>>)
    ensures
        ls.len() <= rendered_total(ls),
    decreases ls.len(),
{
    if ls.len() > 0 {
        lemma_count_le_total(ls.drop_last());
    }
}

proof fn lemma_lines_scan_bytes(s: Seq<char>, i: int)
    requires
        0 <= i <= s.len(),
    ensures
        rendered_total(lines_scan(s, i).0) + byte_len(lines_scan(s, i).1) <= byte_len(s.take(i)),
    decreases i,
{
    if i > 0 {
        lemma_lines_scan_bytes(s, i - 1);
        let done = lines_scan(s, i - 1).0;
        let cur = lines_scan(s, i - 1).1;
        lemma_encode_utf8_push(s.take(i - 1), s[i - 1]);
        assert(s.take(i - 1).push(s[i - 1]) =~= s.take(i));
        if s[i - 1] == '\n' {
            assert(vstd::utf8::encode_scalar('\n' as u32).len() == 1);
            assert(done.push(strip_cr(cur)).drop_last() =~= done);
            if cur.len() > 0 && cur.last() == '\r' {
                lemma_byte_len_prefix_le(cur, cur.len() - 1);
                assert(cur.take(cur.len() - 1) =~= cur.drop_last());
            }
        } else {
            lemma_encode_utf8_push(cur, s[i - 1]);
        }
    }
}

/// The rendered lines of a text take at most one byte more than the text, and there are
/// no more lines than those bytes.
pub proof fn lemma_lines_total(s: Seq<char>)
    ensures
        rendered_total(lines(s)) <= byte_len(s) + 1,
        lines(s).len() <= rendered_total(lines(s)),
{
    lemma_lines_scan_bytes(s, s.len() as int);
    assert(s.take(s.len() as int) =~= s);
    let done = lines_scan(s, s.len() as int).0;
    let cur = lines_scan(s, s.len() as int).1;
    if cur.len() > 0 {
        assert(done.push(cur).drop_last() =~= done);
    }
    lemma_count_le_total(lines(s));
}

/// The parts written one after another.
pub open spec fn concat_all(parts: Seq<Seq<char>>) -> Seq<char>
    decreases parts.len(),
{
    if parts.len() == 0 {
        Seq::empty()
    } else {
        concat_all(parts.drop_last()) + parts.last()
    }
}

/// The texts of the chunks, in order.
pub open spec fn span_texts(spans: Seq<ChunkSpan>) -> Seq<Seq<char>> {
    spans.map_values(|sp: ChunkSpan| sp.content)
}

/// The lines as they are stored, in order.
pub open spec fn rendered_lines(ls: Seq<Seq<char>>) -> Seq<Seq<char>> {
    ls.map_values(|l: Seq<char>| rendered(l))
}

/// A chunk holds text, at least one line, as many bytes as it spans, and stays within the
/// budget unless it is a single line.
pub open spec fn span_ok(sp: ChunkSpan, max: int) -> bool {
    &&& sp.content.len() > 0
    &&& sp.start_line <= sp.end_line
    &&& byte_len(sp.content) == sp.end_byte - sp.start_byte
    &&& byte_len(sp.content) > max ==> sp.start_line == sp.end_line
}

/// The chunks follow each other from line 1 and byte 0 up to `next_line` and `next_byte`.
pub open spec fn spans_tiled(spans: Seq<ChunkSpan>, next_line: int, next_byte: int) -> bool {
    &&& spans.len() > 0 ==> spans[0].start_line == 1 && spans[0].start_byte == 0
    &&& forall|i: int, j: int|
        #![trigger spans[i], spans[j]]
        0 <= i && j == i + 1 && j < spans.len() ==> spans[j].start_line == spans[i].end_line + 1
            && spans[j].start_byte == spans[i].end_byte
    &&& spans.len() > 0 ==> spans.last().end_line + 1 == next_line && spans.last().end_byte
        == next_byte
    &&& spans.len() == 0 ==> next_line == 1 && next_byte == 0
}

/// Each chunk but the last was closed because the line after it would not have fit.
pub open spec fn spans_greedy(spans: Seq<ChunkSpan>, ls: Seq<Seq<char>>, max: int) -> bool {
    forall|i: int, j: int|
        #![trigger spans[i], spans[j]]
        0 <= i && j == i + 1 && j < spans.len() ==> byte_len(spans[i].content) + byte_len(
            rendered(ls[spans[j].start_line - 1]),
        ) > max
}

/// What holds of the packing after the first `k` lines.
pub open spec fn pack_inv(ls: Seq<Seq<char>>, max: int, k: int, st: PackState) -> bool {
    &&& st.line == k + 1
    &&& st.byte == rendered_total(ls.take(k))
    &&& concat_all(span_texts(st.spans)) + st.buffer == concat_all(rendered_lines(ls.take(k)))
    &&& (k == 0) == (st.buffer.len() == 0)
    &&& byte_len(st.buffer) == st.byte - st.start_byte
    &&& st.buffer.len() > 0 ==> 1 <= st.start_line <= st.line - 1
    &&& st.buffer.len() == 0 ==> st.start_line == st.line
    &&& byte_len(st.buffer) > max ==> st.start_line == st.line - 1
    &&& forall|i: int| 0 <= i < st.spans.len() ==> span_ok(#[trigger] st.spans[i], max)
    &&& spans_tiled(st.spans, st.start_line, st.start_byte)
    &&& spans_greedy(st.spans, ls, max)
    &&& st.spans.len() > 0 ==> byte_len(st.spans.last().content) + byte_len(
        rendered(ls[st.start_line - 1]),
    ) > max
}

proof fn lemma_concat_push(parts: Seq<Seq<char>>, x: Seq<char>)
    ensures
        concat_all(parts.push(x)) == concat_all(parts) + x,
{
    assert(parts.push(x).drop_last() =~= parts);
}

proof fn lemma_pack_inv(ls: Seq<Seq<char>>, max: int, k: int)
    requires
        0 <= max,
        0 <= k <= ls.len(),
    ensures
        pack_inv(ls, max, k, pack_scan(ls, max, k)),
    decreases k,
{
    if k == 0 {
        assert(ls.take(0) =~= Seq::<Seq<char>>::empty());
        assert(span_texts(Seq::<ChunkSpan>::empty()) =~= Seq::<Seq<char>>::empty());
        assert(rendered_lines(ls.take(0)) =~= Seq::<Seq<char>>::empty());
        assert(Seq::<char>::empty() + Seq::<char>::empty() =~= Seq::<char>::empty());
        assert(vstd::utf8::encode_utf8(Seq::<char>::empty()) =~= Seq::<u8>::empty());
    } else {
        lemma_pack_inv(ls, max, k - 1);
        let st = pack_scan(ls, max, k - 1);
        let r = rendered(ls[k - 1]);
        let st2 = pack_scan(ls, max, k);
        assert(st2 == pack_step(st, r, max));
        lemma_rendered_len(ls[k - 1]);
        lemma_rendered_total_take(ls, k - 1);
        assert(rendered_lines(ls.take(k)) =~= rendered_lines(ls.take(k - 1)).push(r));
        lemma_concat_push(rendered_lines(ls.take(k - 1)), r);
        if st.buffer.len() > 0 && byte_len(st.buffer) + byte_len(r) > max {
            let p = pending_span(st);
            assert(span_texts(st.spans.push(p)) =~= span_texts(st.spans).push(st.buffer));
            lemma_concat_push(span_texts(st.spans), st.buffer);
            assert forall|i: int| 0 <= i < st2.spans.len() implies span_ok(
                #[trigger] st2.spans[i],
                max,
            ) by {
                if i < st.spans.len() {
                    assert(st2.spans[i] == st.spans[i]);
                }
            }
            assert forall|i: int, j: int|
                #![trigger st2.spans[i], st2.spans[j]]
                0 <= i && j == i + 1 && j < st2.spans.len() implies st2.spans[j].start_line
                == st2.spans[i].end_line + 1 && st2.spans[j].start_byte
                == st2.spans[i].end_byte by {
                if j < st.spans.len() {
                    assert(st2.spans[i] == st.spans[i] && st2.spans[j] == st.spans[j]);
                } else {
                    assert(st2.spans[i] == st.spans.last());
                }
            }
            assert forall|i: int, j: int|
                #![trigger st2.spans[i], st2.spans[j]]
                0 <= i && j == i + 1 && j < st2.spans.len() implies byte_len(
                    st2.spans[i].content,
                ) + byte_len(rendered(ls[st2.spans[j].start_line - 1])) > max by {
                if j < st.spans.len() {
                    assert(st2.spans[i] == st.spans[i] && st2.spans[j] == st.spans[j]);
                } else {
                    assert(st2.spans[i] == st.spans.last());
                }
            }
            if st.spans.len() == 0 {
                assert(st2.spans[0] == p);
            }
            assert(st2.spans.last() == p);
        } else {
            lemma_encode_utf8_concat(st.buffer, r);
            assert(concat_all(span_texts(st.spans)) + (st.buffer + r) =~= (concat_all(
                span_texts(st.spans),
            ) + st.buffer) + r);
            if st.buffer.len() == 0 {
                assert(st.buffer + r =~= r);
            }
        }
    }
}

/// Packing the lines of a whole document.
proof fn lemma_final_spans(content: Seq<char>, max: int)
    requires
        0 <= max,
    ensures
        ({
            let ls = lines(content);
            let spans = chunk_spans(content, max);
            &&& concat_all(span_texts(spans)) == concat_all(rendered_lines(ls))
            &&& forall|i: int| 0 <= i < spans.len() ==> span_ok(#[trigger] spans[i], max)
            &&& spans_tiled(spans, ls.len() + 1int, rendered_total(ls) as int)
            &&& spans_greedy(spans, ls, max)
        }),
{
    let ls = lines(content);
    let k = ls.len() as int;
    lemma_pack_inv(ls, max, k);
    let st = pack_scan(ls, max, k);
    let spans = chunk_spans(content, max);
    assert(ls.take(k) =~= ls);
    if st.buffer.len() > 0 {
        let p = pending_span(st);
        assert(spans == st.spans.push(p));
        assert(span_texts(st.spans.push(p)) =~= span_texts(st.spans).push(st.buffer));
        lemma_concat_push(span_texts(st.spans), st.buffer);
        assert forall|i: int| 0 <= i < spans.len() implies span_ok(#[trigger] spans[i], max) by {
            if i < st.spans.len() {
                assert(spans[i] == st.spans[i]);
            }
        }
        assert forall|i: int, j: int|
            #![trigger spans[i], spans[j]]
            0 <= i && j == i + 1 && j < spans.len() implies spans[j].start_line
            == spans[i].end_line + 1 && spans[j].start_byte == spans[i].end_byte by {
            if j < st.spans.len() {
                assert(spans[i] == st.spans[i] && spans[j] == st.spans[j]);
            } else {
                assert(spans[i] == st.spans.last());
            }
        }
        assert forall|i: int, j: int|
            #![trigger spans[i], spans[j]]
            0 <= i && j == i + 1 && j < spans.len() implies byte_len(spans[i].content) + byte_len(
                rendered(ls[spans[j].start_line - 1]),
            ) > max by {
            if j < st.spans.len() {
                assert(spans[i] == st.spans[i] && spans[j] == st.spans[j]);
            } else {
                assert(spans[i] == st.spans.last());
            }
        }
        if st.spans.len() == 0 {
            assert(spans[0] == p);
        }
    } else {
        assert(concat_all(span_texts(st.spans)) + st.buffer =~= concat_all(span_texts(st.spans)));
    }
}

/// Joining the chunks' texts gives back every line of the document, each followed by
/// `\n`, in order.
pub proof fn lemma_chunks_reassemble(content: Seq<char>, max: int)
    requires
        0 <= max,
    ensures
        concat_all(span_texts(chunk_spans(content, max))) == concat_all(
            rendered_lines(lines(content)),
        ),
{
    lemma_final_spans(content, max);
}

/// Every chunk holds text and fits the budget, unless it holds a single line that alone
/// exceeds it.
pub proof fn lemma_chunks_within_budget(content: Seq<char>, max: int, i: int)
    requires
        0 <= max,
        0 <= i < chunk_spans(content, max).len(),
    ensures
        chunk_spans(content, max)[i].content.len() > 0,
        byte_len(chunk_spans(content, max)[i].content) <= max || chunk_spans(content, max)[i].start_line
            == chunk_spans(content, max)[i].end_line,
{
    lemma_final_spans(content, max);
    assert(span_ok(chunk_spans(content, max)[i], max));
}

/// The chunks cover the document without gap or overlap: from line 1 and byte 0, each
/// chunk starting where the previous one ended, the last one ending at the last line and
/// the last byte, and each spanning as many bytes as its text takes.
pub proof fn lemma_chunks_tile(content: Seq<char>, max: int)
    requires
        0 <= max,
    ensures
        ({
            let spans = chunk_spans(content, max);
            let ls = lines(content);
            &&& spans.len() == 0 <==> ls.len() == 0
            &&& spans_tiled(spans, ls.len() + 1int, rendered_total(ls) as int)
            &&& forall|i: int|
                0 <= i < spans.len() ==> byte_len(#[trigger] spans[i].content) == spans[i].end_byte
                    - spans[i].start_byte && spans[i].start_line <= spans[i].end_line
        }),
{
    lemma_final_spans(content, max);
    let spans = chunk_spans(content, max);
    let ls = lines(content);
    assert forall|i: int| 0 <= i < spans.len() implies byte_len(#[trigger] spans[i].content)
        == spans[i].end_byte - spans[i].start_byte && spans[i].start_line
        <= spans[i].end_line by {
        assert(span_ok(spans[i], max));
    }
    lemma_pack_inv(ls, max, ls.len() as int);
}

/// A chunk is closed only when the next line would carry it past the budget.
pub proof fn lemma_chunks_greedy(content: Seq<char>, max: int, i: int)
    requires
        0 <= max,
        0 <= i,
        i + 1 < chunk_spans(content, max).len(),
    ensures
        byte_len(chunk_spans(content, max)[i].content) + byte_len(
            rendered(lines(content)[chunk_spans(content, max)[i + 1].start_line - 1]),
        ) > max,
{
    lemma_final_spans(content, max);
    let spans = chunk_spans(content, max);
    assert(spans[i] == spans[i] && spans[i + 1] == spans[i + 1]);
}

/// A stored chunk of a document.
pub struct ChunkRecord {
    pub chunk_id: u128,
    pub qdrant_point_id: Option<u128>,
    pub qdrant_collection_alias: Option<String>,
    pub chunk_index: i32,
    pub total_chunks: i32,
    pub start_line: i32,
    pub end_line: i32,
    pub start_byte: i32,
    pub end_byte: i32,
    pub content: String,
    pub metadata: Json,
}

/// The metadata every continuity chunk carries: `{"continuity_chunk": true}`.
pub open spec fn chunk_metadata() -> JsonView {
    JsonView::Object(seq![("continuity_chunk"@, JsonView::Bool(true))])
}

/// `c` stores the span `s`.
pub open spec fn stores_span(c: ChunkRecord, s: ChunkSpan) -> bool {
    &&& c.start_line == s.start_line
    &&& c.end_line == s.end_line
    &&& c.start_byte == s.start_byte
    &&& c.end_byte == s.end_byte
    &&& c.content@ == s.content
    &&& c.qdrant_point_id is None
    &&& c.qdrant_collection_alias is None
    &&& c.metadata@ == chunk_metadata()
}

/// A fresh random (version 4) UUID as its 128-bit big-endian value
/// (`uuid::Uuid::new_v4().as_u128()`). Claimed: the version nibble is 4 and the variant
/// bits are `10`, which `new_v4` sets on every value; the other bits are random.
#[verifier::external_body]
pub(crate) fn new_random_id() -> (id: u128)
    ensures
        (id >> 76u128) & 0xfu128 == 4u128,
        (id >> 62u128) & 3u128 == 2u128,
{
    uuid::Uuid::new_v4().as_u128()
}

/// A chunk record under a fresh id, with its index and count still unset.
pub fn chunk_record(
    start_line: i32,
    end_line: i32,
    start_byte: i32,
    end_byte: i32,
    content: String,
) -> (c: ChunkRecord)
    ensures
        c.start_line == start_line,
        c.end_line == end_line,
        c.start_byte == start_byte,
        c.end_byte == end_byte,
        c.content@ == content@,
        c.chunk_index == 0,
        c.total_chunks == 0,
        c.qdrant_point_id is None,
        c.qdrant_collection_alias is None,
        c.metadata@ == chunk_metadata(),
        (c.chunk_id >> 76u128) & 0xfu128 == 4u128,
        (c.chunk_id >> 62u128) & 3u128 == 2u128,
{
    let mut meta = ObjectBuilder::new();
    meta.push("continuity_chunk", Json::Bool(true));
    let metadata = meta.build();
    assert(metadata@ == chunk_metadata());
    ChunkRecord {
        chunk_id: new_random_id(),
        qdrant_point_id: None,
        qdrant_collection_alias: None,
        chunk_index: 0,
        total_chunks: 0,
        start_line,
        end_line,
        start_byte,
        end_byte,
        content,
        metadata,
    }
}

/// The chunks of `content` under the byte budget `chunk_max_bytes`, numbered in order.
pub fn build_chunks(chunk_max_bytes: usize, content: &str) -> (chunks: Vec<ChunkRecord>)
    requires
        byte_len(content@) + 2 <= i32::MAX,
    ensures
        chunks@.len() == chunk_spans(content@, chunk_max_bytes as int).len(),
        forall|i: int|
            0 <= i < chunks@.len() ==> {
                &&& stores_span(#[trigger] chunks@[i], chunk_spans(content@, chunk_max_bytes as int)[i])
                &&& chunks@[i].chunk_index == i
                &&& chunks@[i].total_chunks == chunks@.len()
                &&& (chunks@[i].chunk_id >> 76u128) & 0xfu128 == 4u128
                &&& (chunks@[i].chunk_id >> 62u128) & 3u128 == 2u128
            },
{
    let max = chunk_max_bytes;
    let ghost m = chunk_max_bytes as int;
    let chars = chars_of(content);
    let ls = lines_of(chars.as_slice());
    let ghost lsv = lines(content@);
    proof {
        lemma_lines_total(content@);
    }
    let mut raw: Vec<(i32, i32, i32, i32, String)> = Vec::new();
    let mut start_line: i32 = 1;
    let mut current_line: i32 = 1;
    let mut start_byte: i32 = 0;
    let mut current_byte: i32 = 0;
    let mut buffer: Vec<char> = Vec::new();
    let mut buf_bytes: usize = 0;
    let mut k: usize = 0;
    while k < ls.len()
        invariant
            k <= ls@.len(),
            views(ls@) == lsv,
            lsv.len() == ls@.len(),
            m == max,
            rendered_total(lsv) + 1 <= i32::MAX,
            lsv.len() <= rendered_total(lsv),
            pack_scan(lsv, m, k as int).spans.len() == raw@.len(),
            forall|i: int|
                0 <= i < raw@.len() ==> {
                    let s = #[trigger] pack_scan(lsv, m, k as int).spans[i];
                    &&& raw@[i].0 == s.start_line
                    &&& raw@[i].1 == s.end_line
                    &&& raw@[i].2 == s.start_byte
                    &&& raw@[i].3 == s.end_byte
                    &&& raw@[i].4@ == s.content
                },
            start_line == pack_scan(lsv, m, k as int).start_line,
            current_line == pack_scan(lsv, m, k as int).line,
            start_byte == pack_scan(lsv, m, k as int).start_byte,
            current_byte == pack_scan(lsv, m, k as int).byte,
            buffer@ == pack_scan(lsv, m, k as int).buffer,
            buf_bytes == byte_len(buffer@),
            current_line == k + 1,
            current_byte == rendered_total(lsv.take(k as int)),
            buf_bytes <= current_byte,
            raw@.len() + (if buffer@.len() > 0 { 1int } else { 0int }) <= k,
        decreases ls@.len() - k,
    {
        let ghost st = pack_scan(lsv, m, k as int);
        proof {
            assert(ls@[k as int]@ == lsv[k as int]);
            lemma_rendered_total_take(lsv, k as int);
            lemma_rendered_total_take(lsv, k as int + 1);
            lemma_rendered_len(lsv[k as int]);
        }
        let line = &ls[k];
        let lb = byte_len_exec(line.as_slice());
        let rlen: usize = (lb + 1) as usize;
        if buffer.len() > 0 && buf_bytes + rlen > max {
            let text = string_of(buffer.as_slice());
            raw.push((start_line, current_line - 1, start_byte, current_byte, text));
            start_line = current_line;
            start_byte = current_byte;
            buffer = Vec::new();
            buf_bytes = 0;
        }
        let ghost before = buffer@;
        push_all(&mut buffer, line.as_slice());
        buffer.push('\n');
        proof {
            assert(buffer@ =~= before + rendered(lsv[k as int]));
            lemma_encode_utf8_concat(before, rendered(lsv[k as int]));
        }
        buf_bytes = buf_bytes + rlen;
        current_line = current_line + 1;
        current_byte = current_byte + rlen as i32;
        k = k + 1;
        proof {
            let st2 = pack_scan(lsv, m, k as int);
            assert(st2 == pack_step(st, rendered(lsv[k - 1]), m));
            assert forall|i: int| 0 <= i < raw@.len() implies {
                let s = #[trigger] pack_scan(lsv, m, k as int).spans[i];
                &&& raw@[i].0 == s.start_line
                &&& raw@[i].1 == s.end_line
                &&& raw@[i].2 == s.start_byte
                &&& raw@[i].3 == s.end_byte
                &&& raw@[i].4@ == s.content
            } by {
                if i < st.spans.len() {
                    assert(pack_scan(lsv, m, k - 1).spans[i] == st.spans[i]);
                }
            }
        }
    }
    if buffer.len() > 0 {
        let text = string_of(buffer.as_slice());
        raw.push((start_line, current_line - 1, start_byte, current_byte, text));
    }
    let ghost spans = chunk_spans(content@, m);
    assert(raw@.len() == spans.len());
    let total: i32 = raw.len() as i32;
    let mut chunks: Vec<ChunkRecord> = Vec::new();
    let mut i: usize = 0;
    while i < raw.len()
        invariant
            i <= raw@.len(),
            total == raw@.len(),
            spans == chunk_spans(content@, m),
            spans.len() == raw@.len(),
            m == max,
            forall|j: int|
                0 <= j < raw@.len() ==> {
                    let s = #[trigger] spans[j];
                    &&& raw@[j].0 == s.start_line
                    &&& raw@[j].1 == s.end_line
                    &&& raw@[j].2 == s.start_byte
                    &&& raw@[j].3 == s.end_byte
                    &&& raw@[j].4@ == s.content
                },
            chunks@.len() == i,
            forall|j: int|
                0 <= j < i ==> {
                    &&& stores_span(#[trigger] chunks@[j], spans[j])
                    &&& chunks@[j].chunk_index == j
                    &&& chunks@[j].total_chunks == total
                    &&& (chunks@[j].chunk_id >> 76u128) & 0xfu128 == 4u128
                    &&& (chunks@[j].chunk_id >> 62u128) & 3u128 == 2u128
                },
        decreases raw@.len() - i,
    {
        assert(spans[i as int] == spans[i as int]);
        let mut c = chunk_record(raw[i].0, raw[i].1, raw[i].2, raw[i].3, raw[i].4.clone());
        c.chunk_index = i as i32;
        c.total_chunks = total;
        chunks.push(c);
        i = i + 1;
    }
    chunks
}

} // verus!
