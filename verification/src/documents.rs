//! Continuity documents: repository slugs, byte-bounded truncation of searchable text and
//! the epoch clock.
use vstd::prelude::*;
use crate::text::{
    byte_len, chars_of, lemma_byte_len_prefix_le, lemma_encode_utf8_push, slice_range,
    string_of, strip_leading, strip_leading_exec, strip_trailing, strip_trailing_exec, utf8_width,
    CharSet, ascii_lower, ascii_lowered, all_ascii, lemma_strip_leading_shape,
    lemma_strip_trailing_shape,
};

verus! {

/// What `char::to_lowercase` yields for a character.
pub uninterp spec fn char_lowercase(c: char) -> Seq<char>;

/// `char::to_lowercase`, collected. The contract names the result by `char_lowercase`
/// and states only the documented ASCII case: an ASCII character maps to its ASCII lower
/// case alone. Other characters' mappings are left unsaid.
#[verifier::external_body]
fn lowercase_char(c: char) -> (r: Vec<char>)
    ensures
        r@ == char_lowercase(c),
        (c as u32) < 128 ==> r@ == seq![ascii_lower(c)],
{
    c.to_lowercase().collect()
}

/// The lower-cased characters of `s`, each character mapped in order.
pub open spec fn lowered(s: Seq<char>) -> Seq<char>
    decreases s.len(),
{
    if s.len() == 0 {
        Seq::empty()
    } else {
        lowered(s.drop_last()) + char_lowercase(s.last())
    }
}

/// A character a slug keeps: ASCII letters and digits, `.`, `_` and `-`.
pub open spec fn slug_keeps(c: char) -> bool {
    crate::launch::is_ascii_alnum(c) || c == '.' || c == '_' || c == '-'
}

/// Scanning lowered characters into a slug: kept characters stay, and each run of other
/// characters becomes one `-`. The flag says whether the last thing written was such a
/// separator.
pub open spec fn slug_scan(l: Seq<char>) -> (Seq<char>, bool)
    decreases l.len(),
{
    if l.len() == 0 {
        (Seq::empty(), false)
    } else {
        let (out, sep) = slug_scan(l.drop_last());
        let c = l.last();
        if slug_keeps(c) {
            (out.push(c), false)
        } else if !sep {
            (out.push('-'), true)
        } else {
            (out, sep)
        }
    }
}

/// The slug of a repository root: lower-cased, runs of other characters turned into
/// `-`, dashes trimmed from both ends; `project` when nothing is left.
pub open spec fn repo_slug(value: Seq<char>) -> Seq<char> {
    let s = strip_trailing(strip_leading(slug_scan(lowered(value)).0, CharSet::Dash), CharSet::Dash);
    if s.len() == 0 {
        "project"@
    } else {
        s
    }
}

/// The slug of an all-ASCII root: as `repo_slug`, with ASCII lower-casing.
pub open spec fn ascii_repo_slug(value: Seq<char>) -> Seq<char> {
    let s = strip_trailing(
        strip_leading(slug_scan(ascii_lowered(value)).0, CharSet::Dash),
        CharSet::Dash,
    );
    if s.len() == 0 {
        "project"@
    } else {
        s
    }
}

/// A character an ASCII slug may hold: a lower-case ASCII letter, a digit, `.`, `_`, `-`.
pub open spec fn slug_char(c: char) -> bool {
    ('a' <= c && c <= 'z') || ('0' <= c && c <= '9') || c == '.' || c == '_' || c == '-'
}

proof fn lemma_ascii_lowered_has_no_upper(s: Seq<char>)
    ensures
        ascii_lowered(s).len() == s.len(),
        forall|i: int|
            0 <= i < s.len() ==> !('A' <= #[trigger] ascii_lowered(s)[i] && ascii_lowered(s)[i]
                <= 'Z'),
    decreases s.len(),
{
    if s.len() > 0 {
        lemma_ascii_lowered_has_no_upper(s.drop_last());
        let c = s.last();
        if 'A' <= c && c <= 'Z' {
            assert('a' <= ascii_lower(c) && ascii_lower(c) <= 'z');
        }
    }
}

proof fn lemma_slug_scan_chars(l: Seq<char>)
    requires
        forall|i: int| 0 <= i < l.len() ==> !('A' <= #[trigger] l[i] && l[i] <= 'Z'),
    ensures
        forall|j: int|
            0 <= j < slug_scan(l).0.len() ==> slug_char(#[trigger] slug_scan(l).0[j]),
    decreases l.len(),
{
    if l.len() > 0 {
        let p = l.drop_last();
        assert forall|i: int| 0 <= i < p.len() implies !('A' <= #[trigger] p[i] && p[i]
            <= 'Z') by {
            assert(p[i] == l[i]);
        }
        lemma_slug_scan_chars(p);
        let c = l.last();
        assert(!('A' <= l[l.len() - 1] && l[l.len() - 1] <= 'Z'));
        let (out, sep) = slug_scan(p);
        let r = slug_scan(l).0;
        if slug_keeps(c) {
            assert(r == out.push(c));
            assert(slug_char(c));
        } else if !sep {
            assert(r == out.push('-'));
        } else {
            assert(r == out);
        }
        assert forall|j: int| 0 <= j < r.len() implies slug_char(#[trigger] r[j]) by {
            if j < out.len() {
                assert(r[j] == out[j]);
            }
        }
    }
}

/// A law of slugs: the slug of an all-ASCII root is non-empty, holds only lower-case ASCII
/// letters, digits, `.`, `_` and `-`, and neither starts nor ends with `-`.
pub proof fn lemma_ascii_repo_slug_shape(value: Seq<char>)
    ensures
        ascii_repo_slug(value).len() > 0,
        forall|i: int|
            0 <= i < ascii_repo_slug(value).len() ==> slug_char(
                #[trigger] ascii_repo_slug(value)[i],
            ),
        ascii_repo_slug(value)[0] != '-',
        ascii_repo_slug(value).last() != '-',
{
    let l = ascii_lowered(value);
    lemma_ascii_lowered_has_no_upper(value);
    lemma_slug_scan_chars(l);
    let o = slug_scan(l).0;
    let a = strip_leading(o, CharSet::Dash);
    lemma_strip_leading_shape(o, CharSet::Dash);
    let ka = choose|k: int| 0 <= k <= o.len() && a == o.skip(k);
    let b = strip_trailing(a, CharSet::Dash);
    lemma_strip_trailing_shape(a, CharSet::Dash);
    let kb = choose|k: int| 0 <= k <= a.len() && b == a.take(k);
    if b.len() > 0 {
        assert forall|i: int| 0 <= i < b.len() implies slug_char(#[trigger] b[i]) by {
            assert(b[i] == o[i + ka]);
        }
        assert(b[0] == a[0]);
    } else {
        reveal_strlit("project");
    }
}

proof fn lemma_ascii_lowered_of_lower(s: Seq<char>)
    requires
        forall|i: int| 0 <= i < s.len() ==> slug_char(#[trigger] s[i]),
    ensures
        ascii_lowered(s) == s,
    decreases s.len(),
{
    if s.len() > 0 {
        let p = s.drop_last();
        assert forall|i: int| 0 <= i < p.len() implies slug_char(#[trigger] p[i]) by {
            assert(p[i] == s[i]);
        }
        lemma_ascii_lowered_of_lower(p);
        assert(slug_char(s[s.len() - 1]));
        assert(p.push(s.last()) =~= s);
    }
}

proof fn lemma_slug_scan_of_kept(s: Seq<char>)
    requires
        forall|i: int| 0 <= i < s.len() ==> slug_char(#[trigger] s[i]),
    ensures
        slug_scan(s).0 == s,
    decreases s.len(),
{
    if s.len() > 0 {
        let p = s.drop_last();
        assert forall|i: int| 0 <= i < p.len() implies slug_char(#[trigger] p[i]) by {
            assert(p[i] == s[i]);
        }
        lemma_slug_scan_of_kept(p);
        assert(slug_char(s[s.len() - 1]));
        assert(p.push(s.last()) =~= s);
    }
}

/// A law of slugs: the slug of an all-ASCII root is itself all ASCII, and slugging it
/// again gives it back unchanged.
pub proof fn lemma_ascii_repo_slug_idempotent(value: Seq<char>)
    ensures
        all_ascii(ascii_repo_slug(value)),
        ascii_repo_slug(ascii_repo_slug(value)) == ascii_repo_slug(value),
{
    lemma_ascii_repo_slug_shape(value);
    let r = ascii_repo_slug(value);
    assert forall|i: int| 0 <= i < r.len() implies (#[trigger] r[i] as u32) < 128 by {
        assert(slug_char(r[i]));
    }
    lemma_ascii_lowered_of_lower(r);
    lemma_slug_scan_of_kept(r);
    assert(strip_leading(r, CharSet::Dash) == r);
    assert(strip_trailing(r, CharSet::Dash) == r);
}

pub fn slugify_repo_root(value: &str) -> (r: String)
    ensures
        r@ == repo_slug(value@),
        all_ascii(value@) ==> r@ == ascii_repo_slug(value@),
{
    let v = chars_of(value);
    let mut out: Vec<char> = Vec::new();
    let mut sep = false;
    let mut i: usize = 0;
    while i < v.len()
        invariant
            i <= v@.len(),
            v@ == value@,
            (out@, sep) == slug_scan(lowered(v@.take(i as int))),
            all_ascii(v@) ==> lowered(v@.take(i as int)) == ascii_lowered(v@.take(i as int)),
        decreases v@.len() - i,
    {
        let lc = lowercase_char(v[i]);
        let ghost base = lowered(v@.take(i as int));
        proof {
            assert(v@.take(i + 1).drop_last() =~= v@.take(i as int));
            assert(lowered(v@.take(i + 1)) == base + lc@);
            assert(base + lc@.take(0) =~= base);
            if all_ascii(v@) {
                assert((v@[i as int] as u32) < 128);
                assert(v@.take(i + 1).last() == v@[i as int]);
                assert(base + lc@ =~= ascii_lowered(v@.take(i as int)).push(ascii_lower(v@[i as int])));
            }
        }
        let mut j: usize = 0;
        while j < lc.len()
            invariant
                j <= lc@.len(),
                (out@, sep) == slug_scan(base + lc@.take(j as int)),
            decreases lc@.len() - j,
        {
            let c = lc[j];
            proof {
                assert((base + lc@.take(j + 1)).drop_last() =~= base + lc@.take(j as int));
                assert((base + lc@.take(j + 1)).last() == c);
            }
            if crate::launch::is_ascii_alnum_exec(c) || c == '.' || c == '_' || c == '-' {
                out.push(c);
                sep = false;
            } else if !sep {
                out.push('-');
                sep = true;
            }
            j = j + 1;
        }
        assert(lc@.take(lc@.len() as int) =~= lc@);
        i = i + 1;
    }
    assert(v@.take(v@.len() as int) =~= v@);
    let a = strip_leading_exec(out.as_slice(), CharSet::Dash);
    let b = strip_trailing_exec(a.as_slice(), CharSet::Dash);
    if b.len() == 0 {
        "project".to_string()
    } else {
        string_of(b.as_slice())
    }
}

/// The number of leading characters of `s`, from `i` on, whose UTF-8 bytes fit in `max`.
pub open spec fn fit_scan(s: Seq<char>, max: nat, i: int) -> int
    decreases s.len() - i,
{
    if i < 0 || i >= s.len() {
        i
    } else if byte_len(s.take(i + 1)) > max {
        i
    } else {
        fit_scan(s, max, i + 1)
    }
}

/// Text cut to at most `max` UTF-8 bytes at a character boundary, with the number of bytes
/// dropped; text that fits is kept whole.
pub open spec fn truncated(content: Seq<char>, max: nat) -> (Seq<char>, nat) {
    if byte_len(content) <= max {
        (content, 0)
    } else {
        let k = fit_scan(content, max, 0);
        (content.take(k), (byte_len(content) - byte_len(content.take(k))) as nat)
    }
}

pub fn truncate_utf8_by_bytes(content: &str, max_bytes: usize) -> (r: (String, usize))
    requires
        byte_len(content@) <= usize::MAX,
    ensures
        (r.0@, r.1 as nat) == truncated(content@, max_bytes as nat),
{
    let v = chars_of(content);
    let mut used: usize = 0;
    let mut k: usize = 0;
    proof {
        assert(v@.take(0) =~= Seq::<char>::empty());
        assert(vstd::utf8::encode_utf8(Seq::<char>::empty()) =~= Seq::<u8>::empty());
    }
    let mut stop = false;
    while k < v.len() && !stop
        invariant
            k <= v@.len(),
            v@ == content@,
            stop ==> k < v@.len() && byte_len(v@.take(k + 1)) > max_bytes,
            used == byte_len(v@.take(k as int)),
            used <= max_bytes,
            byte_len(content@) <= usize::MAX,
            fit_scan(v@, max_bytes as nat, 0) == fit_scan(v@, max_bytes as nat, k as int),
        decreases v@.len() - k + (if stop { 0int } else { 1int }),
    {
        let w = utf8_width(v[k]);
        proof {
            lemma_encode_utf8_push(v@.take(k as int), v@[k as int]);
            assert(v@.take(k as int).push(v@[k as int]) =~= v@.take(k + 1));
            lemma_byte_len_prefix_le(v@, k + 1);
        }
        if used + w > max_bytes {
            stop = true;
        } else {
            used = used + w;
            k = k + 1;
        }
    }
    assert(fit_scan(v@, max_bytes as nat, k as int) == k);
    proof {
        lemma_byte_len_prefix_le(v@, k as int);
    }
    let total = total_bytes(v.as_slice());
    if total <= max_bytes {
        return (content.to_string(), 0);
    }
    let kept = slice_range(v.as_slice(), 0, k);
    assert(kept@ =~= v@.take(k as int));
    (string_of(kept.as_slice()), total - used)
}

fn total_bytes(s: &[char]) -> (n: usize)
    requires
        byte_len(s@) <= usize::MAX,
    ensures
        n == byte_len(s@),
{
    let mut n: usize = 0;
    let mut i: usize = 0;
    proof {
        assert(s@.take(0) =~= Seq::<char>::empty());
        assert(vstd::utf8::encode_utf8(Seq::<char>::empty()) =~= Seq::<u8>::empty());
    }
    while i < s.len()
        invariant
            i <= s@.len(),
            n == byte_len(s@.take(i as int)),
            byte_len(s@) <= usize::MAX,
        decreases s@.len() - i,
    {
        proof {
            lemma_encode_utf8_push(s@.take(i as int), s@[i as int]);
            assert(s@.take(i as int).push(s@[i as int]) =~= s@.take(i + 1));
            lemma_byte_len_prefix_le(s@, i + 1);
        }
        n = n + utf8_width(s[i]);
        i = i + 1;
    }
    assert(s@.take(i as int) =~= s@);
    n
}

/// Why the clock could not be read as an epoch time.
pub enum ClockError {
    /// The system clock reads earlier than the Unix epoch.
    BeforeUnixEpoch,
}

/// Milliseconds since the Unix epoch as a `u64`, truncated as `as u64` does, or the
/// error when the clock read before the epoch.
pub fn epoch_ms_from_millis(millis: Option<u128>) -> (r: Result<u64, ClockError>)
    ensures
        match millis {
            Some(m) => r == Ok::<u64, ClockError>(m as u64),
            None => r == Err::<u64, ClockError>(ClockError::BeforeUnixEpoch),
        },
{
    match millis {
        Some(m) => Ok(m as u64),
        None => Err(ClockError::BeforeUnixEpoch),
    }
}

/// `SystemTime::now().duration_since(UNIX_EPOCH)` in milliseconds; `None` when the clock
/// reads before the epoch. Nothing is promised of the value: it is the machine's clock.
#[verifier::external_body]
fn system_clock_millis() -> Option<u128> {
    match std::time::SystemTime::now().duration_since(std::time::UNIX_EPOCH) {
        Ok(d) => Some(d.as_millis()),
        Err(_) => None,
    }
}

/// The current time in milliseconds since the Unix epoch.
pub fn now_epoch_ms() -> (r: Result<u64, ClockError>) {
    epoch_ms_from_millis(system_clock_millis())
}

proof fn lemma_slug_scan_keeps(l: Seq<char>)
    ensures
        forall|i: int| 0 <= i < slug_scan(l).0.len() ==> slug_keeps(#[trigger] slug_scan(l).0[i]),
    decreases l.len(),
{
    if l.len() > 0 {
        lemma_slug_scan_keeps(l.drop_last());
        let out = slug_scan(l.drop_last()).0;
        assert forall|i: int| 0 <= i < slug_scan(l).0.len() implies slug_keeps(
            #[trigger] slug_scan(l).0[i],
        ) by {
            if i < out.len() {
                assert(slug_scan(l).0[i] == out[i]);
            }
        }
    }
}

proof fn lemma_strip_leading_dash(s: Seq<char>)
    ensures
        exists|k: int| 0 <= k <= s.len() && strip_leading(s, CharSet::Dash) == s.skip(k),
        strip_leading(s, CharSet::Dash).len() > 0 ==> strip_leading(s, CharSet::Dash)[0] != '-',
    decreases s.len(),
{
    if s.len() > 0 && s[0] == '-' {
        lemma_strip_leading_dash(s.drop_first());
        let k = choose|k: int| 0 <= k <= s.drop_first().len() && strip_leading(s.drop_first(), CharSet::Dash) == s.drop_first().skip(k);
        assert(s.drop_first().skip(k) =~= s.skip(k + 1));
    } else {
        assert(s.skip(0) =~= s);
    }
}

proof fn lemma_strip_trailing_dash(s: Seq<char>)
    ensures
        exists|k: int| 0 <= k <= s.len() && strip_trailing(s, CharSet::Dash) == s.take(k),
        strip_trailing(s, CharSet::Dash).len() > 0 ==> strip_trailing(s, CharSet::Dash).last() != '-',
    decreases s.len(),
{
    if s.len() > 0 && s.last() == '-' {
        lemma_strip_trailing_dash(s.drop_last());
        let k = choose|k: int| 0 <= k <= s.drop_last().len() && strip_trailing(s.drop_last(), CharSet::Dash) == s.drop_last().take(k);
        assert(s.drop_last().take(k) =~= s.take(k));
    } else {
        assert(s.take(s.len() as int) =~= s);
    }
}

/// A repository slug is never empty, never starts or ends with `-`, and holds only ASCII
/// letters and digits, `.`, `_` and `-`.
pub proof fn lemma_repo_slug_shape(value: Seq<char>)
    ensures
        repo_slug(value).len() > 0,
        repo_slug(value)[0] != '-',
        repo_slug(value).last() != '-',
        forall|i: int| 0 <= i < repo_slug(value).len() ==> slug_keeps(#[trigger] repo_slug(value)[i]),
{
    let out = slug_scan(lowered(value)).0;
    lemma_slug_scan_keeps(lowered(value));
    lemma_strip_leading_dash(out);
    let a = strip_leading(out, CharSet::Dash);
    let ka = choose|k: int| 0 <= k <= out.len() && a == out.skip(k);
    lemma_strip_trailing_dash(a);
    let b = strip_trailing(a, CharSet::Dash);
    let kb = choose|k: int| 0 <= k <= a.len() && b == a.take(k);
    if b.len() == 0 {
        reveal_strlit("project");
        assert forall|i: int| 0 <= i < repo_slug(value).len() implies slug_keeps(
            #[trigger] repo_slug(value)[i],
        ) by {
            assert(crate::launch::is_ascii_alnum(repo_slug(value)[i]));
        }
    } else {
        assert(b[0] == a[0]);
        assert forall|i: int| 0 <= i < b.len() implies slug_keeps(#[trigger] b[i]) by {
            assert(b[i] == out[i + ka]);
        }
    }
}

/// What `truncated` keeps and drops, from position `i` on: the scan stops at the longest
/// prefix that fits.
proof fn lemma_fit_scan(s: Seq<char>, max: nat, i: int)
    requires
        0 <= i <= s.len(),
        byte_len(s.take(i)) <= max,
    ensures
        i <= fit_scan(s, max, i) <= s.len(),
        byte_len(s.take(fit_scan(s, max, i))) <= max,
        fit_scan(s, max, i) < s.len() ==> byte_len(s.take(fit_scan(s, max, i) + 1)) > max,
    decreases s.len() - i,
{
    if i < s.len() && byte_len(s.take(i + 1)) <= max {
        lemma_fit_scan(s, max, i + 1);
    }
}

/// Truncation keeps a prefix of the text that fits the byte budget, as long a prefix as
/// fits, and reports exactly the bytes it dropped.
pub proof fn lemma_truncated_shape(content: Seq<char>, max: nat)
    ensures
        ({
            let (kept, dropped) = truncated(content, max);
            &&& kept.len() <= content.len()
            &&& kept == content.take(kept.len() as int)
            &&& byte_len(kept) <= max
            &&& byte_len(kept) + dropped == byte_len(content)
            &&& kept.len() < content.len() ==> byte_len(content.take(kept.len() + 1int)) > max
        }),
{
    if byte_len(content) <= max {
        assert(content.take(content.len() as int) =~= content);
    } else {
        assert(content.take(0) =~= Seq::<char>::empty());
        assert(vstd::utf8::encode_utf8(Seq::<char>::empty()) =~= Seq::<u8>::empty());
        lemma_fit_scan(content, max, 0);
        let k = fit_scan(content, max, 0);
        lemma_byte_len_prefix_le(content, k);
        assert(content.take(k).len() == k);
        assert(content.take(k) =~= content.take(content.take(k).len() as int));
    }
}

} // verus!
