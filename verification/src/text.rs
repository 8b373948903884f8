//! Character-level text primitives: whitespace, trimming, prefixes, searching,
//! line splitting and whitespace collapsing, each with a specification over
//! `Seq<char>` and an executable counterpart proved against it.
use vstd::prelude::*;

verus! {

/// The ASCII lower case of a character: `A`..`Z` move to `a`..`z`, all else stays.
pub open spec fn ascii_lower(c: char) -> char {
    if 'A' <= c && c <= 'Z' {
        ((c as u32) + 32) as char
    } else {
        c
    }
}

/// Whether every character of `s` is ASCII.
pub open spec fn all_ascii(s: Seq<char>) -> bool {
    forall|i: int| 0 <= i < s.len() ==> (#[trigger] s[i] as u32) < 128
}

/// `s` with each character taken to its ASCII lower case, in order.
pub open spec fn ascii_lowered(s: Seq<char>) -> Seq<char>
    decreases s.len(),
{
    if s.len() == 0 {
        Seq::empty()
    } else {
        ascii_lowered(s.drop_last()).push(ascii_lower(s.last()))
    }
}

/// The Unicode `White_Space` property, which is what `char::is_whitespace` tests.
pub open spec fn is_ws(c: char) -> bool {
    let u = c as u32;
    ||| (0x09 <= u && u <= 0x0d)
    ||| u == 0x20
    ||| u == 0x85
    ||| u == 0xa0
    ||| u == 0x1680
    ||| (0x2000 <= u && u <= 0x200a)
    ||| u == 0x2028
    ||| u == 0x2029
    ||| u == 0x202f
    ||| u == 0x205f
    ||| u == 0x3000
}

/// `s` with its leading whitespace removed.
pub open spec fn trim_start(s: Seq<char>) -> Seq<char>
    decreases s.len(),
{
    if s.len() > 0 && is_ws(s[0]) {
        trim_start(s.drop_first())
    } else {
        s
    }
}

/// `s` with its trailing whitespace removed.
pub open spec fn trim_end(s: Seq<char>) -> Seq<char>
    decreases s.len(),
{
    if s.len() > 0 && is_ws(s.last()) {
        trim_end(s.drop_last())
    } else {
        s
    }
}

/// `s` with leading and trailing whitespace removed, as `str::trim` does.
pub open spec fn trim(s: Seq<char>) -> Seq<char> {
    trim_end(trim_start(s))
}

/// `p` is a prefix of `s`.
pub open spec fn has_prefix(s: Seq<char>, p: Seq<char>) -> bool {
    p.len() <= s.len() && s.subrange(0, p.len() as int) == p
}

/// `p` is a suffix of `s`.
pub open spec fn has_suffix(s: Seq<char>, p: Seq<char>) -> bool {
    p.len() <= s.len() && s.subrange(s.len() - p.len(), s.len() as int) == p
}

/// `p` occurs in `s` starting at position `i`.
pub open spec fn occurs_at(s: Seq<char>, p: Seq<char>, i: int) -> bool {
    0 <= i && i + p.len() <= s.len() && s.subrange(i, i + p.len()) == p
}

/// `p` occurs somewhere in `s`.
pub open spec fn contains(s: Seq<char>, p: Seq<char>) -> bool {
    exists|i: int| occurs_at(s, p, i)
}

/// The first position at which `p` occurs in `s`, if any.
#[verifier::opaque]
pub open spec fn first_occurrence(s: Seq<char>, p: Seq<char>) -> Option<int> {
    if contains(s, p) {
        Some(choose|i: int| occurs_at(s, p, i) && forall|j: int| 0 <= j < i ==> !occurs_at(s, p, j))
    } else {
        None
    }
}

/// A line ending that `str::lines` removes: a final `\r` left before a `\n`.
pub open spec fn strip_cr(line: Seq<char>) -> Seq<char> {
    if line.len() > 0 && line.last() == '\r' {
        line.drop_last()
    } else {
        line
    }
}

/// Scanning the first `i` characters of `s` into lines: the finished lines and the
/// current unfinished one.
pub open spec fn lines_scan(s: Seq<char>, i: int) -> (Seq<Seq<char>>, Seq<char>)
    decreases i,
{
    if i <= 0 {
        (Seq::empty(), Seq::empty())
    } else {
        let (done, cur) = lines_scan(s, i - 1);
        if s[i - 1] == '\n' {
            (done.push(strip_cr(cur)), Seq::empty())
        } else {
            (done, cur.push(s[i - 1]))
        }
    }
}

/// The lines of `s` as `str::lines` yields them: split at `\n`, a `\r` before the
/// `\n` removed, and no empty line after a final `\n`.
pub open spec fn lines(s: Seq<char>) -> Seq<Seq<char>> {
    let (done, cur) = lines_scan(s, s.len() as int);
    if cur.len() > 0 {
        done.push(cur)
    } else {
        done
    }
}

/// Scanning the first `i` characters of `s` while collapsing whitespace: the output so
/// far and whether a separating space is owed before the next word.
pub open spec fn collapse_scan(s: Seq<char>, i: int) -> (Seq<char>, bool)
    decreases i,
{
    if i <= 0 {
        (Seq::empty(), false)
    } else {
        let (out, gap) = collapse_scan(s, i - 1);
        let c = s[i - 1];
        if is_ws(c) {
            (out, out.len() > 0)
        } else if gap {
            (out.push(' ').push(c), false)
        } else {
            (out.push(c), false)
        }
    }
}

/// The words of `s` (maximal runs of non-whitespace) joined by single spaces, as
/// `split_whitespace().join(" ")` gives them.
pub open spec fn collapse_ws(s: Seq<char>) -> Seq<char> {
    collapse_scan(s, s.len() as int).0
}

/// Every occurrence of the non-empty `pat` in `s`, taken left to right without overlap,
/// replaced by `rep`, as `str::replace` does.
pub open spec fn replace_all(s: Seq<char>, pat: Seq<char>, rep: Seq<char>) -> Seq<char>
    decreases s.len(),
{
    if s.len() == 0 || pat.len() == 0 {
        s
    } else if has_prefix(s, pat) {
        rep + replace_all(s.skip(pat.len() as int), pat, rep)
    } else {
        seq![s[0]] + replace_all(s.drop_first(), pat, rep)
    }
}

/// The sequences of `parts` joined with `sep` between neighbours.
pub open spec fn join(parts: Seq<Seq<char>>, sep: Seq<char>) -> Seq<char>
    decreases parts.len(),
{
    if parts.len() == 0 {
        Seq::empty()
    } else if parts.len() == 1 {
        parts[0]
    } else {
        join(parts.drop_last(), sep) + sep + parts.last()
    }
}

/// The decimal digit character for `d < 10`.
pub open spec fn digit_char(d: nat) -> char {
    if d == 0 { '0' }
    else if d == 1 { '1' }
    else if d == 2 { '2' }
    else if d == 3 { '3' }
    else if d == 4 { '4' }
    else if d == 5 { '5' }
    else if d == 6 { '6' }
    else if d == 7 { '7' }
    else if d == 8 { '8' }
    else { '9' }
}

/// The decimal representation of `n` without leading zeros, as `to_string` gives it.
pub open spec fn decimal(n: nat) -> Seq<char>
    decreases n,
{
    if n < 10 {
        seq![digit_char(n)]
    } else {
        decimal(n / 10).push(digit_char(n % 10))
    }
}

/// The value of a decimal digit character.
pub open spec fn digit_value(c: char) -> int {
    (c as u32) - ('0' as u32)
}

pub open spec fn is_digit(c: char) -> bool {
    '0' <= c && c <= '9'
}

/// The value of a sequence of decimal digits.
pub open spec fn digits_value(s: Seq<char>) -> nat
    decreases s.len(),
{
    if s.len() == 0 {
        0
    } else {
        (digits_value(s.drop_last()) * 10 + digit_value(s.last())) as nat
    }
}

/// The unsigned integer that `str::parse` reads from `s`: an optional `+` followed by
/// at least one decimal digit, and nothing else. Bounds are checked by the caller.
pub open spec fn unsigned_body(s: Seq<char>) -> Seq<char> {
    if s.len() > 0 && s[0] == '+' { s.drop_first() } else { s }
}

pub open spec fn parse_unsigned(s: Seq<char>) -> Option<nat> {
    let body = unsigned_body(s);
    if body.len() > 0 && forall|k: int| 0 <= k < body.len() ==> is_digit(#[trigger] body[k]) {
        Some(digits_value(body))
    } else {
        None
    }
}

/// The characters of `s`.
pub fn chars_of(s: &str) -> (v: Vec<char>)
    ensures
        v@ == s@,
{
    let mut v: Vec<char> = Vec::new();
    for c in it: s.chars()
        invariant
            v@ == it.seq().take(it.index() as int),
    {
        v.push(c);
    }
    v
}

/// A `String` made of the characters of `v` (`String::from_iter` over chars).
#[verifier::external_body]
pub fn string_of(v: &[char]) -> (s: String)
    ensures
        s@ == v@,
{
    v.iter().collect()
}

pub fn is_whitespace_char(c: char) -> (b: bool)
    ensures
        b == is_ws(c),
{
    let u = c as u32;
    (0x09 <= u && u <= 0x0d) || u == 0x20 || u == 0x85 || u == 0xa0 || u == 0x1680 || (0x2000
        <= u && u <= 0x200a) || u == 0x2028 || u == 0x2029 || u == 0x202f || u == 0x205f || u
        == 0x3000
}

/// The bounds `(lo, hi)` of the trimmed part of `s`.
pub fn trim_bounds(s: &[char]) -> (r: (usize, usize))
    ensures
        r.0 <= r.1 <= s@.len(),
        s@.subrange(r.0 as int, r.1 as int) == trim(s@),
        trim_start(s@) == s@.subrange(r.0 as int, s@.len() as int),
{
    let n = s.len();
    let mut lo: usize = 0;
    assert(s@.subrange(0, n as int) =~= s@);
    while lo < n && is_whitespace_char(s[lo])
        invariant
            lo <= n == s@.len(),
            trim_start(s@) == trim_start(s@.subrange(lo as int, n as int)),
        decreases n - lo,
    {
        assert(s@.subrange(lo as int, n as int).drop_first() =~= s@.subrange(lo + 1, n as int));
        lo = lo + 1;
    }
    assert(trim_start(s@.subrange(lo as int, n as int)) == s@.subrange(lo as int, n as int));
    let mut hi: usize = n;
    while hi > lo && is_whitespace_char(s[hi - 1])
        invariant
            lo <= hi <= n == s@.len(),
            trim_start(s@) == s@.subrange(lo as int, n as int),
            trim(s@) == trim_end(s@.subrange(lo as int, hi as int)),
        decreases hi,
    {
        assert(s@.subrange(lo as int, hi as int).drop_last() =~= s@.subrange(lo as int, hi - 1));
        hi = hi - 1;
    }
    (lo, hi)
}

/// The trimmed characters of `s`.
pub fn trim_chars(s: &[char]) -> (v: Vec<char>)
    ensures
        v@ == trim(s@),
{
    let (lo, hi) = trim_bounds(s);
    slice_range(s, lo, hi)
}

/// The characters `s[lo..hi]`.
pub fn slice_range(s: &[char], lo: usize, hi: usize) -> (v: Vec<char>)
    requires
        lo <= hi <= s@.len(),
    ensures
        v@ == s@.subrange(lo as int, hi as int),
{
    let mut v: Vec<char> = Vec::new();
    let mut i = lo;
    while i < hi
        invariant
            lo <= i <= hi <= s@.len(),
            v@ == s@.subrange(lo as int, i as int),
        decreases hi - i,
    {
        v.push(s[i]);
        i = i + 1;
        assert(v@ =~= s@.subrange(lo as int, i as int));
    }
    v
}

/// `str::trim`: the trimmed part of `s`, borrowed from it.
pub fn trim_str(s: &str) -> (r: &str)
    ensures
        r@ == trim(s@),
{
    let v = chars_of(s);
    let (lo, hi) = trim_bounds(v.as_slice());
    s.substring_char(lo, hi)
}

/// The trimmed text of `s` when it is not empty.
pub open spec fn non_empty_trimmed(s: Seq<char>) -> Option<Seq<char>> {
    if trim(s).len() > 0 {
        Some(trim(s))
    } else {
        None
    }
}

/// Whether `p` occurs in `s` at position `i`.
pub fn occurs_at_exec(s: &[char], p: &[char], i: usize) -> (b: bool)
    ensures
        b == occurs_at(s@, p@, i as int),
{
    if i > s.len() || p.len() > s.len() - i {
        return false;
    }
    let mut k: usize = 0;
    while k < p.len()
        invariant
            i + p@.len() <= s@.len(),
            k <= p@.len(),
            forall|j: int| 0 <= j < k ==> s@[i + j] == p@[j],
            s@.len() <= usize::MAX,
        decreases p@.len() - k,
    {
        assert(i + k < s@.len());
        if s[i + k] != p[k] {
            assert(s@.subrange(i as int, i + p@.len())[k as int] != p@[k as int]);
            return false;
        }
        k = k + 1;
    }
    assert(s@.subrange(i as int, i + p@.len()) =~= p@);
    true
}

pub fn starts_with(s: &[char], p: &[char]) -> (b: bool)
    ensures
        b == has_prefix(s@, p@),
{
    occurs_at_exec(s, p, 0)
}

pub fn ends_with(s: &[char], p: &[char]) -> (b: bool)
    ensures
        b == has_suffix(s@, p@),
{
    if p.len() > s.len() {
        return false;
    }
    occurs_at_exec(s, p, s.len() - p.len())
}

/// The only position that is an occurrence with none before it is the first occurrence.
pub proof fn lemma_first_occurrence(s: Seq<char>, p: Seq<char>, i: int)
    requires
        occurs_at(s, p, i),
        forall|j: int| 0 <= j < i ==> !occurs_at(s, p, j),
    ensures
        first_occurrence(s, p) == Some(i),
{
    reveal(first_occurrence);
    let w = choose|k: int| occurs_at(s, p, k) && forall|j: int| 0 <= j < k ==> !occurs_at(s, p, j);
    assert(occurs_at(s, p, w) && forall|j: int| 0 <= j < w ==> !occurs_at(s, p, j));
    if w < i {
        assert(!occurs_at(s, p, w));
    } else if w > i {
        assert(!occurs_at(s, p, i));
    }
}

/// The first position at which `p` occurs in `s`.
pub fn find(s: &[char], p: &[char]) -> (r: Option<usize>)
    ensures
        r matches Some(i) ==> first_occurrence(s@, p@) == Some(i as int) && occurs_at(
            s@,
            p@,
            i as int,
        ),
        r is None ==> !contains(s@, p@) && first_occurrence(s@, p@) is None,
{
    reveal(first_occurrence);
    if p.len() > s.len() {
        assert forall|i: int| !occurs_at(s@, p@, i) by {}
        return None;
    }
    let last = s.len() - p.len();
    let mut i: usize = 0;
    while i <= last
        invariant
            last + p@.len() == s@.len(),
            forall|j: int| 0 <= j < i ==> !occurs_at(s@, p@, j),
        decreases last + 1 - i,
    {
        if occurs_at_exec(s, p, i) {
            proof {
                lemma_first_occurrence(s@, p@, i as int);
            }
            return Some(i);
        }
        if i == last {
            reveal(first_occurrence);
            assert forall|j: int| !occurs_at(s@, p@, j) by {
                if 0 <= j <= last {
                }
            }
            return None;
        }
        i = i + 1;
    }
    None
}

pub fn contains_exec(s: &[char], p: &[char]) -> (b: bool)
    ensures
        b == contains(s@, p@),
{
    find(s, p).is_some()
}

/// `has_prefix` on string slices.
pub fn str_starts_with(s: &str, p: &str) -> (b: bool)
    ensures
        b == has_prefix(s@, p@),
{
    let sv = chars_of(s);
    let pv = chars_of(p);
    starts_with(sv.as_slice(), pv.as_slice())
}

/// `contains` on string slices.
pub fn str_contains(s: &str, p: &str) -> (b: bool)
    ensures
        b == contains(s@, p@),
{
    let sv = chars_of(s);
    let pv = chars_of(p);
    contains_exec(sv.as_slice(), pv.as_slice())
}

/// The views of a vector of character vectors.
pub open spec fn views(v: Seq<Vec<char>>) -> Seq<Seq<char>> {
    v.map_values(|p: Vec<char>| p@)
}

/// The lines of `s`.
pub fn lines_of(s: &[char]) -> (r: Vec<Vec<char>>)
    ensures
        views(r@) == lines(s@),
{
    let mut done: Vec<Vec<char>> = Vec::new();
    let mut cur: Vec<char> = Vec::new();
    let mut i: usize = 0;
    while i < s.len()
        invariant
            i <= s@.len(),
            views(done@) == lines_scan(s@, i as int).0,
            cur@ == lines_scan(s@, i as int).1,
        decreases s@.len() - i,
    {
        let c = s[i];
        let ghost d0 = done@;
        if c == '\n' {
            let mut line = cur;
            let n = line.len();
            if n > 0 && line[n - 1] == '\r' {
                line.pop();
                assert(line@ =~= strip_cr(lines_scan(s@, i as int).1));
            }
            done.push(line);
            assert(views(done@) =~= views(d0).push(line@));
            cur = Vec::new();
        } else {
            cur.push(c);
        }
        i = i + 1;
    }
    if cur.len() > 0 {
        let ghost d0 = done@;
        done.push(cur);
        assert(views(done@) =~= views(d0).push(cur@));
    }
    done
}

/// The character sets that leading or trailing runs are stripped of.
pub enum CharSet {
    /// `.`, `:`, `-` and whitespace.
    DotColonDashWs,
    /// `:`, `-` and whitespace.
    ColonDashWs,
    /// `-` alone.
    Dash,
    /// The closing quotes and bars `` ` `` `"` `'` `«` `»` `|`.
    ClosingQuotes,
}

pub open spec fn in_set(set: CharSet, c: char) -> bool {
    match set {
        CharSet::DotColonDashWs => c == '.' || c == ':' || c == '-' || is_ws(c),
        CharSet::ColonDashWs => c == ':' || c == '-' || is_ws(c),
        CharSet::Dash => c == '-',
        CharSet::ClosingQuotes => c == '`' || c == '"' || c == '\'' || c == '«' || c == '»' || c
            == '|',
    }
}

pub fn in_set_exec(set: &CharSet, c: char) -> (b: bool)
    ensures
        b == in_set(*set, c),
{
    match set {
        CharSet::DotColonDashWs => c == '.' || c == ':' || c == '-' || is_whitespace_char(c),
        CharSet::ColonDashWs => c == ':' || c == '-' || is_whitespace_char(c),
        CharSet::Dash => c == '-',
        CharSet::ClosingQuotes => c == '`' || c == '"' || c == '\'' || c == '«' || c == '»' || c
            == '|',
    }
}

/// `s` without its leading run of characters from `set` (`trim_start_matches`).
pub open spec fn strip_leading(s: Seq<char>, set: CharSet) -> Seq<char>
    decreases s.len(),
{
    if s.len() > 0 && in_set(set, s[0]) {
        strip_leading(s.drop_first(), set)
    } else {
        s
    }
}

/// `s` without its trailing run of characters from `set` (`trim_end_matches`).
pub open spec fn strip_trailing(s: Seq<char>, set: CharSet) -> Seq<char>
    decreases s.len(),
{
    if s.len() > 0 && in_set(set, s.last()) {
        strip_trailing(s.drop_last(), set)
    } else {
        s
    }
}

pub fn strip_leading_exec(s: &[char], set: CharSet) -> (r: Vec<char>)
    ensures
        r@ == strip_leading(s@, set),
{
    let n = s.len();
    let mut lo: usize = 0;
    assert(s@.subrange(0, n as int) =~= s@);
    while lo < n && in_set_exec(&set, s[lo])
        invariant
            lo <= n == s@.len(),
            strip_leading(s@, set) == strip_leading(s@.subrange(lo as int, n as int), set),
        decreases n - lo,
    {
        assert(s@.subrange(lo as int, n as int).drop_first() =~= s@.subrange(lo + 1, n as int));
        lo = lo + 1;
    }
    slice_range(s, lo, n)
}

pub fn strip_trailing_exec(s: &[char], set: CharSet) -> (r: Vec<char>)
    ensures
        r@ == strip_trailing(s@, set),
{
    let n = s.len();
    let mut hi: usize = n;
    assert(s@.subrange(0, n as int) =~= s@);
    while hi > 0 && in_set_exec(&set, s[hi - 1])
        invariant
            hi <= n == s@.len(),
            strip_trailing(s@, set) == strip_trailing(s@.subrange(0, hi as int), set),
        decreases hi,
    {
        assert(s@.subrange(0, hi as int).drop_last() =~= s@.subrange(0, hi - 1));
        hi = hi - 1;
    }
    slice_range(s, 0, hi)
}

/// Whether two strings are equal.
pub fn str_eq(a: &str, b: &str) -> (r: bool)
    ensures
        r == (a@ == b@),
{
    let av = chars_of(a);
    let bv = chars_of(b);
    chars_eq(av.as_slice(), bv.as_slice())
}

/// Whether two character slices are equal.
pub fn chars_eq(a: &[char], b: &[char]) -> (r: bool)
    ensures
        r == (a@ == b@),
{
    if a.len() != b.len() {
        return false;
    }
    let r = starts_with(a, b);
    assert(a@.subrange(0, b@.len() as int) =~= a@);
    r
}

/// Whether `a` equals the literal `b`.
pub fn chars_eq_str(a: &[char], b: &str) -> (r: bool)
    ensures
        r == (a@ == b@),
{
    let bv = chars_of(b);
    chars_eq(a, bv.as_slice())
}

/// `s` with its whitespace collapsed to single spaces between words.
pub fn collapse_whitespace(s: &[char]) -> (r: Vec<char>)
    ensures
        r@ == collapse_ws(s@),
{
    let mut out: Vec<char> = Vec::new();
    let mut gap = false;
    let mut i: usize = 0;
    while i < s.len()
        invariant
            i <= s@.len(),
            (out@, gap) == collapse_scan(s@, i as int),
        decreases s@.len() - i,
    {
        let c = s[i];
        if is_whitespace_char(c) {
            gap = out.len() > 0;
        } else {
            if gap {
                out.push(' ');
            }
            out.push(c);
            gap = false;
        }
        i = i + 1;
    }
    out
}

/// `s` with every occurrence of `pat` replaced by `rep`.
pub fn replace_exec(s: &[char], pat: &[char], rep: &[char]) -> (r: Vec<char>)
    requires
        pat@.len() > 0,
    ensures
        r@ == replace_all(s@, pat@, rep@),
{
    let mut out: Vec<char> = Vec::new();
    let mut i: usize = 0;
    assert(s@.skip(0) =~= s@);
    assert(out@ + replace_all(s@, pat@, rep@) =~= replace_all(s@, pat@, rep@));
    while i < s.len()
        invariant
            i <= s@.len(),
            pat@.len() > 0,
            replace_all(s@, pat@, rep@) == out@ + replace_all(s@.skip(i as int), pat@, rep@),
        decreases s@.len() - i,
    {
        let ghost rest = s@.skip(i as int);
        if occurs_at_exec(s, pat, i) {
            assert(rest.subrange(0, pat@.len() as int) =~= s@.subrange(
                i as int,
                i + pat@.len(),
            ));
            assert(rest.skip(pat@.len() as int) =~= s@.skip(i + pat@.len()));
            let mut k: usize = 0;
            let ghost out0 = out@;
            while k < rep.len()
                invariant
                    k <= rep@.len(),
                    out@ == out0 + rep@.subrange(0, k as int),
                decreases rep@.len() - k,
            {
                out.push(rep[k]);
                k = k + 1;
                assert(out@ =~= out0 + rep@.subrange(0, k as int));
            }
            assert(rep@.subrange(0, rep@.len() as int) =~= rep@);
            assert(out0 + (rep@ + replace_all(rest.skip(pat@.len() as int), pat@, rep@)) =~= out@
                + replace_all(rest.skip(pat@.len() as int), pat@, rep@));
            i = i + pat.len();
        } else {
            proof {
                if has_prefix(rest, pat@) {
                    assert(rest.subrange(0, pat@.len() as int) =~= s@.subrange(
                        i as int,
                        i + pat@.len(),
                    ));
                }
            }
            assert(rest.drop_first() =~= s@.skip(i + 1));
            let ghost out0 = out@;
            out.push(s[i]);
            assert(out0 + (seq![rest[0]] + replace_all(rest.drop_first(), pat@, rep@)) =~= out@
                + replace_all(rest.drop_first(), pat@, rep@));
            i = i + 1;
        }
    }
    assert(s@.skip(i as int) =~= Seq::<char>::empty());
    assert(out@ + Seq::<char>::empty() =~= out@);
    out
}

/// Appends the characters of `p` to `out`.
pub fn push_all(out: &mut Vec<char>, p: &[char])
    ensures
        final(out)@ == old(out)@ + p@,
{
    let mut k: usize = 0;
    let ghost out0 = out@;
    while k < p.len()
        invariant
            k <= p@.len(),
            out@ == out0 + p@.subrange(0, k as int),
        decreases p@.len() - k,
    {
        out.push(p[k]);
        k = k + 1;
        assert(out@ =~= out0 + p@.subrange(0, k as int));
    }
    assert(p@.subrange(0, p@.len() as int) =~= p@);
}

/// Appends the characters of `p` to `out`.
pub fn push_str(out: &mut Vec<char>, p: &str)
    ensures
        final(out)@ == old(out)@ + p@,
{
    let v = chars_of(p);
    push_all(out, v.as_slice());
}

/// The parts joined with `sep` between neighbours.
pub fn join_chars(parts: &Vec<Vec<char>>, sep: &[char]) -> (r: Vec<char>)
    ensures
        r@ == join(views(parts@), sep@),
{
    let ghost vs = views(parts@);
    let mut out: Vec<char> = Vec::new();
    let mut i: usize = 0;
    while i < parts.len()
        invariant
            i <= parts@.len(),
            vs == views(parts@),
            out@ == join(vs.take(i as int), sep@),
        decreases parts@.len() - i,
    {
        if i > 0 {
            push_all(&mut out, sep);
        }
        push_all(&mut out, parts[i].as_slice());
        proof {
            let t = vs.take(i + 1);
            assert(t.drop_last() =~= vs.take(i as int));
            if i == 0 {
                assert(out@ =~= t[0]);
            }
        }
        i = i + 1;
    }
    assert(vs.take(parts@.len() as int) =~= vs);
    out
}

/// The decimal digits of `n`.
pub fn decimal_chars(n: u64) -> (r: Vec<char>)
    ensures
        r@ == decimal(n as nat),
    decreases n,
{
    let d = n % 10;
    let c = if d == 0 { '0' }
    else if d == 1 { '1' }
    else if d == 2 { '2' }
    else if d == 3 { '3' }
    else if d == 4 { '4' }
    else if d == 5 { '5' }
    else if d == 6 { '6' }
    else if d == 7 { '7' }
    else if d == 8 { '8' }
    else { '9' };
    if n < 10 {
        let mut v = Vec::new();
        v.push(c);
        assert(v@ =~= seq![digit_char(n as nat)]);
        v
    } else {
        let mut v = decimal_chars(n / 10);
        v.push(c);
        v
    }
}

/// `n.to_string()`.
pub fn u64_to_string(n: u64) -> (r: String)
    ensures
        r@ == decimal(n as nat),
{
    let v = decimal_chars(n);
    string_of(v.as_slice())
}

/// Reads an unsigned integer no larger than `max` as `str::parse` does.
pub fn parse_unsigned_bounded(s: &[char], max: u64) -> (r: Option<u64>)
    requires
        max >= 9,
    ensures
        r matches Some(v) ==> parse_unsigned(s@) == Some(v as nat) && v <= max,
        r is None ==> parse_unsigned(s@) is None || parse_unsigned(s@)->0 > max,
{
    let start: usize = if s.len() > 0 && s[0] == '+' { 1 } else { 0 };
    let ghost body = unsigned_body(s@);
    assert(body =~= s@.subrange(start as int, s@.len() as int));
    if start >= s.len() {
        return None;
    }
    let mut value: u64 = 0;
    let mut i: usize = start;
    let mut overflow = false;
    while i < s.len()
        invariant
            start <= i <= s@.len(),
            body =~= s@.subrange(start as int, s@.len() as int),
            body == unsigned_body(s@),
            forall|k: int| start <= k < i ==> is_digit(#[trigger] s@[k]),
            !overflow ==> value as nat == digits_value(s@.subrange(start as int, i as int)),
            overflow ==> digits_value(s@.subrange(start as int, i as int)) > max,
            value <= max,
            max >= 9,
        decreases s@.len() - i,
    {
        let c = s[i];
        if !('0' <= c && c <= '9') {
            assert(!is_digit(body[i - start]));
            assert(!(forall|k: int| 0 <= k < body.len() ==> is_digit(#[trigger] body[k])));
            return None;
        }
        let d = (c as u32 - '0' as u32) as u64;
        proof {
            let pre = s@.subrange(start as int, i as int);
            let post = s@.subrange(start as int, i + 1);
            assert(post.drop_last() =~= pre);
            assert(digits_value(post) == digits_value(pre) * 10 + digit_value(c));
        }
        if !overflow {
            if value > (max - d) / 10 {
                overflow = true;
                assert(value * 10 + d > max) by (nonlinear_arith)
                    requires
                        value > (max - d) / 10,
                        d <= 9,
                        max >= 9,
                ;
            } else {
                assert(value * 10 + d <= max) by (nonlinear_arith)
                    requires
                        value <= (max - d) / 10,
                        d <= 9,
                        max >= 9,
                ;
                value = value * 10 + d;
            }
        } else {
            proof {
                let pre = s@.subrange(start as int, i as int);
                assert(digits_value(pre) * 10 + digit_value(c) > max) by (nonlinear_arith)
                    requires
                        digits_value(pre) > max,
                        digit_value(c) >= 0,
                ;
            }
        }
        i = i + 1;
    }
    assert(forall|k: int| 0 <= k < body.len() ==> is_digit(#[trigger] body[k]) ) by {
        assert forall|k: int| 0 <= k < body.len() implies is_digit(#[trigger] body[k]) by {
            assert(body[k] == s@[start + k]);
        }
    }
    if overflow {
        None
    } else {
        Some(value)
    }
}


/// UTF-8 encoding distributes over concatenation.
pub proof fn lemma_encode_utf8_concat(a: Seq<char>, b: Seq<char>)
    ensures
        vstd::utf8::encode_utf8(a + b) == vstd::utf8::encode_utf8(a) + vstd::utf8::encode_utf8(b),
    decreases a.len(),
{
    if a.len() == 0 {
        assert(a + b =~= b);
        assert(vstd::utf8::encode_utf8(a) =~= Seq::<u8>::empty());
        assert(Seq::<u8>::empty() + vstd::utf8::encode_utf8(b) =~= vstd::utf8::encode_utf8(b));
    } else {
        assert((a + b).drop_first() =~= a.drop_first() + b);
        assert((a + b)[0] == a[0]);
        lemma_encode_utf8_concat(a.drop_first(), b);
        assert(vstd::utf8::encode_scalar(a[0] as u32) + (vstd::utf8::encode_utf8(a.drop_first())
            + vstd::utf8::encode_utf8(b)) =~= (vstd::utf8::encode_scalar(a[0] as u32)
            + vstd::utf8::encode_utf8(a.drop_first())) + vstd::utf8::encode_utf8(b));
    }
}

/// The UTF-8 length of `s` grows by the width of each character appended.
pub proof fn lemma_encode_utf8_push(s: Seq<char>, c: char)
    ensures
        vstd::utf8::encode_utf8(s.push(c)).len() == vstd::utf8::encode_utf8(s).len()
            + vstd::utf8::encode_scalar(c as u32).len(),
{
    lemma_encode_utf8_concat(s, seq![c]);
    assert(s.push(c) =~= s + seq![c]);
    assert(seq![c].drop_first() =~= Seq::<char>::empty());
    assert(vstd::utf8::encode_utf8(seq![c]) =~= vstd::utf8::encode_scalar(c as u32)
        + vstd::utf8::encode_utf8(Seq::<char>::empty()));
    assert(vstd::utf8::encode_utf8(Seq::<char>::empty()) =~= Seq::<u8>::empty());
}

/// The number of bytes `c` takes in UTF-8.
pub fn utf8_width(c: char) -> (w: usize)
    ensures
        w == vstd::utf8::encode_scalar(c as u32).len(),
        1 <= w <= 4,
{
    let u = c as u32;
    if u <= 0x7f {
        1
    } else if u <= 0x7ff {
        2
    } else if u <= 0xffff && !(0xd800 <= u && u <= 0xdfff) {
        3
    } else {
        4
    }
}

/// The number of bytes of `s` in UTF-8.
pub open spec fn byte_len(s: Seq<char>) -> nat {
    vstd::utf8::encode_utf8(s).len()
}

/// The byte length of `s[..i]` for every `i`, computed without overflow when the whole
/// fits in a `usize`.
pub fn byte_len_exec(s: &[char]) -> (n: u64)
    requires
        byte_len(s@) <= u64::MAX,
    ensures
        n == byte_len(s@),
{
    let mut n: u64 = 0;
    let mut i: usize = 0;
    while i < s.len()
        invariant
            i <= s@.len(),
            n == byte_len(s@.take(i as int)),
            byte_len(s@) <= u64::MAX,
        decreases s@.len() - i,
    {
        proof {
            lemma_encode_utf8_push(s@.take(i as int), s@[i as int]);
            assert(s@.take(i as int).push(s@[i as int]) =~= s@.take(i + 1));
            lemma_byte_len_prefix_le(s@, i + 1);
        }
        n = n + utf8_width(s[i]) as u64;
        i = i + 1;
    }
    assert(s@.take(i as int) =~= s@);
    n
}

/// A prefix takes no more bytes than the whole.
pub proof fn lemma_byte_len_prefix_le(s: Seq<char>, k: int)
    requires
        0 <= k <= s.len(),
    ensures
        byte_len(s.take(k)) <= byte_len(s),
{
    lemma_encode_utf8_concat(s.take(k), s.skip(k));
    assert(s.take(k) + s.skip(k) =~= s);
}


/// The index of the last `c` in `s`.
pub open spec fn last_index_of(s: Seq<char>, c: char) -> Option<int>
    decreases s.len(),
{
    if s.len() == 0 {
        None
    } else if s.last() == c {
        Some(s.len() - 1)
    } else {
        last_index_of(s.drop_last(), c)
    }
}

/// The index of the last `c` in `s`, searching back from the end.
pub fn last_index_of_exec(s: &[char], c: char) -> (r: Option<usize>)
    ensures
        match r {
            Some(i) => last_index_of(s@, c) == Some(i as int) && i < s@.len(),
            None => last_index_of(s@, c) is None,
        },
{
    let mut i: usize = s.len();
    assert(s@.take(i as int) =~= s@);
    while i > 0
        invariant
            i <= s@.len(),
            last_index_of(s@, c) == last_index_of(s@.take(i as int), c),
        decreases i,
    {
        assert(s@.take(i as int).drop_last() =~= s@.take(i - 1));
        if s[i - 1] == c {
            return Some(i - 1);
        }
        i = i - 1;
    }
    None
}

/// The character index at which the first `b` bytes of `s` end, looking from `k` on.
pub open spec fn boundary_from(s: Seq<char>, b: int, k: int) -> Option<int>
    decreases s.len() + 1 - k,
{
    if k < 0 || k > s.len() {
        None
    } else if byte_len(s.take(k)) == b {
        Some(k)
    } else {
        boundary_from(s, b, k + 1)
    }
}

/// The character index at which the first `b` bytes of `s` end, when a character
/// boundary falls there.
pub open spec fn char_boundary(s: Seq<char>, b: int) -> Option<int> {
    boundary_from(s, b, 0)
}

proof fn lemma_boundary_from(s: Seq<char>, b: int, k: int)
    requires
        0 <= k <= s.len() + 1,
    ensures
        match boundary_from(s, b, k) {
            Some(i) => k <= i <= s.len() && byte_len(s.take(i)) == b,
            None => forall|i: int| k <= i <= s.len() ==> byte_len(#[trigger] s.take(i)) != b,
        },
    decreases s.len() + 1 - k,
{
    if k <= s.len() {
        lemma_boundary_from(s, b, k + 1);
    }
}

/// What `char_boundary` finds: an index whose prefix takes exactly `b` bytes.
pub proof fn lemma_char_boundary(s: Seq<char>, b: int)
    ensures
        match char_boundary(s, b) {
            Some(i) => 0 <= i <= s.len() && byte_len(s.take(i)) == b,
            None => forall|i: int| 0 <= i <= s.len() ==> byte_len(#[trigger] s.take(i)) != b,
        },
{
    lemma_boundary_from(s, b, 0);
}

/// The character index at which the first `b` bytes of `s` end, if any.
pub fn char_boundary_exec(s: &[char], b: u64) -> (r: Option<usize>)
    requires
        byte_len(s@) <= u64::MAX,
    ensures
        match r {
            Some(i) => char_boundary(s@, b as int) == Some(i as int),
            None => char_boundary(s@, b as int) is None,
        },
{
    let mut cum: u64 = 0;
    let mut k: usize = 0;
    assert(s@.take(0) =~= Seq::<char>::empty());
    assert(vstd::utf8::encode_utf8(Seq::<char>::empty()) =~= Seq::<u8>::empty());
    while k < s.len()
        invariant
            k <= s@.len(),
            cum == byte_len(s@.take(k as int)),
            byte_len(s@) <= u64::MAX,
            char_boundary(s@, b as int) == boundary_from(s@, b as int, k as int),
        decreases s@.len() - k,
    {
        if cum == b {
            return Some(k);
        }
        proof {
            lemma_encode_utf8_push(s@.take(k as int), s@[k as int]);
            assert(s@.take(k as int).push(s@[k as int]) =~= s@.take(k + 1));
            lemma_byte_len_prefix_le(s@, k + 1);
        }
        cum = cum + utf8_width(s[k]) as u64;
        k = k + 1;
    }
    if cum == b {
        Some(k)
    } else {
        assert(boundary_from(s@, b as int, k as int + 1) is None);
        None
    }
}

/// A character takes at most four bytes.
pub proof fn lemma_byte_len_bound(s: Seq<char>)
    ensures
        byte_len(s) <= 4 * s.len(),
    decreases s.len(),
{
    if s.len() > 0 {
        lemma_byte_len_bound(s.drop_first());
        assert(vstd::utf8::encode_scalar(s[0] as u32).len() <= 4);
    }
}

/// Longer prefixes take at least as many bytes.
pub proof fn lemma_byte_len_take_mono(s: Seq<char>, i: int, j: int)
    requires
        0 <= i <= j <= s.len(),
    ensures
        byte_len(s.take(i)) <= byte_len(s.take(j)),
{
    lemma_byte_len_prefix_le(s.take(j), i);
    assert(s.take(j).take(i) =~= s.take(i));
}

/// `trim_start` keeps a suffix whose first character is not whitespace.
pub proof fn lemma_trim_start_shape(s: Seq<char>)
    ensures
        exists|k: int| 0 <= k <= s.len() && trim_start(s) == s.skip(k),
        trim_start(s).len() > 0 ==> !is_ws(trim_start(s)[0]),
    decreases s.len(),
{
    if s.len() > 0 && is_ws(s[0]) {
        lemma_trim_start_shape(s.drop_first());
        let k = choose|k: int| 0 <= k <= s.drop_first().len() && trim_start(s.drop_first()) == s.drop_first().skip(k);
        assert(s.drop_first().skip(k) =~= s.skip(k + 1));
    } else {
        assert(s.skip(0) =~= s);
    }
}

/// `trim_end` keeps a prefix whose last character is not whitespace.
pub proof fn lemma_trim_end_shape(s: Seq<char>)
    ensures
        exists|k: int| 0 <= k <= s.len() && trim_end(s) == s.take(k),
        trim_end(s).len() > 0 ==> !is_ws(trim_end(s).last()),
    decreases s.len(),
{
    if s.len() > 0 && is_ws(s.last()) {
        lemma_trim_end_shape(s.drop_last());
        let k = choose|k: int| 0 <= k <= s.drop_last().len() && trim_end(s.drop_last()) == s.drop_last().take(k);
        assert(s.drop_last().take(k) =~= s.take(k));
    } else {
        assert(s.take(s.len() as int) =~= s);
    }
}

/// `strip_leading` keeps a suffix whose first character is outside the set.
pub proof fn lemma_strip_leading_shape(s: Seq<char>, set: CharSet)
    ensures
        exists|k: int| 0 <= k <= s.len() && strip_leading(s, set) == s.skip(k),
        strip_leading(s, set).len() > 0 ==> !in_set(set, strip_leading(s, set)[0]),
    decreases s.len(),
{
    if s.len() > 0 && in_set(set, s[0]) {
        lemma_strip_leading_shape(s.drop_first(), set);
        let k = choose|k: int|
            0 <= k <= s.drop_first().len() && strip_leading(s.drop_first(), set)
                == s.drop_first().skip(k);
        assert(s.drop_first().skip(k) =~= s.skip(k + 1));
    } else {
        assert(s.skip(0) =~= s);
    }
}

/// `strip_trailing` keeps a prefix whose last character is outside the set.
pub proof fn lemma_strip_trailing_shape(s: Seq<char>, set: CharSet)
    ensures
        exists|k: int| 0 <= k <= s.len() && strip_trailing(s, set) == s.take(k),
        strip_trailing(s, set).len() > 0 ==> !in_set(set, strip_trailing(s, set).last()),
    decreases s.len(),
{
    if s.len() > 0 && in_set(set, s.last()) {
        lemma_strip_trailing_shape(s.drop_last(), set);
        let k = choose|k: int|
            0 <= k <= s.drop_last().len() && strip_trailing(s.drop_last(), set)
                == s.drop_last().take(k);
        assert(s.drop_last().take(k) =~= s.take(k));
    } else {
        assert(s.take(s.len() as int) =~= s);
    }
}

/// Text in collapsed form: its only whitespace is single spaces between other characters.
pub open spec fn collapsed_form(n: Seq<char>) -> bool {
    &&& forall|i: int| 0 <= i < n.len() && is_ws(#[trigger] n[i]) ==> n[i] == ' '
    &&& n.len() > 0 ==> n[0] != ' ' && n.last() != ' '
    &&& forall|i: int| 0 <= i && i + 1 < n.len() && #[trigger] n[i] == ' ' ==> n[i + 1] != ' '
}

/// Collapsing yields text in collapsed form, with a space owed only after some output,
/// and brings in no character other than a space.
pub proof fn lemma_collapse_scan_form(s: Seq<char>, i: int)
    requires
        0 <= i <= s.len(),
    ensures
        collapsed_form(collapse_scan(s, i).0),
        collapse_scan(s, i).1 ==> collapse_scan(s, i).0.len() > 0,
        forall|k: int|
            0 <= k < collapse_scan(s, i).0.len() ==> #[trigger] collapse_scan(s, i).0[k] == ' '
                || exists|j: int| 0 <= j < i && s[j] == collapse_scan(s, i).0[k],
    decreases i,
{
    if i > 0 {
        lemma_collapse_scan_form(s, i - 1);
        let (out, gap) = collapse_scan(s, i - 1);
        let c = s[i - 1];
        let r = collapse_scan(s, i).0;
        assert(is_ws(' '));
        if is_ws(c) {
        } else if gap {
            assert(r == out.push(' ').push(c));
            assert forall|k: int| 0 <= k && k + 1 < r.len() && #[trigger] r[k] == ' ' implies r[k
                + 1] != ' ' by {
                if k + 2 < r.len() {
                    assert(r[k] == out[k]);
                    if k + 1 < out.len() {
                        assert(r[k + 1] == out[k + 1]);
                    }
                }
            }
            assert forall|k: int| 0 <= k < r.len() && is_ws(#[trigger] r[k]) implies r[k]
                == ' ' by {
                if k < out.len() {
                    assert(r[k] == out[k]);
                }
            }
            assert forall|k: int| 0 <= k < r.len() implies #[trigger] r[k] == ' ' || exists|j: int|
                0 <= j < i && s[j] == r[k] by {
                if k < out.len() {
                    assert(r[k] == out[k]);
                    if out[k] != ' ' {
                        let j = choose|j: int| 0 <= j < i - 1 && s[j] == out[k];
                        assert(0 <= j < i && s[j] == r[k]);
                    }
                } else if k == out.len() + 1 {
                    assert(s[i - 1] == r[k]);
                }
            }
        } else {
            assert(r == out.push(c));
            assert forall|k: int| 0 <= k && k + 1 < r.len() && #[trigger] r[k] == ' ' implies r[k
                + 1] != ' ' by {
                assert(r[k] == out[k]);
                if k + 1 < out.len() {
                    assert(r[k + 1] == out[k + 1]);
                }
            }
            assert forall|k: int| 0 <= k < r.len() && is_ws(#[trigger] r[k]) implies r[k]
                == ' ' by {
                if k < out.len() {
                    assert(r[k] == out[k]);
                }
            }
            assert forall|k: int| 0 <= k < r.len() implies #[trigger] r[k] == ' ' || exists|j: int|
                0 <= j < i && s[j] == r[k] by {
                if k < out.len() {
                    assert(r[k] == out[k]);
                    if out[k] != ' ' {
                        let j = choose|j: int| 0 <= j < i - 1 && s[j] == out[k];
                        assert(0 <= j < i && s[j] == r[k]);
                    }
                } else {
                    assert(s[i - 1] == r[k]);
                }
            }
        }
    }
}

proof fn lemma_collapse_scan_of_form(n: Seq<char>, i: int)
    requires
        collapsed_form(n),
        0 <= i <= n.len(),
    ensures
        collapse_scan(n, i) == (if i > 0 && n[i - 1] == ' ' {
            (n.take(i - 1), true)
        } else {
            (n.take(i), false)
        }),
    decreases i,
{
    if i == 0 {
        assert(n.take(0) =~= Seq::<char>::empty());
    } else {
        lemma_collapse_scan_of_form(n, i - 1);
        let c = n[i - 1];
        if i == 1 {
            assert(n.take(0) =~= Seq::<char>::empty());
            assert(Seq::<char>::empty().push(c) =~= n.take(1));
        } else if c == ' ' {
            assert(n[i - 2] != ' ');
        } else {
            if n[i - 2] == ' ' {
                assert(n.take(i - 2).push(' ').push(c) =~= n.take(i));
            } else {
                assert(n.take(i - 1).push(c) =~= n.take(i));
            }
        }
    }
}

/// Collapsing text already in collapsed form leaves it as it is.
pub proof fn lemma_collapse_of_form(n: Seq<char>)
    requires
        collapsed_form(n),
    ensures
        collapse_ws(n) == n,
{
    lemma_collapse_scan_of_form(n, n.len() as int);
    assert(n.take(n.len() as int) =~= n);
}

/// Joined parts, two or more, start with the first part and the separator.
pub proof fn lemma_join_starts_with_first(parts: Seq<Seq<char>>, sep: Seq<char>)
    requires
        parts.len() >= 2,
    ensures
        has_prefix(join(parts, sep), parts[0] + sep),
    decreases parts.len(),
{
    let j = join(parts, sep);
    let p = parts.drop_last();
    if parts.len() == 2 {
        assert(join(p, sep) == parts[0]);
        assert(j.subrange(0, (parts[0] + sep).len() as int) =~= parts[0] + sep);
    } else {
        lemma_join_starts_with_first(p, sep);
        let jp = join(p, sep);
        assert(p[0] == parts[0]);
        assert(j == jp + sep + parts.last());
        assert(j.subrange(0, (parts[0] + sep).len() as int) =~= jp.subrange(
            0,
            (parts[0] + sep).len() as int,
        ));
    }
}

/// Joined parts start with the join of their first `k` parts and the separator, for any
/// `k` short of all of them.
pub proof fn lemma_join_starts_with_parts(parts: Seq<Seq<char>>, sep: Seq<char>, k: int)
    requires
        1 <= k < parts.len(),
    ensures
        has_prefix(join(parts, sep), join(parts.take(k), sep) + sep),
    decreases parts.len(),
{
    let j = join(parts, sep);
    let p = parts.drop_last();
    let w = join(parts.take(k), sep) + sep;
    assert(j == join(p, sep) + sep + parts.last());
    if k == parts.len() - 1 {
        assert(parts.take(k) =~= p);
        assert(j.subrange(0, w.len() as int) =~= w);
    } else {
        lemma_join_starts_with_parts(p, sep, k);
        assert(p.take(k) =~= parts.take(k));
        assert(j.subrange(0, w.len() as int) =~= join(p, sep).subrange(0, w.len() as int));
    }
}

/// Joined parts, two or more, end with the separator and the last part.
pub proof fn lemma_join_ends_with_last(parts: Seq<Seq<char>>, sep: Seq<char>)
    requires
        parts.len() >= 2,
    ensures
        has_suffix(join(parts, sep), sep + parts.last()),
{
    let j = join(parts, sep);
    let jp = join(parts.drop_last(), sep);
    assert(j == jp + sep + parts.last());
    assert(j.subrange(j.len() - (sep + parts.last()).len(), j.len() as int) =~= sep + parts.last());
}

/// Trimming what is already trimmed changes nothing.
pub proof fn lemma_trim_idempotent(s: Seq<char>)
    ensures
        trim(trim(s)) == trim(s),
{
    let a = trim_start(s);
    lemma_trim_start_shape(s);
    let b = trim_end(a);
    lemma_trim_end_shape(a);
    let k = choose|k: int| 0 <= k <= a.len() && trim_end(a) == a.take(k);
    if b.len() > 0 {
        assert(b[0] == a[0]);
        assert(trim_start(b) == b);
        assert(trim_end(b) == b);
    } else {
        assert(trim_start(b) == b);
        assert(trim_end(b) == b);
    }
}

} // verus!
