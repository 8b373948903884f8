//! Clean-surface launch commands for compact chat: shell quoting, URL encoding, artifact
//! paths under a repository root, the VS Code profile name and the bridge commands.
use vstd::prelude::*;
use sha2::Digest;
use crate::text::{
    chars_of, decimal, decimal_chars, has_prefix, has_suffix, is_ws, push_all, push_str,
    replace_all, replace_exec, slice_range, string_of, trim, trim_str, CharSet,
};

verus! {

/// An ASCII letter or digit.
pub open spec fn is_ascii_alnum(c: char) -> bool {
    ('a' <= c && c <= 'z') || ('A' <= c && c <= 'Z') || ('0' <= c && c <= '9')
}

pub fn is_ascii_alnum_exec(c: char) -> (b: bool)
    ensures
        b == is_ascii_alnum(c),
{
    ('a' <= c && c <= 'z') || ('A' <= c && c <= 'Z') || ('0' <= c && c <= '9')
}

/// A character that a shell word may hold without quoting.
pub open spec fn shell_safe(c: char) -> bool {
    is_ascii_alnum(c) || c == '/' || c == '.' || c == '_' || c == '-'
}

/// A shell word for `value`: `''` when empty, the value itself when every character is
/// safe, and otherwise the value in single quotes with each `'` written as `'\''`.
pub open spec fn shell_quoted(value: Seq<char>) -> Seq<char> {
    if value.len() == 0 {
        "''"@
    } else if forall|k: int| 0 <= k < value.len() ==> shell_safe(#[trigger] value[k]) {
        value
    } else {
        "'"@ + replace_all(value, "'"@, "'\\''"@) + "'"@
    }
}

/// How a POSIX shell reads a word outside quotes: `'` opens a single-quoted run, `\`
/// takes the next character literally, and any other character stands for itself.
pub open spec fn shell_read(w: Seq<char>) -> Seq<char>
    decreases w.len(), 1int,
{
    if w.len() == 0 {
        Seq::empty()
    } else if w[0] == '\'' {
        shell_read_quoted(w.drop_first())
    } else if w[0] == '\\' && w.len() >= 2 {
        seq![w[1]] + shell_read(w.skip(2))
    } else {
        seq![w[0]] + shell_read(w.drop_first())
    }
}

/// How a POSIX shell reads inside single quotes: every character stands for itself up to
/// the closing `'`.
pub open spec fn shell_read_quoted(w: Seq<char>) -> Seq<char>
    decreases w.len(), 0int,
{
    if w.len() == 0 {
        Seq::empty()
    } else if w[0] == '\'' {
        shell_read(w.drop_first())
    } else {
        seq![w[0]] + shell_read_quoted(w.drop_first())
    }
}

proof fn lemma_read_safe(v: Seq<char>)
    requires
        forall|k: int| 0 <= k < v.len() ==> shell_safe(#[trigger] v[k]),
    ensures
        shell_read(v) == v,
    decreases v.len(),
{
    if v.len() > 0 {
        assert(shell_safe(v[0]));
        let t = v.drop_first();
        assert forall|k: int| 0 <= k < t.len() implies shell_safe(#[trigger] t[k]) by {
            assert(t[k] == v[k + 1]);
        }
        lemma_read_safe(t);
        assert(seq![v[0]] + t =~= v);
    }
}

proof fn lemma_read_escaped(v: Seq<char>, tail: Seq<char>)
    ensures
        shell_read_quoted(replace_all(v, "'"@, "'\\''"@) + "'"@ + tail) == v + shell_read(tail),
    decreases v.len(),
{
    reveal_strlit("'");
    reveal_strlit("'\\''");
    let r = replace_all(v, "'"@, "'\\''"@);
    let w = r + "'"@ + tail;
    if v.len() == 0 {
        assert(w =~= seq!['\''] + tail);
        assert(w[0] == '\'');
        assert(w.drop_first() =~= tail);
        assert(shell_read_quoted(w) == shell_read(tail));
        assert(v + shell_read(tail) =~= shell_read(tail));
    } else {
        let t = v.drop_first();
        let rt = replace_all(t, "'"@, "'\\''"@);
        lemma_read_escaped(t, tail);
        let rest = rt + "'"@ + tail;
        assert(shell_read_quoted(rest) == t + shell_read(tail));
        if v[0] == '\'' {
            assert(has_prefix(v, "'"@)) by {
                assert(v.subrange(0, 1) =~= "'"@);
            }
            assert(v.skip(1) =~= t);
            assert(r == "'\\''"@ + rt);
            assert(w =~= seq!['\'', '\\', '\'', '\''] + rest);
            let w1 = w.drop_first();
            assert(w1 =~= seq!['\\', '\'', '\''] + rest);
            assert(shell_read_quoted(w) == shell_read(w1));
            let w2 = w1.skip(2);
            assert(w2 =~= seq!['\''] + rest);
            assert(w1[0] == '\\' && w1.len() >= 2 && w1[1] == '\'');
            assert(shell_read(w1) == seq!['\''] + shell_read(w2));
            assert(w2[0] == '\'');
            assert(w2.drop_first() =~= rest);
            assert(shell_read(w2) == shell_read_quoted(rest));
            assert(seq!['\''] + (t + shell_read(tail)) =~= v + shell_read(tail));
        } else {
            assert(!has_prefix(v, "'"@)) by {
                if has_prefix(v, "'"@) {
                    assert(v.subrange(0, 1)[0] == v[0]);
                }
            }
            assert(r == seq![v[0]] + rt);
            assert(w =~= seq![v[0]] + rest);
            assert(w[0] == v[0]);
            assert(w.drop_first() =~= rest);
            assert(shell_read_quoted(w) == seq![v[0]] + shell_read_quoted(rest));
            assert(seq![v[0]] + (t + shell_read(tail)) =~= v + shell_read(tail));
        }
    }
}

/// A law of shell quoting: the word `shell_quoted` writes reads back, in a POSIX shell,
/// as exactly the value that was quoted, whatever characters it holds.
pub proof fn lemma_shell_quote_round_trip(value: Seq<char>)
    ensures
        shell_read(shell_quoted(value)) == value,
        shell_quoted(value).len() > 0,
{
    reveal_strlit("''");
    reveal_strlit("'");
    if value.len() == 0 {
        let w = "''"@;
        assert(w[0] == '\'');
        let w1 = w.drop_first();
        assert(w1 =~= seq!['\'']);
        assert(shell_read(w) == shell_read_quoted(w1));
        assert(w1.drop_first() =~= Seq::<char>::empty());
        assert(shell_read_quoted(w1) == shell_read(Seq::<char>::empty()));
    } else if forall|k: int| 0 <= k < value.len() ==> shell_safe(#[trigger] value[k]) {
        lemma_read_safe(value);
    } else {
        let r = replace_all(value, "'"@, "'\\''"@);
        lemma_read_escaped(value, Seq::empty());
        let w = "'"@ + r + "'"@;
        assert(w[0] == '\'');
        assert(w.drop_first() =~= r + "'"@ + Seq::<char>::empty());
        assert(shell_read(w) == shell_read_quoted(w.drop_first()));
        assert(value + shell_read(Seq::<char>::empty()) =~= value);
    }
}

fn shell_quote_chars(value: &[char]) -> (r: Vec<char>)
    ensures
        r@ == shell_quoted(value@),
{
    if value.len() == 0 {
        let mut r = Vec::new();
        push_str(&mut r, "''");
        return r;
    }
    let mut k: usize = 0;
    let mut safe = true;
    while k < value.len()
        invariant
            k <= value@.len(),
            safe == forall|j: int| 0 <= j < k ==> shell_safe(#[trigger] value@[j]),
        decreases value@.len() - k,
    {
        let c = value[k];
        let ok = is_ascii_alnum_exec(c) || c == '/' || c == '.' || c == '_' || c == '-';
        safe = safe && ok;
        k = k + 1;
    }
    if safe {
        return slice_range(value, 0, value.len());
    }
    let quote = chars_of("'");
    let escaped = chars_of("'\\''");
    proof {
        reveal_strlit("'");
    }
    let inner = replace_exec(value, quote.as_slice(), escaped.as_slice());
    let mut r = Vec::new();
    push_str(&mut r, "'");
    push_all(&mut r, inner.as_slice());
    push_str(&mut r, "'");
    r
}

pub fn shell_quote(value: &str) -> (r: String)
    ensures
        r@ == shell_quoted(value@),
{
    let v = chars_of(value);
    let q = shell_quote_chars(v.as_slice());
    proof {
        assert(v@.subrange(0, v@.len() as int) =~= v@);
    }
    string_of(q.as_slice())
}

/// The words quoted and joined by single spaces.
pub open spec fn shell_joined(args: Seq<Seq<char>>) -> Seq<char>
    decreases args.len(),
{
    if args.len() == 0 {
        Seq::empty()
    } else if args.len() == 1 {
        shell_quoted(args[0])
    } else {
        shell_joined(args.drop_last()) + " "@ + shell_quoted(args.last())
    }
}

pub open spec fn str_views(v: Seq<&str>) -> Seq<Seq<char>> {
    v.map_values(|s: &str| s@)
}

pub fn shell_join_command(args: &[&str]) -> (r: String)
    ensures
        r@ == shell_joined(str_views(args@)),
{
    let ghost a = str_views(args@);
    let mut out: Vec<char> = Vec::new();
    let mut i: usize = 0;
    while i < args.len()
        invariant
            i <= args@.len(),
            a == str_views(args@),
            out@ == shell_joined(a.take(i as int)),
        decreases args@.len() - i,
    {
        let v = chars_of(args[i]);
        let q = shell_quote_chars(v.as_slice());
        if i > 0 {
            push_str(&mut out, " ");
        }
        push_all(&mut out, q.as_slice());
        proof {
            let t = a.take(i + 1);
            assert(t.drop_last() =~= a.take(i as int));
            assert(t.last() == args@[i as int]@);
            if i == 0 {
                assert(out@ =~= shell_quoted(t[0]));
            }
        }
        i = i + 1;
    }
    assert(a.take(args@.len() as int) =~= a);
    string_of(out.as_slice())
}

/// A byte that a URL component may hold unescaped.
pub open spec fn url_unreserved(b: u8) -> bool {
    (65 <= b && b <= 90) || (97 <= b && b <= 122) || (48 <= b && b <= 57) || b == 45 || b == 95
        || b == 46 || b == 126
}

/// The upper-case hexadecimal digit for `d < 16`.
pub open spec fn hex_upper(d: u8) -> char {
    if d < 10 {
        (('0' as u8) + d) as char
    } else {
        (('A' as u8) + d - 10) as char
    }
}

/// The lower-case hexadecimal digit for `d < 16`.
pub open spec fn hex_lower(d: u8) -> char {
    if d < 10 {
        (('0' as u8) + d) as char
    } else {
        (('a' as u8) + d - 10) as char
    }
}

/// The percent-encoding of one byte.
pub open spec fn url_byte(b: u8) -> Seq<char> {
    if url_unreserved(b) {
        seq![b as char]
    } else {
        seq!['%', hex_upper(b / 16), hex_upper(b % 16)]
    }
}

/// The percent-encoding of a byte string.
pub open spec fn url_encoded(bs: Seq<u8>) -> Seq<char>
    decreases bs.len(),
{
    if bs.len() == 0 {
        Seq::empty()
    } else {
        url_encoded(bs.drop_last()) + url_byte(bs.last())
    }
}

fn hex_upper_exec(d: u8) -> (c: char)
    requires
        d < 16,
    ensures
        c == hex_upper(d),
{
    if d < 10 {
        (('0' as u8) + d) as char
    } else {
        (('A' as u8) + d - 10) as char
    }
}

fn hex_lower_exec(d: u8) -> (c: char)
    requires
        d < 16,
    ensures
        c == hex_lower(d),
{
    if d < 10 {
        (('0' as u8) + d) as char
    } else {
        (('a' as u8) + d - 10) as char
    }
}

/// Percent-encodes the UTF-8 bytes of `value`, keeping letters, digits and `-_.~`.
pub fn url_encode_component(value: &str) -> (r: String)
    ensures
        r@ == url_encoded(vstd::utf8::encode_utf8(value@)),
{
    let bytes = value.as_bytes();
    let mut out: Vec<char> = Vec::new();
    let mut i: usize = 0;
    while i < bytes.len()
        invariant
            i <= bytes@.len(),
            bytes@ == vstd::utf8::encode_utf8(value@),
            out@ == url_encoded(bytes@.take(i as int)),
        decreases bytes@.len() - i,
    {
        let b = bytes[i];
        let ghost o0 = out@;
        if (65 <= b && b <= 90) || (97 <= b && b <= 122) || (48 <= b && b <= 57) || b == 45 || b
            == 95 || b == 46 || b == 126 {
            out.push(b as char);
        } else {
            out.push('%');
            out.push(hex_upper_exec(b / 16));
            out.push(hex_upper_exec(b % 16));
        }
        proof {
            let t = bytes@.take(i + 1);
            assert(t.drop_last() =~= bytes@.take(i as int));
            assert(out@ =~= o0 + url_byte(b));
        }
        i = i + 1;
    }
    assert(bytes@.take(bytes@.len() as int) =~= bytes@);
    string_of(out.as_slice())
}

/// `root` joined with `rel` as `Path::join` does: an absolute `rel` replaces the root, an
/// empty root or one that ends in `/` is followed directly, any other root gets a `/`.
pub open spec fn path_join(root: Seq<char>, rel: Seq<char>) -> Seq<char> {
    if has_prefix(rel, "/"@) {
        rel
    } else if root.len() == 0 || has_suffix(root, "/"@) {
        root + rel
    } else {
        root + "/"@ + rel
    }
}

pub fn join_path(root: &str, rel: &str) -> (r: String)
    ensures
        r@ == path_join(root@, rel@),
{
    let rv = chars_of(root);
    let relv = chars_of(rel);
    let slash = chars_of("/");
    let mut out: Vec<char> = Vec::new();
    if crate::text::starts_with(relv.as_slice(), slash.as_slice()) {
        push_all(&mut out, relv.as_slice());
        return string_of(out.as_slice());
    }
    push_all(&mut out, rv.as_slice());
    if !(rv.len() == 0 || crate::text::ends_with(rv.as_slice(), slash.as_slice())) {
        push_str(&mut out, "/");
    }
    push_all(&mut out, relv.as_slice());
    string_of(out.as_slice())
}

/// The compact-chat prompt artifact under the repository root.
pub fn compact_chat_prompt_artifact_path(repo_root: &str) -> (r: String)
    ensures
        r@ == path_join(repo_root@, ".amai/continuity/compact-chat-prompt.txt"@),
{
    join_path(repo_root, ".amai/continuity/compact-chat-prompt.txt")
}

/// Where the VS Code bridge writes the launch result.
pub fn compact_chat_bridge_result_path(repo_root: &str) -> (r: String)
    ensures
        r@ == path_join(repo_root@, ".amai/continuity/compact-chat-launch-result.json"@),
{
    join_path(repo_root, ".amai/continuity/compact-chat-launch-result.json")
}

/// Where the live verification of the VS Code bridge is recorded.
pub fn compact_chat_bridge_live_state_path(repo_root: &str) -> (r: String)
    ensures
        r@ == path_join(repo_root@, ".amai/onboarding/vscode-public-bridge-live-state.json"@),
{
    join_path(repo_root, ".amai/onboarding/vscode-public-bridge-live-state.json")
}

/// The startup runtime state artifact under the repository root.
pub fn startup_runtime_state_artifact_path(repo_root: &str) -> (r: String)
    ensures
        r@ == path_join(repo_root@, ".amai/continuity/project-chat-startup-state.json"@),
{
    join_path(repo_root, ".amai/continuity/project-chat-startup-state.json")
}

/// The components of a path: its `/`-separated pieces without empty pieces and `.`.
pub open spec fn components_scan(p: Seq<char>, i: int) -> (Seq<Seq<char>>, Seq<char>)
    decreases i,
{
    if i <= 0 {
        (Seq::empty(), Seq::empty())
    } else {
        let (done, cur) = components_scan(p, i - 1);
        if p[i - 1] == '/' {
            (if cur.len() == 0 || cur == "."@ { done } else { done.push(cur) }, Seq::empty())
        } else {
            (done, cur.push(p[i - 1]))
        }
    }
}

pub open spec fn components(p: Seq<char>) -> Seq<Seq<char>> {
    let (done, cur) = components_scan(p, p.len() as int);
    if cur.len() == 0 || cur == "."@ {
        done
    } else {
        done.push(cur)
    }
}

/// The last component of a path, unless the path ends in `..` or has none
/// (`Path::file_name`).
pub open spec fn file_name(p: Seq<char>) -> Option<Seq<char>> {
    let cs = components(p);
    if cs.len() > 0 && cs.last() != ".."@ {
        Some(cs.last())
    } else {
        None
    }
}

pub fn path_file_name(p: &str) -> (r: Option<Vec<char>>)
    ensures
        r matches Some(n) ==> file_name(p@) == Some(n@),
        r is None ==> file_name(p@) is None,
{
    let v = chars_of(p);
    let mut last: Option<Vec<char>> = None;
    let mut cur: Vec<char> = Vec::new();
    let mut i: usize = 0;
    let dot = chars_of(".");
    let dotdot = chars_of("..");
    while i < v.len()
        invariant
            i <= v@.len(),
            v@ == p@,
            dot@ == "."@,
            dotdot@ == ".."@,
            cur@ == components_scan(p@, i as int).1,
            match last {
                Some(l) => components_scan(p@, i as int).0.len() > 0 && l@
                    == components_scan(p@, i as int).0.last(),
                None => components_scan(p@, i as int).0.len() == 0,
            },
        decreases v@.len() - i,
    {
        if v[i] == '/' {
            if !(cur.len() == 0 || crate::text::chars_eq(cur.as_slice(), dot.as_slice())) {
                last = Some(cur);
            }
            cur = Vec::new();
        } else {
            cur.push(v[i]);
        }
        i = i + 1;
    }
    if !(cur.len() == 0 || crate::text::chars_eq(cur.as_slice(), dot.as_slice())) {
        last = Some(cur);
    }
    match last {
        Some(l) => {
            if crate::text::chars_eq(l.as_slice(), dotdot.as_slice()) {
                None
            } else {
                Some(l)
            }
        },
        None => None,
    }
}

/// A profile-name character: letters, digits, `-`, `_` and `.` stay, others become `-`.
pub open spec fn profile_char(c: char) -> char {
    if is_ascii_alnum(c) || c == '-' || c == '_' || c == '.' {
        c
    } else {
        '-'
    }
}

/// The workspace label of a repository root: its trimmed-non-blank file name, or
/// `workspace`.
pub open spec fn workspace_label(root: Seq<char>) -> Seq<char> {
    match file_name(root) {
        Some(n) if trim(n).len() > 0 => n,
        _ => "workspace"@,
    }
}

/// What `Sha256::digest` returns for a byte string.
pub uninterp spec fn sha256_digest(data: Seq<u8>) -> Seq<u8>;

/// `sha2::Sha256::digest`. The contract names the digest by `sha256_digest` and states
/// that it is 32 bytes long, the output size of SHA-256; the hash itself is left unsaid.
#[verifier::external_body]
fn sha256(data: &[u8]) -> (r: Vec<u8>)
    ensures
        r@ == sha256_digest(data@),
        r@.len() == 32,
{
    sha2::Sha256::digest(data).to_vec()
}

/// The lower-case hexadecimal form of a byte string, two digits per byte.
pub open spec fn hex_of(bs: Seq<u8>) -> Seq<char>
    decreases bs.len(),
{
    if bs.len() == 0 {
        Seq::empty()
    } else {
        hex_of(bs.drop_last()) + seq![hex_lower(bs.last() / 16), hex_lower(bs.last() % 16)]
    }
}

pub(crate) fn hex_chars(bs: &[u8]) -> (r: Vec<char>)
    ensures
        r@ == hex_of(bs@),
        r@.len() == 2 * bs@.len(),
{
    let mut out: Vec<char> = Vec::new();
    let mut i: usize = 0;
    while i < bs.len()
        invariant
            i <= bs@.len(),
            out@ == hex_of(bs@.take(i as int)),
            out@.len() == 2 * i,
        decreases bs@.len() - i,
    {
        let b = bs[i];
        out.push(hex_lower_exec(b / 16));
        out.push(hex_lower_exec(b % 16));
        proof {
            assert(bs@.take(i + 1).drop_last() =~= bs@.take(i as int));
        }
        i = i + 1;
    }
    assert(bs@.take(bs@.len() as int) =~= bs@);
    out
}

/// The lower-case hex SHA-256 of the UTF-8 bytes of `text`.
pub fn hex_sha256(text: &str) -> (r: String)
    ensures
        r@ == hex_of(sha256_digest(vstd::utf8::encode_utf8(text@))),
{
    let digest = sha256(text.as_bytes());
    let h = hex_chars(digest.as_slice());
    string_of(h.as_slice())
}

/// `Amai-<label>-<fingerprint>`: the workspace label with unsafe characters replaced,
/// and the first 12 hex digits of the SHA-256 of the root path.
pub open spec fn vscode_profile_name(root: Seq<char>) -> Seq<char> {
    "Amai-"@ + workspace_label(root).map_values(|c: char| profile_char(c)) + "-"@ + hex_of(
        sha256_digest(vstd::utf8::encode_utf8(root)),
    ).take(12)
}

/// A lower-case hexadecimal digit.
pub open spec fn is_hex_digit_lower(c: char) -> bool {
    ('0' <= c && c <= '9') || ('a' <= c && c <= 'f')
}

/// A character a profile name keeps as it is.
pub open spec fn profile_safe(c: char) -> bool {
    is_ascii_alnum(c) || c == '-' || c == '_' || c == '.'
}

proof fn lemma_hex_of_digits(bs: Seq<u8>)
    ensures
        hex_of(bs).len() == 2 * bs.len(),
        forall|i: int| 0 <= i < hex_of(bs).len() ==> is_hex_digit_lower(#[trigger] hex_of(bs)[i]),
    decreases bs.len(),
{
    if bs.len() > 0 {
        lemma_hex_of_digits(bs.drop_last());
        let b = bs.last();
        let hi = b / 16;
        let lo = b % 16;
        assert(is_hex_digit_lower(hex_lower(hi)));
        assert(is_hex_digit_lower(hex_lower(lo)));
        let p = hex_of(bs.drop_last());
        let h = hex_of(bs);
        assert forall|i: int| 0 <= i < h.len() implies is_hex_digit_lower(#[trigger] h[i]) by {
            if i < p.len() {
                assert(h[i] == p[i]);
            }
        }
    }
}

/// A law of profile names: a profile name is `Amai-`, the workspace label with every
/// character made profile-safe, and `-`; when the root's digest has at least six bytes (a
/// SHA-256 digest has 32), 12 lower-case hexadecimal digits of it follow and end the name.
/// Being a function of the root alone, it is the same for the same root.
pub proof fn lemma_profile_name_shape(root: Seq<char>)
    ensures
        ({
            let n = vscode_profile_name(root);
            let l = workspace_label(root);
            &&& n.take(5) == "Amai-"@
            &&& n[5 + l.len() as int] == '-'
            &&& forall|i: int| 5 <= i < 5 + l.len() ==> profile_safe(#[trigger] n[i])
            &&& sha256_digest(vstd::utf8::encode_utf8(root)).len() >= 6 ==> {
                &&& n.len() == 5 + l.len() + 1 + 12
                &&& forall|i: int|
                    5 + l.len() + 1 <= i < n.len() ==> is_hex_digit_lower(#[trigger] n[i])
            }
        }),
{
    reveal_strlit("Amai-");
    reveal_strlit("-");
    let l = workspace_label(root);
    let m = l.map_values(|c: char| profile_char(c));
    let d = sha256_digest(vstd::utf8::encode_utf8(root));
    let h = hex_of(d);
    lemma_hex_of_digits(d);
    let n = vscode_profile_name(root);
    let head = "Amai-"@ + m + "-"@;
    assert(n == head + h.take(12));
    assert(head.len() == 5 + l.len() + 1);
    assert(n.take(5) =~= "Amai-"@);
    assert(n[5 + l.len() as int] == head[5 + l.len() as int]);
    assert forall|i: int| 5 <= i < 5 + l.len() implies profile_safe(#[trigger] n[i]) by {
        assert(n[i] == head[i]);
        assert(head[i] == m[i - 5]);
    }
    if d.len() >= 6 {
        assert(h.take(12).len() == 12);
        assert forall|i: int| 5 + l.len() + 1 <= i < n.len() implies is_hex_digit_lower(
            #[trigger] n[i],
        ) by {
            assert(n[i] == h.take(12)[i - head.len()]);
            assert(h.take(12)[i - head.len()] == h[i - head.len()]);
        }
    }
}

pub fn workspace_bound_vscode_chat_profile_name(repo_root: &str) -> (r: String)
    ensures
        r@ == vscode_profile_name(repo_root@),
{
    let label: Vec<char> = match path_file_name(repo_root) {
        Some(n) => {
            let (lo, hi) = crate::text::trim_bounds(n.as_slice());
            if hi > lo {
                n
            } else {
                chars_of("workspace")
            }
        },
        None => chars_of("workspace"),
    };
    let mut out: Vec<char> = Vec::new();
    push_str(&mut out, "Amai-");
    let ghost o0 = out@;
    let mut k: usize = 0;
    while k < label.len()
        invariant
            k <= label@.len(),
            out@ == o0 + label@.take(k as int).map_values(|c: char| profile_char(c)),
        decreases label@.len() - k,
    {
        let c = label[k];
        let mapped = if is_ascii_alnum_exec(c) || c == '-' || c == '_' || c == '.' {
            c
        } else {
            '-'
        };
        out.push(mapped);
        proof {
            assert(label@.take(k + 1).map_values(|c: char| profile_char(c)) =~= label@.take(
                k as int,
            ).map_values(|c: char| profile_char(c)).push(profile_char(c)));
        }
        k = k + 1;
    }
    assert(label@.take(label@.len() as int) =~= label@);
    push_str(&mut out, "-");
    let digest = sha256(repo_root.as_bytes());
    let hex = hex_chars(digest.as_slice());
    let fp = slice_range(hex.as_slice(), 0, 12);
    assert(fp@ =~= hex@.take(12));
    push_all(&mut out, fp.as_slice());
    string_of(out.as_slice())
}

/// The authority of the Amai VS Code bridge extension.
pub open spec fn bridge_authority() -> Seq<char> {
    "amai.amai-vscode-bridge"@
}

/// The `vscode://` URI that asks the bridge to open a clean chat with the prompt file.
pub open spec fn bridge_uri(root: Seq<char>, prompt: Seq<char>, result: Seq<char>, target: Seq<char>) -> Seq<char> {
    "vscode://"@ + bridge_authority() + "/open-clean-chat?prompt_file="@ + url_encoded(
        vstd::utf8::encode_utf8(prompt),
    ) + "&result_file="@ + url_encoded(vstd::utf8::encode_utf8(result)) + "&repo_root="@
        + url_encoded(vstd::utf8::encode_utf8(root)) + "&target="@ + url_encoded(
        vstd::utf8::encode_utf8(target),
    ) + "&auto_submit=1"@
}

pub fn build_vscode_public_bridge_uri(
    repo_root: &str,
    prompt_path: &str,
    result_path: &str,
    target: &str,
) -> (r: String)
    ensures
        r@ == bridge_uri(repo_root@, prompt_path@, result_path@, target@),
{
    let mut out: Vec<char> = Vec::new();
    push_str(&mut out, "vscode://");
    push_str(&mut out, "amai.amai-vscode-bridge");
    push_str(&mut out, "/open-clean-chat?prompt_file=");
    push_str(&mut out, url_encode_component(prompt_path).as_str());
    push_str(&mut out, "&result_file=");
    push_str(&mut out, url_encode_component(result_path).as_str());
    push_str(&mut out, "&repo_root=");
    push_str(&mut out, url_encode_component(repo_root).as_str());
    push_str(&mut out, "&target=");
    push_str(&mut out, url_encode_component(target).as_str());
    push_str(&mut out, "&auto_submit=1");
    string_of(out.as_slice())
}

/// The trimmed non-blank text of an optional string.
pub open spec fn opt_text(value: Option<&str>) -> Option<Seq<char>> {
    crate::labels::opt_text(value)
}

/// The command that opens the bridge URI: through the VS Code binary when one is given,
/// otherwise through the URI opener (`xdg-open` by default), after changing into the root.
pub open spec fn bridge_launch_command(
    vscode_binary: Option<Seq<char>>,
    uri_open_command: Option<Seq<char>>,
    root: Seq<char>,
    prompt: Seq<char>,
    result: Seq<char>,
    target: Seq<char>,
) -> Seq<char> {
    let uri = bridge_uri(root, prompt, result, target);
    match vscode_binary {
        Some(b) => "cd "@ + shell_quoted(root) + " && "@ + shell_quoted(b) + " --open-url "@
            + shell_quoted(uri),
        None => "cd "@ + shell_quoted(root) + " && "@ + shell_quoted(
            crate::labels::text_or(uri_open_command, "xdg-open"@),
        ) + " "@ + shell_quoted(uri),
    }
}

pub fn build_vscode_public_bridge_launch_command(
    vscode_binary: Option<&str>,
    uri_open_command: Option<&str>,
    repo_root: &str,
    prompt_path: &str,
    result_path: &str,
    target: &str,
) -> (r: String)
    ensures
        r@ == bridge_launch_command(
            opt_text(vscode_binary),
            opt_text(uri_open_command),
            repo_root@,
            prompt_path@,
            result_path@,
            target@,
        ),
{
    let uri = build_vscode_public_bridge_uri(repo_root, prompt_path, result_path, target);
    let mut out: Vec<char> = Vec::new();
    push_str(&mut out, "cd ");
    push_str(&mut out, shell_quote(repo_root).as_str());
    push_str(&mut out, " && ");
    match crate::labels::optional_non_empty_text(vscode_binary) {
        Some(b) => {
            push_str(&mut out, shell_quote(b).as_str());
            push_str(&mut out, " --open-url ");
        },
        None => {
            let opener = crate::labels::text_or_default(uri_open_command, "xdg-open");
            push_str(&mut out, shell_quote(opener.as_str()).as_str());
            push_str(&mut out, " ");
        },
    }
    push_str(&mut out, shell_quote(uri.as_str()).as_str());
    string_of(out.as_slice())
}

/// `cd <root> && <code> chat --mode agent <window> --profile <profile> - < <prompt>`, with
/// `--new-window` or `--reuse-window`.
pub open spec fn code_chat_launch_command(
    code_binary: Seq<char>,
    root: Seq<char>,
    prompt: Seq<char>,
    new_window: bool,
) -> Seq<char> {
    "cd "@ + shell_quoted(root) + " && "@ + shell_quoted(code_binary) + " chat --mode agent "@
        + (if new_window { "--new-window"@ } else { "--reuse-window"@ }) + " --profile "@
        + shell_quoted(vscode_profile_name(root)) + " - < "@ + shell_quoted(prompt)
}

pub fn build_vscode_code_chat_launch_command_with_binary(
    code_binary: &str,
    repo_root: &str,
    prompt_path: &str,
    new_window: bool,
) -> (r: String)
    ensures
        r@ == code_chat_launch_command(code_binary@, repo_root@, prompt_path@, new_window),
{
    let profile = workspace_bound_vscode_chat_profile_name(repo_root);
    let mut out: Vec<char> = Vec::new();
    push_str(&mut out, "cd ");
    push_str(&mut out, shell_quote(repo_root).as_str());
    push_str(&mut out, " && ");
    push_str(&mut out, shell_quote(code_binary).as_str());
    push_str(&mut out, " chat --mode agent ");
    if new_window {
        push_str(&mut out, "--new-window");
    } else {
        push_str(&mut out, "--reuse-window");
    }
    push_str(&mut out, " --profile ");
    push_str(&mut out, shell_quote(profile.as_str()).as_str());
    push_str(&mut out, " - < ");
    push_str(&mut out, shell_quote(prompt_path).as_str());
    string_of(out.as_slice())
}

} // verus!
