//! The sources a continuity import reads: the bootstrap snapshot, the active workline,
//! the session-memory notes and the rendered transcripts the bootstrap names, each under
//! the relative path and artifact bucket it is stored with, every file once.
use vstd::prelude::*;
use crate::chat_start::{namespace_json, namespace_view, project_json, project_view, NamespaceRecord, ProjectRecord};
use crate::direct_answer::opt_json;
use crate::json::{opt_str_json, opt_str_view, str_json, Json, JsonView, ObjectBuilder};
use crate::launch::{file_name, hex_of, hex_sha256, path_file_name, sha256_digest};
use crate::startup_payload::{handoff_json, handoff_view};
use crate::text::{
    byte_len, byte_len_exec, chars_of, has_suffix, lines, lines_of, push_all, push_str, str_eq, string_of,
};

verus! {

/// A file to import, where its artifact goes and what kind of continuity it holds.
pub struct ContinuitySource {
    pub original_path: String,
    pub relative_path: String,
    pub source_kind: String,
    pub artifact_bucket: String,
    pub artifact_kind: String,
}

/// A source as plain text: path, relative path, kind, bucket and artifact kind.
pub type SourceView = (Seq<char>, Seq<char>, Seq<char>, Seq<char>, Seq<char>);

pub open spec fn source_view(s: ContinuitySource) -> SourceView {
    (s.original_path@, s.relative_path@, s.source_kind@, s.artifact_bucket@, s.artifact_kind@)
}

pub open spec fn sources_view(s: Seq<ContinuitySource>) -> Seq<SourceView> {
    s.map_values(|x: ContinuitySource| source_view(x))
}

/// A source of `kind`, whose artifact kind is its kind.
pub open spec fn source_of(path: Seq<char>, relative: Seq<char>, kind: Seq<char>, bucket: Seq<char>) -> SourceView {
    (path, relative, kind, bucket, kind)
}

pub open spec fn bootstrap_source(path: Seq<char>, bucket: Seq<char>) -> SourceView {
    source_of(path, ".amai-continuity/bootstrap/continuity-snapshot.md"@, "continuity_bootstrap"@, bucket)
}

pub open spec fn active_workline_source(path: Seq<char>, bucket: Seq<char>) -> SourceView {
    source_of(
        path,
        ".amai-continuity/active-workline/ACTIVE_WORKLINE.md"@,
        "continuity_active_workline"@,
        bucket,
    )
}

/// A Markdown note: its file name has a non-empty stem and the extension `md`.
pub open spec fn is_markdown_note(path: Seq<char>) -> bool {
    match file_name(path) {
        Some(n) => n.len() > 3 && has_suffix(n, ".md"@),
        None => false,
    }
}

/// Files named under `dir_prefix` by their file names, as sources of `kind`; the first path
/// without a file name is refused with `error_prefix` and the path.
pub open spec fn named_sources(
    paths: Seq<Seq<char>>,
    dir_prefix: Seq<char>,
    kind: Seq<char>,
    bucket: Seq<char>,
    error_prefix: Seq<char>,
) -> Result<Seq<SourceView>, Seq<char>>
    decreases paths.len(),
{
    if paths.len() == 0 {
        Ok(Seq::empty())
    } else {
        match named_sources(paths.drop_last(), dir_prefix, kind, bucket, error_prefix) {
            Err(e) => Err(e),
            Ok(done) => match file_name(paths.last()) {
                Some(n) => Ok(done.push(source_of(paths.last(), dir_prefix + n, kind, bucket))),
                None => Err(error_prefix + paths.last()),
            },
        }
    }
}

/// The Markdown notes among `paths`, in order.
pub open spec fn markdown_notes(paths: Seq<Seq<char>>) -> Seq<Seq<char>>
    decreases paths.len(),
{
    if paths.len() == 0 {
        Seq::empty()
    } else if is_markdown_note(paths.last()) {
        markdown_notes(paths.drop_last()).push(paths.last())
    } else {
        markdown_notes(paths.drop_last())
    }
}

/// The last `limit` transcripts when there are more, else all of them.
pub open spec fn limited(paths: Seq<Seq<char>>, limit: Option<usize>) -> Seq<Seq<char>> {
    match limit {
        Some(l) if paths.len() > l => paths.skip(paths.len() - l),
        _ => paths,
    }
}

/// The paths whose flag is set, in order.
pub open spec fn existing(paths: Seq<Seq<char>>, is_file: Seq<bool>) -> Seq<Seq<char>>
    decreases paths.len(),
{
    if paths.len() == 0 {
        Seq::empty()
    } else if is_file[paths.len() - 1] {
        existing(paths.drop_last(), is_file).push(paths.last())
    } else {
        existing(paths.drop_last(), is_file)
    }
}

/// Whether `path` is the path of one of the first `n` sources.
pub open spec fn path_seen(s: Seq<SourceView>, n: int, path: Seq<char>) -> bool {
    exists|j: int| 0 <= j < n && (#[trigger] s[j]).0 == path
}

/// The sources without a repeated path, each kept where its path first occurs.
pub open spec fn first_by_path(s: Seq<SourceView>) -> Seq<SourceView>
    decreases s.len(),
{
    if s.len() == 0 {
        Seq::empty()
    } else if path_seen(s, s.len() - 1, s.last().0) {
        first_by_path(s.drop_last())
    } else {
        first_by_path(s.drop_last()).push(s.last())
    }
}

pub open spec fn no_sources_error() -> Seq<char> {
    "no continuity sources were found to import"@
}

/// The sources of an import: the bootstrap snapshot; the active workline when one is
/// given; the Markdown session notes of the memory directory, in the order listed; and the
/// rendered transcripts the bootstrap names (only the last `transcript_limit` of them, and
/// only those that are files), with transcripts stored in their own bucket. A file that
/// occurs twice is imported once, where it first occurs. A note or transcript without a file
/// name is refused, and so is an import left without any source.
pub open spec fn import_sources(
    bootstrap_path: Seq<char>,
    active_workline_path: Option<Seq<char>>,
    memory_paths: Option<Seq<Seq<char>>>,
    transcript_paths: Seq<Seq<char>>,
    transcript_is_file: Seq<bool>,
    transcript_limit: Option<usize>,
    artifacts_bucket: Seq<char>,
    transcripts_bucket: Seq<char>,
) -> Result<Seq<SourceView>, Seq<char>> {
    let head = seq![bootstrap_source(bootstrap_path, artifacts_bucket)] + match active_workline_path {
        Some(p) => seq![active_workline_source(p, artifacts_bucket)],
        None => Seq::empty(),
    };
    let notes = match memory_paths {
        Some(ps) => named_sources(
            markdown_notes(ps),
            ".amai-continuity/external-memory-bridge/"@,
            "continuity_session_memory"@,
            artifacts_bucket,
            "invalid session memory file name: "@,
        ),
        None => Ok(Seq::empty()),
    };
    let lim = limited(transcript_paths, transcript_limit);
    let flags = limited_flags(transcript_paths, transcript_is_file, transcript_limit);
    match notes {
        Err(e) => Err(e),
        Ok(ns) => match named_sources(
            existing(lim, flags),
            ".amai-continuity/rendered-transcripts/"@,
            "continuity_rendered_transcript"@,
            transcripts_bucket,
            "invalid transcript file name: "@,
        ) {
            Err(e) => Err(e),
            Ok(ts) => {
                let all = first_by_path(head + ns + ts);
                if all.len() == 0 {
                    Err(no_sources_error())
                } else {
                    Ok(all)
                }
            },
        },
    }
}

/// The file flags of the transcripts that the limit keeps.
pub open spec fn limited_flags(paths: Seq<Seq<char>>, is_file: Seq<bool>, limit: Option<usize>) -> Seq<bool> {
    match limit {
        Some(l) if paths.len() > l => is_file.skip(paths.len() - l),
        _ => is_file,
    }
}

/// The text of each string, in order.
pub open spec fn strs(s: Seq<String>) -> Seq<Seq<char>> {
    s.map_values(|x: String| x@)
}

fn copy_source(s: &ContinuitySource) -> (r: ContinuitySource)
    ensures
        source_view(r) == source_view(*s),
{
    ContinuitySource {
        original_path: s.original_path.clone(),
        relative_path: s.relative_path.clone(),
        source_kind: s.source_kind.clone(),
        artifact_bucket: s.artifact_bucket.clone(),
        artifact_kind: s.artifact_kind.clone(),
    }
}

fn make_source(path: &str, relative: Vec<char>, kind: &str, bucket: &str) -> (r: ContinuitySource)
    ensures
        source_view(r) == source_of(path@, relative@, kind@, bucket@),
{
    ContinuitySource {
        original_path: path.to_string(),
        relative_path: string_of(relative.as_slice()),
        source_kind: kind.to_string(),
        artifact_bucket: bucket.to_string(),
        artifact_kind: kind.to_string(),
    }
}

fn push_source(out: &mut Vec<ContinuitySource>, s: ContinuitySource)
    ensures
        sources_view(final(out)@) == sources_view(old(out)@).push(source_view(s)),
{
    let ghost before = out@;
    out.push(s);
    assert(sources_view(out@) =~= sources_view(before).push(source_view(s)));
}

fn is_markdown_note_exec(path: &str) -> (b: bool)
    ensures
        b == is_markdown_note(path@),
{
    match path_file_name(path) {
        Some(n) => {
            let md = chars_of(".md");
            proof {
                reveal_strlit(".md");
            }
            assert(md@.len() == 3);
            let k = n.len();
            if k <= 3 {
                return false;
            }
            let mut i: usize = 0;
            let mut ok = true;
            while i < 3
                invariant
                    i <= 3,
                    k == n@.len(),
                    k > 3,
                    md@ == ".md"@,
                    md@.len() == 3,
                    ok == (forall|j: int| 0 <= j < i ==> n@[k - 3 + j] == md@[j]),
                decreases 3 - i,
            {
                ok = ok && n[k - 3 + i] == md[i];
                i = i + 1;
            }
            proof {
                reveal_strlit(".md");
                if ok {
                    assert(n@.subrange(k - 3, k as int) =~= ".md"@);
                } else if has_suffix(n@, ".md"@) {
                    let j = choose|j: int| 0 <= j < 3 && n@[k - 3 + j] != md@[j];
                    assert(n@.subrange(k - 3, k as int)[j] == n@[k - 3 + j]);
                }
            }
            ok
        },
        None => false,
    }
}

fn markdown_notes_exec(paths: &Vec<String>) -> (r: Vec<String>)
    ensures
        strs(r@) == markdown_notes(strs(paths@)),
{
    let mut r: Vec<String> = Vec::new();
    let mut i: usize = 0;
    while i < paths.len()
        invariant
            i <= paths@.len(),
            strs(r@) == markdown_notes(strs(paths@).take(i as int)),
        decreases paths@.len() - i,
    {
        proof {
            assert(strs(paths@).take(i + 1).drop_last() =~= strs(paths@).take(i as int));
        }
        if is_markdown_note_exec(paths[i].as_str()) {
            let ghost before = r@;
            r.push(paths[i].clone());
            assert(strs(r@) =~= strs(before).push(paths@[i as int]@));
        }
        i = i + 1;
    }
    assert(strs(paths@).take(paths@.len() as int) =~= strs(paths@));
    r
}

/// The transcripts the limit keeps that are files.
fn existing_limited_exec(paths: &Vec<String>, is_file: &Vec<bool>, limit: Option<usize>) -> (r: Vec<String>)
    requires
        is_file@.len() == paths@.len(),
    ensures
        strs(r@) == existing(
            limited(strs(paths@), limit),
            limited_flags(strs(paths@), is_file@, limit),
        ),
{
    let n = paths.len();
    let start: usize = match limit {
        Some(l) => if n > l { n - l } else { 0 },
        None => 0,
    };
    let ghost lim = limited(strs(paths@), limit);
    let ghost flags = limited_flags(strs(paths@), is_file@, limit);
    assert(lim =~= strs(paths@).skip(start as int));
    assert(flags =~= is_file@.skip(start as int));
    let mut r: Vec<String> = Vec::new();
    let mut i: usize = start;
    while i < n
        invariant
            start <= i <= n,
            n == paths@.len(),
            is_file@.len() == n,
            lim == strs(paths@).skip(start as int),
            flags == is_file@.skip(start as int),
            strs(r@) == existing(lim.take(i - start), flags),
        decreases n - i,
    {
        let ghost k = i - start;
        proof {
            assert(lim.take(k + 1).drop_last() =~= lim.take(k));
            assert(lim.take(k + 1).last() == paths@[i as int]@);
            assert(flags[k] == is_file@[i as int]);
        }
        if is_file[i] {
            let ghost before = r@;
            r.push(paths[i].clone());
            assert(strs(r@) =~= strs(before).push(paths@[i as int]@));
        }
        i = i + 1;
    }
    assert(lim.take(n - start) =~= lim);
    r
}

fn named_sources_exec(
    paths: &Vec<String>,
    dir_prefix: &str,
    kind: &str,
    bucket: &str,
    error_prefix: &str,
    out: &mut Vec<ContinuitySource>,
) -> (r: Result<(), String>)
    ensures
        match named_sources(strs(paths@), dir_prefix@, kind@, bucket@, error_prefix@) {
            Ok(v) => r is Ok && sources_view(final(out)@) == sources_view(old(out)@) + v,
            Err(e) => r matches Err(x) && x@ == e,
        },
{
    let ghost base = sources_view(out@);
    let mut i: usize = 0;
    assert(strs(paths@).take(0) =~= Seq::<Seq<char>>::empty());
    while i < paths.len()
        invariant
            i <= paths@.len(),
            named_sources(strs(paths@).take(i as int), dir_prefix@, kind@, bucket@, error_prefix@) matches Ok(
                v,
            ) && sources_view(out@) == base + v,
        decreases paths@.len() - i,
    {
        let ghost t = strs(paths@).take(i + 1);
        proof {
            assert(t.drop_last() =~= strs(paths@).take(i as int));
            assert(t.last() == paths@[i as int]@);
        }
        let p = paths[i].as_str();
        match path_file_name(p) {
            Some(name) => {
                let mut rel: Vec<char> = Vec::new();
                push_str(&mut rel, dir_prefix);
                push_all(&mut rel, name.as_slice());
                let ghost before = sources_view(out@);
                push_source(out, make_source(p, rel, kind, bucket));
                assert(sources_view(out@) =~= base + named_sources(t, dir_prefix@, kind@, bucket@, error_prefix@)->Ok_0);
            },
            None => {
                let mut msg: Vec<char> = Vec::new();
                push_str(&mut msg, error_prefix);
                push_str(&mut msg, p);
                proof {
                    lemma_named_sources_err_stays(strs(paths@), dir_prefix@, kind@, bucket@, error_prefix@, i + 1);
                }
                return Err(string_of(msg.as_slice()));
            },
        }
        i = i + 1;
    }
    assert(strs(paths@).take(paths@.len() as int) =~= strs(paths@));
    Ok(())
}

/// A refusal of a prefix is the refusal of the whole.
proof fn lemma_named_sources_err_stays(
    paths: Seq<Seq<char>>,
    dir_prefix: Seq<char>,
    kind: Seq<char>,
    bucket: Seq<char>,
    error_prefix: Seq<char>,
    k: int,
)
    requires
        0 <= k <= paths.len(),
        named_sources(paths.take(k), dir_prefix, kind, bucket, error_prefix) is Err,
    ensures
        named_sources(paths, dir_prefix, kind, bucket, error_prefix) == named_sources(
            paths.take(k),
            dir_prefix,
            kind,
            bucket,
            error_prefix,
        ),
    decreases paths.len() - k,
{
    if k < paths.len() {
        assert(paths.take(k + 1).drop_last() =~= paths.take(k));
        lemma_named_sources_err_stays(paths, dir_prefix, kind, bucket, error_prefix, k + 1);
    } else {
        assert(paths.take(k) =~= paths);
    }
}

fn first_by_path_exec(all: &Vec<ContinuitySource>) -> (r: Vec<ContinuitySource>)
    ensures
        sources_view(r@) == first_by_path(sources_view(all@)),
{
    let ghost sv = sources_view(all@);
    let mut r: Vec<ContinuitySource> = Vec::new();
    let mut i: usize = 0;
    while i < all.len()
        invariant
            i <= all@.len(),
            sv == sources_view(all@),
            sources_view(r@) == first_by_path(sv.take(i as int)),
        decreases all@.len() - i,
    {
        let ghost t = sv.take(i + 1);
        proof {
            assert(t.drop_last() =~= sv.take(i as int));
            assert(t.last() == sv[i as int]);
        }
        let mut seen = false;
        let mut j: usize = 0;
        while j < i
            invariant
                j <= i < all@.len(),
                sv == sources_view(all@),
                t == sv.take(i + 1),
                seen == exists|q: int| 0 <= q < j && (#[trigger] t[q]).0 == t[i as int].0,
            decreases i - j,
        {
            if str_eq(all[j].original_path.as_str(), all[i].original_path.as_str()) {
                assert(t[j as int].0 == t[i as int].0);
                seen = true;
            }
            j = j + 1;
        }
        assert(seen == path_seen(t, i as int, t.last().0));
        if !seen {
            push_source(&mut r, copy_source(&all[i]));
        }
        i = i + 1;
    }
    assert(sv.take(all@.len() as int) =~= sv);
    r
}

/// The sources of a continuity import, as `import_sources` lists them. `memory_paths` are
/// the entries of the memory directory in ascending order, when one is given;
/// `transcript_is_file` says, for each transcript the bootstrap names, whether it is a file.
pub fn continuity_import_sources(
    bootstrap_path: &str,
    active_workline_path: Option<&str>,
    memory_paths: Option<&Vec<String>>,
    transcript_paths: &Vec<String>,
    transcript_is_file: &Vec<bool>,
    transcript_limit: Option<usize>,
    artifacts_bucket: &str,
    transcripts_bucket: &str,
) -> (r: Result<Vec<ContinuitySource>, String>)
    requires
        transcript_is_file@.len() == transcript_paths@.len(),
    ensures
        match import_sources(
            bootstrap_path@,
            match active_workline_path {
                Some(p) => Some(p@),
                None => None,
            },
            match memory_paths {
                Some(ps) => Some(strs(ps@)),
                None => None,
            },
            strs(transcript_paths@),
            transcript_is_file@,
            transcript_limit,
            artifacts_bucket@,
            transcripts_bucket@,
        ) {
            Ok(v) => r matches Ok(x) && sources_view(x@) == v,
            Err(e) => r matches Err(x) && x@ == e,
        },
{
    let mut all: Vec<ContinuitySource> = Vec::new();
    let mut rel_b: Vec<char> = Vec::new();
    push_str(&mut rel_b, ".amai-continuity/bootstrap/continuity-snapshot.md");
    push_source(&mut all, make_source(bootstrap_path, rel_b, "continuity_bootstrap", artifacts_bucket));
    match active_workline_path {
        Some(p) => {
            let mut rel_a: Vec<char> = Vec::new();
            push_str(&mut rel_a, ".amai-continuity/active-workline/ACTIVE_WORKLINE.md");
            push_source(&mut all, make_source(p, rel_a, "continuity_active_workline", artifacts_bucket));
        },
        None => {},
    }
    let ghost head = sources_view(all@);
    assert(head =~= seq![bootstrap_source(bootstrap_path@, artifacts_bucket@)] + match active_workline_path {
        Some(p) => seq![active_workline_source(p@, artifacts_bucket@)],
        None => Seq::<SourceView>::empty(),
    });
    match memory_paths {
        Some(ps) => {
            let notes = markdown_notes_exec(ps);
            let res = named_sources_exec(
                &notes,
                ".amai-continuity/external-memory-bridge/",
                "continuity_session_memory",
                artifacts_bucket,
                "invalid session memory file name: ",
                &mut all,
            );
            if let Err(e) = res {
                return Err(e);
            }
        },
        None => {},
    }
    let ghost with_notes = sources_view(all@);
    assert(with_notes =~= head + match memory_paths {
        Some(ps) => named_sources(
            markdown_notes(strs(ps@)),
            ".amai-continuity/external-memory-bridge/"@,
            "continuity_session_memory"@,
            artifacts_bucket@,
            "invalid session memory file name: "@,
        )->Ok_0,
        None => Seq::<SourceView>::empty(),
    });
    let kept = existing_limited_exec(transcript_paths, transcript_is_file, transcript_limit);
    let res = named_sources_exec(
        &kept,
        ".amai-continuity/rendered-transcripts/",
        "continuity_rendered_transcript",
        transcripts_bucket,
        "invalid transcript file name: ",
        &mut all,
    );
    if let Err(e) = res {
        return Err(e);
    }
    let r = first_by_path_exec(&all);
    if r.len() == 0 {
        return Err("no continuity sources were found to import".to_string());
    }
    Ok(r)
}

proof fn lemma_first_by_path(s: Seq<SourceView>)
    ensures
        s.len() > 0 ==> first_by_path(s).len() > 0 && first_by_path(s)[0] == s[0],
        forall|k: int|
            0 <= k < first_by_path(s).len() ==> exists|j: int| 0 <= j < s.len() && #[trigger] first_by_path(s)[k] == s[j],
        forall|i: int, j: int|
            0 <= i < j < first_by_path(s).len() ==> (#[trigger] first_by_path(s)[i]).0 != (
            #[trigger] first_by_path(s)[j]).0,
    decreases s.len(),
{
    if s.len() > 0 {
        let p = s.drop_last();
        lemma_first_by_path(p);
        let fp = first_by_path(p);
        let f = first_by_path(s);
        assert forall|k: int| 0 <= k < fp.len() implies exists|j: int| 0 <= j < s.len() && #[trigger] fp[k] == s[j] by {
            let q = choose|q: int| 0 <= q < p.len() && fp[k] == p[q];
            assert(fp[k] == s[q]);
        }
        if path_seen(s, s.len() - 1, s.last().0) {
            assert(f == fp);
            if s.len() == 1 {
                let q = choose|q: int| 0 <= q < 0 && (#[trigger] s[q]).0 == s.last().0;
            }
            assert(p[0] == s[0]);
        } else {
            assert(f == fp.push(s.last()));
            assert forall|k: int| 0 <= k < f.len() implies exists|j: int| 0 <= j < s.len() && #[trigger] f[k] == s[j] by {
                if k < fp.len() {
                    assert(f[k] == fp[k]);
                } else {
                    assert(f[k] == s[s.len() - 1]);
                }
            }
            assert forall|i: int, j: int| 0 <= i < j < f.len() implies (#[trigger] f[i]).0 != (#[trigger] f[j]).0 by {
                assert(f[i] == fp[i]);
                if j < fp.len() {
                    assert(f[j] == fp[j]);
                } else {
                    let q = choose|q: int| 0 <= q < p.len() && fp[i] == p[q];
                    assert(fp[i] == s[q]);
                    if s[q].0 == s.last().0 {
                        assert(path_seen(s, s.len() - 1, s.last().0));
                    }
                }
            }
            if p.len() > 0 {
                assert(f[0] == fp[0]);
                assert(p[0] == s[0]);
            } else {
                assert(fp.len() == 0);
            }
        }
    }
}

proof fn lemma_named_sources_err(
    paths: Seq<Seq<char>>,
    dir_prefix: Seq<char>,
    kind: Seq<char>,
    bucket: Seq<char>,
    error_prefix: Seq<char>,
)
    ensures
        named_sources(paths, dir_prefix, kind, bucket, error_prefix) matches Err(e) ==> crate::text::has_prefix(
            e,
            error_prefix,
        ),
    decreases paths.len(),
{
    if paths.len() > 0 {
        lemma_named_sources_err(paths.drop_last(), dir_prefix, kind, bucket, error_prefix);
        let e = error_prefix + paths.last();
        assert(e.subrange(0, error_prefix.len() as int) =~= error_prefix);
    }
}

/// A law of imports: the sources, when listed, open with the bootstrap snapshot and hold
/// no path twice; the only refusals are a note or transcript without a file name, so an
/// import is never left without sources.
pub proof fn lemma_import_sources_shape(
    bootstrap_path: Seq<char>,
    active_workline_path: Option<Seq<char>>,
    memory_paths: Option<Seq<Seq<char>>>,
    transcript_paths: Seq<Seq<char>>,
    transcript_is_file: Seq<bool>,
    transcript_limit: Option<usize>,
    artifacts_bucket: Seq<char>,
    transcripts_bucket: Seq<char>,
)
    ensures
        ({
            let r = import_sources(
                bootstrap_path,
                active_workline_path,
                memory_paths,
                transcript_paths,
                transcript_is_file,
                transcript_limit,
                artifacts_bucket,
                transcripts_bucket,
            );
            &&& r matches Ok(v) ==> {
                &&& v.len() > 0
                &&& v[0] == bootstrap_source(bootstrap_path, artifacts_bucket)
                &&& forall|i: int, j: int| 0 <= i < j < v.len() ==> (#[trigger] v[i]).0 != (#[trigger] v[j]).0
            }
            &&& r matches Err(e) ==> crate::text::has_prefix(e, "invalid session memory file name: "@)
                || crate::text::has_prefix(e, "invalid transcript file name: "@)
        }),
{
    let head = seq![bootstrap_source(bootstrap_path, artifacts_bucket)] + match active_workline_path {
        Some(p) => seq![active_workline_source(p, artifacts_bucket)],
        None => Seq::empty(),
    };
    match memory_paths {
        Some(ps) => lemma_named_sources_err(
            markdown_notes(ps),
            ".amai-continuity/external-memory-bridge/"@,
            "continuity_session_memory"@,
            artifacts_bucket,
            "invalid session memory file name: "@,
        ),
        None => {},
    }
    let lim = limited(transcript_paths, transcript_limit);
    let flags = limited_flags(transcript_paths, transcript_is_file, transcript_limit);
    lemma_named_sources_err(
        existing(lim, flags),
        ".amai-continuity/rendered-transcripts/"@,
        "continuity_rendered_transcript"@,
        transcripts_bucket,
        "invalid transcript file name: "@,
    );
    let notes = match memory_paths {
        Some(ps) => named_sources(
            markdown_notes(ps),
            ".amai-continuity/external-memory-bridge/"@,
            "continuity_session_memory"@,
            artifacts_bucket,
            "invalid session memory file name: "@,
        ),
        None => Ok(Seq::empty()),
    };
    let ts = named_sources(
        existing(lim, flags),
        ".amai-continuity/rendered-transcripts/"@,
        "continuity_rendered_transcript"@,
        transcripts_bucket,
        "invalid transcript file name: "@,
    );
    if notes is Ok && ts is Ok {
        let all = head + notes->Ok_0 + ts->Ok_0;
        lemma_first_by_path(all);
        assert(all[0] == head[0]);
    }
}

/// A continuity document as the index stores it: where it lives, what kind of
/// continuity it is, the digest, line and byte counts of the full content, the searchable
/// content and the import metadata.
pub struct ContinuityDocument {
    pub repo_root: String,
    pub absolute_path: String,
    pub relative_path: String,
    pub language: String,
    pub source_kind: String,
    pub file_sha256: String,
    pub line_count: i32,
    pub byte_count: u64,
    pub content: String,
    pub metrics: Json,
    pub metadata: Json,
}

/// The metrics of a document: its line and byte counts and the bytes that are searchable.
pub open spec fn document_metrics(content: Seq<char>, searchable: Seq<char>) -> JsonView {
    JsonView::Object(
        seq![
            ("line_count"@, JsonView::Number(lines(content).len() as int)),
            ("byte_count"@, JsonView::Number(byte_len(content) as int)),
            ("searchable_byte_count"@, JsonView::Number(byte_len(searchable) as int)),
        ],
    )
}

/// The document record of one imported source, holding `searchable` as its content and
/// the digest and counts of the full `content`.
pub fn build_document_record(
    repo_root: &str,
    source: &ContinuitySource,
    content: &str,
    searchable_content: &str,
    metadata: Json,
) -> (d: ContinuityDocument)
    requires
        lines(content@).len() <= i32::MAX,
        byte_len(content@) <= u64::MAX,
        byte_len(searchable_content@) <= u64::MAX,
    ensures
        d.repo_root@ == repo_root@,
        d.absolute_path@ == source.original_path@,
        d.relative_path@ == source.relative_path@,
        d.language@ == "markdown"@,
        d.source_kind@ == source.source_kind@,
        d.file_sha256@ == hex_of(sha256_digest(vstd::utf8::encode_utf8(content@))),
        d.line_count == lines(content@).len(),
        d.byte_count == byte_len(content@),
        d.content@ == searchable_content@,
        d.metrics@ == document_metrics(content@, searchable_content@),
        d.metadata@ == metadata@,
{
    let cv = chars_of(content);
    let ls = lines_of(cv.as_slice());
    let line_count = ls.len() as i32;
    let bytes = byte_len_exec(cv.as_slice());
    let sv = chars_of(searchable_content);
    let searchable_bytes = byte_len_exec(sv.as_slice());
    let mut m = ObjectBuilder::new();
    m.push("line_count", Json::Number(line_count as i128));
    m.push("byte_count", Json::Number(bytes as i128));
    m.push("searchable_byte_count", Json::Number(searchable_bytes as i128));
    assert(m.view_entries() =~= document_metrics(content@, searchable_content@)->Object_0);
    ContinuityDocument {
        repo_root: repo_root.to_string(),
        absolute_path: source.original_path.clone(),
        relative_path: source.relative_path.clone(),
        language: "markdown".to_string(),
        source_kind: source.source_kind.clone(),
        file_sha256: hex_sha256(content),
        line_count,
        byte_count: bytes,
        content: searchable_content.to_string(),
        metrics: m.build(),
        metadata,
    }
}

/// What the import reports of one stored source.
pub open spec fn import_entry_view(s: SourceView, artifact_key: Seq<char>, artifact_ref_id: int, bytes: nat) -> JsonView {
    JsonView::Object(
        seq![
            ("source_kind"@, JsonView::Str(s.2)),
            ("relative_path"@, JsonView::Str(s.1)),
            ("original_path"@, JsonView::Str(s.0)),
            ("artifact_bucket"@, JsonView::Str(s.3)),
            ("artifact_key"@, JsonView::Str(artifact_key)),
            ("artifact_ref_id"@, JsonView::Number(artifact_ref_id)),
            ("bytes"@, JsonView::Number(bytes as int)),
        ],
    )
}

/// The report of one stored source: its kind and paths, the bucket and key its artifact
/// went to, the artifact reference the store gave it and the size of its content.
pub fn continuity_import_entry(
    source: &ContinuitySource,
    artifact_key: &str,
    artifact_ref_id: i64,
    bytes: u64,
) -> (r: Json)
    ensures
        r@ == import_entry_view(source_view(*source), artifact_key@, artifact_ref_id as int, bytes as nat),
{
    let mut b = ObjectBuilder::new();
    b.push("source_kind", str_json(source.source_kind.as_str()));
    b.push("relative_path", str_json(source.relative_path.as_str()));
    b.push("original_path", str_json(source.original_path.as_str()));
    b.push("artifact_bucket", str_json(source.artifact_bucket.as_str()));
    b.push("artifact_key", str_json(artifact_key));
    b.push("artifact_ref_id", Json::Number(artifact_ref_id as i128));
    b.push("bytes", Json::Number(bytes as i128));
    assert(b.view_entries() =~= import_entry_view(
        source_view(*source),
        artifact_key@,
        artifact_ref_id as int,
        bytes as nat,
    )->Object_0);
    b.build()
}

/// Where an artifact's content came from: the source's paths and kind.
pub open spec fn evidence_span_view(s: SourceView) -> JsonView {
    JsonView::Object(
        seq![
            ("original_path"@, JsonView::Str(s.0)),
            ("relative_path"@, JsonView::Str(s.1)),
            ("source_kind"@, JsonView::Str(s.2)),
        ],
    )
}

/// The evidence span stored with a source's artifact reference.
pub fn source_evidence_span(source: &ContinuitySource) -> (r: Json)
    ensures
        r@ == evidence_span_view(source_view(*source)),
{
    let mut b = ObjectBuilder::new();
    b.push("original_path", str_json(source.original_path.as_str()));
    b.push("relative_path", str_json(source.relative_path.as_str()));
    b.push("source_kind", str_json(source.source_kind.as_str()));
    assert(b.view_entries() =~= evidence_span_view(source_view(*source))->Object_0);
    b.build()
}

/// The artifact a source is stored as: the project and namespace codes, the source's kind
/// and paths, and its full content.
pub open spec fn artifact_body_view(
    project_code: Seq<char>,
    namespace_code: Seq<char>,
    s: SourceView,
    content: Seq<char>,
) -> JsonView {
    JsonView::Object(
        seq![
            ("project_code"@, JsonView::Str(project_code)),
            ("namespace_code"@, JsonView::Str(namespace_code)),
            ("source_kind"@, JsonView::Str(s.2)),
            ("original_path"@, JsonView::Str(s.0)),
            ("relative_path"@, JsonView::Str(s.1)),
            ("content"@, JsonView::Str(content)),
        ],
    )
}

/// The artifact a source is stored as, before it is written out as JSON text.
pub fn source_artifact_body(project_code: &str, namespace_code: &str, source: &ContinuitySource, content: &str) -> (r: Json)
    ensures
        r@ == artifact_body_view(project_code@, namespace_code@, source_view(*source), content@),
{
    let mut b = ObjectBuilder::new();
    b.push("project_code", str_json(project_code));
    b.push("namespace_code", str_json(namespace_code));
    b.push("source_kind", str_json(source.source_kind.as_str()));
    b.push("original_path", str_json(source.original_path.as_str()));
    b.push("relative_path", str_json(source.relative_path.as_str()));
    b.push("content", str_json(content));
    assert(b.view_entries() =~= artifact_body_view(
        project_code@,
        namespace_code@,
        source_view(*source),
        content@,
    )->Object_0);
    b.build()
}

/// How many sources are of `kind`.
pub open spec fn count_kind(s: Seq<SourceView>, kind: Seq<char>) -> nat
    decreases s.len(),
{
    if s.len() == 0 {
        0
    } else {
        count_kind(s.drop_last(), kind) + if s.last().2 == kind {
            1nat
        } else {
            0nat
        }
    }
}

fn count_kind_exec(sources: &Vec<ContinuitySource>, kind: &str) -> (n: usize)
    ensures
        n == count_kind(sources_view(sources@), kind@),
{
    let ghost sv = sources_view(sources@);
    let mut n: usize = 0;
    let mut i: usize = 0;
    while i < sources.len()
        invariant
            i <= sources@.len(),
            sv == sources_view(sources@),
            n == count_kind(sv.take(i as int), kind@),
            n <= i,
        decreases sources@.len() - i,
    {
        proof {
            assert(sv.take(i + 1).drop_last() =~= sv.take(i as int));
            assert(sv.take(i + 1).last() == sv[i as int]);
        }
        if str_eq(sources[i].source_kind.as_str(), kind) {
            n = n + 1;
        }
        i = i + 1;
    }
    assert(sv.take(sources@.len() as int) =~= sv);
    n
}

/// The active workline summary when no file and no stored handoff give one.
pub open spec fn no_active_summary() -> JsonView {
    JsonView::Object(seq![("headline"@, JsonView::Str("ещё нет данных"@)), ("next_step"@, JsonView::Str("ещё нет данных"@))])
}

/// The record of a continuity import: the project and namespace, the batch and when it
/// ran, how many documents were stored and how many were session notes and transcripts,
/// the bootstrap file with its summary, the active workline file with its normalised
/// summary (the placeholder summary when there is none), and the report of each source.
pub open spec fn continuity_import_view(
    project: ProjectRecord,
    namespace: NamespaceRecord,
    import_batch_id: Seq<char>,
    imported_at_epoch_ms: nat,
    sources: Seq<SourceView>,
    entries: Seq<JsonView>,
    bootstrap_file: Seq<char>,
    bootstrap_details: JsonView,
    active_workline_file: Option<Seq<char>>,
    active_summary: Option<JsonView>,
) -> JsonView {
    JsonView::Object(
        seq![
            (
                "continuity_import"@,
                JsonView::Object(
                    seq![
                        ("project"@, project_view(project)),
                        ("namespace"@, namespace_view(namespace)),
                        ("import_batch_id"@, JsonView::Str(import_batch_id)),
                        ("imported_at_epoch_ms"@, JsonView::Number(imported_at_epoch_ms as int)),
                        ("documents_imported"@, JsonView::Number(entries.len() as int)),
                        (
                            "session_memory_files"@,
                            JsonView::Number(count_kind(sources, "continuity_session_memory"@) as int),
                        ),
                        (
                            "rendered_transcript_files"@,
                            JsonView::Number(count_kind(sources, "continuity_rendered_transcript"@) as int),
                        ),
                        (
                            "bootstrap_summary"@,
                            JsonView::Object(
                                seq![
                                    ("bootstrap_file"@, JsonView::Str(bootstrap_file)),
                                    ("details"@, bootstrap_details),
                                ],
                            ),
                        ),
                        (
                            "active_workline_summary"@,
                            JsonView::Object(
                                seq![
                                    ("active_workline_file"@, opt_str_view(active_workline_file)),
                                    (
                                        "details"@,
                                        handoff_view(
                                            match active_summary {
                                                Some(a) => a,
                                                None => no_active_summary(),
                                            },
                                        ),
                                    ),
                                ],
                            ),
                        ),
                        ("sources"@, JsonView::Array(entries)),
                    ],
                ),
            ),
        ],
    )
}

/// The record of a continuity import, from its sources, the report of each stored source
/// (`continuity_import_entry`), the bootstrap summary (`summarize_bootstrap`) and the
/// active workline summary (`summarize_active_workline` of the workline file, or the latest
/// stored handoff, or none).
pub fn build_continuity_import_payload(
    project: &ProjectRecord,
    namespace: &NamespaceRecord,
    import_batch_id: &str,
    imported_at_epoch_ms: u64,
    sources: &Vec<ContinuitySource>,
    entries: Vec<Json>,
    bootstrap_file: &str,
    bootstrap_details: Json,
    active_workline_file: Option<&str>,
    active_summary: Option<&Json>,
) -> (r: Json)
    ensures
        r@ == continuity_import_view(
            *project,
            *namespace,
            import_batch_id@,
            imported_at_epoch_ms as nat,
            sources_view(sources@),
            crate::json::items_view(entries@),
            bootstrap_file@,
            bootstrap_details@,
            match active_workline_file {
                Some(f) => Some(f@),
                None => None,
            },
            opt_json(active_summary),
        ),
{
    let ghost ev = crate::json::items_view(entries@);
    let ghost bv = bootstrap_details@;
    proof {
        crate::json::lemma_items_view(entries@);
    }
    let n = entries.len();
    let sessions = count_kind_exec(sources, "continuity_session_memory");
    let transcripts = count_kind_exec(sources, "continuity_rendered_transcript");
    let mut boot = ObjectBuilder::new();
    boot.push("bootstrap_file", str_json(bootstrap_file));
    boot.push("details", bootstrap_details);
    let details = match active_summary {
        Some(a) => handoff_json(a),
        None => {
            let mut d = ObjectBuilder::new();
            d.push("headline", str_json("ещё нет данных"));
            d.push("next_step", str_json("ещё нет данных"));
            assert(d.view_entries() =~= no_active_summary()->Object_0);
            let dj = d.build();
            handoff_json(&dj)
        },
    };
    let mut act = ObjectBuilder::new();
    act.push("active_workline_file", opt_str_json(active_workline_file));
    act.push("details", details);
    let mut body = ObjectBuilder::new();
    body.push("project", project_json(project));
    body.push("namespace", namespace_json(namespace));
    body.push("import_batch_id", str_json(import_batch_id));
    body.push("imported_at_epoch_ms", Json::Number(imported_at_epoch_ms as i128));
    body.push("documents_imported", Json::Number(n as i128));
    body.push("session_memory_files", Json::Number(sessions as i128));
    body.push("rendered_transcript_files", Json::Number(transcripts as i128));
    let ghost awf = match active_workline_file {
        Some(f) => Some(f@),
        None => None::<Seq<char>>,
    };
    assert(boot.view_entries() =~= seq![("bootstrap_file"@, JsonView::Str(bootstrap_file@)), ("details"@, bv)]);
    assert(act.view_entries() =~= seq![
        ("active_workline_file"@, opt_str_view(awf)),
        (
            "details"@,
            handoff_view(
                match opt_json(active_summary) {
                    Some(a) => a,
                    None => no_active_summary(),
                },
            ),
        ),
    ]);
    let bj = boot.build();
    let aj = act.build();
    body.push("bootstrap_summary", bj);
    body.push("active_workline_summary", aj);
    body.push("sources", Json::Array(entries));
    let ghost want = continuity_import_view(
        *project,
        *namespace,
        import_batch_id@,
        imported_at_epoch_ms as nat,
        sources_view(sources@),
        ev,
        bootstrap_file@,
        bv,
        awf,
        opt_json(active_summary),
    );
    let ghost be = body.view_entries();
    let ghost we = want->Object_0[0].1->Object_0;
    assert(aj@->Object_0 =~= we[8].1->Object_0);
    assert(be =~= we);
    let bodyj = body.build();
    let mut top = ObjectBuilder::new();
    top.push("continuity_import", bodyj);
    let r = top.build();
    assert(top.view_entries() =~= want->Object_0);
    assert(r@ =~~= continuity_import_view(
        *project,
        *namespace,
        import_batch_id@,
        imported_at_epoch_ms as nat,
        sources_view(sources@),
        ev,
        bootstrap_file@,
        bv,
        match active_workline_file {
            Some(f) => Some(f@),
            None => None,
        },
        opt_json(active_summary),
    ));
    r
}

/// The 16 bytes of a 128-bit id, most significant first.
pub open spec fn id_bytes(id: u128) -> Seq<u8> {
    Seq::new(16, |k: int| ((id >> ((8 * (15 - k)) as u128)) & 0xffu128) as u8)
}

/// The hyphenated lower-case text of a UUID (`8-4-4-4-12` hexadecimal digits), as the
/// `uuid` crate writes it.
pub open spec fn uuid_text(id: u128) -> Seq<char> {
    let b = id_bytes(id);
    hex_of(b.subrange(0, 4)) + "-"@ + hex_of(b.subrange(4, 6)) + "-"@ + hex_of(b.subrange(6, 8)) + "-"@
        + hex_of(b.subrange(8, 10)) + "-"@ + hex_of(b.subrange(10, 16))
}

fn id_bytes_exec(id: u128) -> (r: Vec<u8>)
    ensures
        r@ == id_bytes(id),
{
    let mut r: Vec<u8> = Vec::new();
    let mut k: u128 = 0;
    while k < 16
        invariant
            k <= 16,
            r@.len() == k,
            forall|j: int| 0 <= j < k ==> r@[j] == ((id >> ((8 * (15 - j)) as u128)) & 0xffu128) as u8,
        decreases 16 - k,
    {
        let shift: u128 = 8 * (15 - k);
        let b = ((id >> shift) & 0xffu128) as u8;
        r.push(b);
        k = k + 1;
    }
    assert(r@ =~= id_bytes(id));
    r
}

fn hex_range(b: &Vec<u8>, lo: usize, hi: usize, out: &mut Vec<char>)
    requires
        lo <= hi <= b@.len(),
    ensures
        final(out)@ == old(out)@ + hex_of(b@.subrange(lo as int, hi as int)),
{
    let mut part: Vec<u8> = Vec::new();
    let mut i: usize = lo;
    while i < hi
        invariant
            lo <= i <= hi <= b@.len(),
            part@ == b@.subrange(lo as int, i as int),
        decreases hi - i,
    {
        part.push(b[i]);
        assert(part@ =~= b@.subrange(lo as int, i + 1));
        i = i + 1;
    }
    let h = crate::launch::hex_chars(part.as_slice());
    push_all(out, h.as_slice());
}

/// A fresh random (version 4) UUID, as an import batch id or a verification run id: its
/// value and its hyphenated text.
pub fn new_random_uuid() -> (r: (u128, String))
    ensures
        (r.0 >> 76u128) & 0xfu128 == 4u128,
        (r.0 >> 62u128) & 3u128 == 2u128,
        r.1@ == uuid_text(r.0),
{
    let id = crate::chunks::new_random_id();
    let b = id_bytes_exec(id);
    let mut out: Vec<char> = Vec::new();
    hex_range(&b, 0, 4, &mut out);
    push_str(&mut out, "-");
    hex_range(&b, 4, 6, &mut out);
    push_str(&mut out, "-");
    hex_range(&b, 6, 8, &mut out);
    push_str(&mut out, "-");
    hex_range(&b, 8, 10, &mut out);
    push_str(&mut out, "-");
    hex_range(&b, 10, 16, &mut out);
    assert(out@ =~= uuid_text(id));
    (id, string_of(out.as_slice()))
}

} // verus!
