//! What a continuity import records for each source file: the searchable part of its
//! content, the metadata of the import, and the object key its artifact is stored under.
use vstd::prelude::*;
use crate::documents::{lemma_truncated_shape, truncate_utf8_by_bytes, truncated};
use crate::json::{Json, JsonView, ObjectBuilder};
use crate::launch::{hex_of, hex_sha256, sha256_digest};
use crate::text::{byte_len, byte_len_exec, chars_of, push_str, string_of};

verus! {

/// The import metadata of one source: its kind and path, when and in which batch it was
/// imported, and how much of its content is searchable.
pub open spec fn import_metadata(
    source_kind: Seq<char>,
    original_path: Seq<char>,
    imported_at_epoch_ms: u64,
    import_batch_id: Seq<char>,
    content: Seq<char>,
    max_searchable_bytes: nat,
) -> JsonView {
    let (kept, dropped) = truncated(content, max_searchable_bytes);
    JsonView::Object(
        seq![
            ("continuity_kind"@, JsonView::Str(source_kind)),
            ("original_path"@, JsonView::Str(original_path)),
            ("imported_at_epoch_ms"@, JsonView::Number(imported_at_epoch_ms as int)),
            ("import_batch_id"@, JsonView::Str(import_batch_id)),
            ("continuity_full_bytes"@, JsonView::Number(byte_len(content) as int)),
            ("continuity_searchable_bytes"@, JsonView::Number(byte_len(kept) as int)),
            ("continuity_content_truncated"@, JsonView::Bool(dropped > 0)),
            ("continuity_truncated_bytes"@, JsonView::Number(dropped as int)),
        ],
    )
}

/// `continuity/<project>/<namespace>/<kind>-<sha256 of the path>.json`.
pub open spec fn source_object_key(
    project_code: Seq<char>,
    namespace_code: Seq<char>,
    source_kind: Seq<char>,
    original_path: Seq<char>,
) -> Seq<char> {
    "continuity/"@ + project_code + "/"@ + namespace_code + "/"@ + source_kind + "-"@ + hex_of(
        sha256_digest(vstd::utf8::encode_utf8(original_path)),
    ) + ".json"@
}

/// What the import records for one source file: the searchable part of `content` (at
/// most `max_searchable_bytes` bytes, cut at a character boundary), the import metadata,
/// and the object key of its artifact.
pub fn plan_continuity_source_import(
    project_code: &str,
    namespace_code: &str,
    source_kind: &str,
    original_path: &str,
    content: &str,
    max_searchable_bytes: usize,
    imported_at_epoch_ms: u64,
    import_batch_id: &str,
) -> (r: (String, Json, String))
    requires
        byte_len(content@) <= usize::MAX,
    ensures
        r.0@ == truncated(content@, max_searchable_bytes as nat).0,
        r.1@ == import_metadata(
            source_kind@,
            original_path@,
            imported_at_epoch_ms,
            import_batch_id@,
            content@,
            max_searchable_bytes as nat,
        ),
        r.2@ == source_object_key(project_code@, namespace_code@, source_kind@, original_path@),
{
    let (searchable, dropped) = truncate_utf8_by_bytes(content, max_searchable_bytes);
    proof {
        lemma_truncated_shape(content@, max_searchable_bytes as nat);
    }
    let cv = chars_of(content);
    let full = byte_len_exec(cv.as_slice());
    let kept_bytes = full - dropped as u64;
    let mut b = ObjectBuilder::new();
    b.push("continuity_kind", Json::Str(source_kind.to_string()));
    b.push("original_path", Json::Str(original_path.to_string()));
    b.push("imported_at_epoch_ms", Json::Number(imported_at_epoch_ms as i128));
    b.push("import_batch_id", Json::Str(import_batch_id.to_string()));
    b.push("continuity_full_bytes", Json::Number(full as i128));
    b.push("continuity_searchable_bytes", Json::Number(kept_bytes as i128));
    b.push("continuity_content_truncated", Json::Bool(dropped > 0));
    b.push("continuity_truncated_bytes", Json::Number(dropped as i128));
    assert(b.view_entries() =~= import_metadata(
        source_kind@,
        original_path@,
        imported_at_epoch_ms,
        import_batch_id@,
        content@,
        max_searchable_bytes as nat,
    )->Object_0);
    let digest = hex_sha256(original_path);
    let mut key: Vec<char> = Vec::new();
    push_str(&mut key, "continuity/");
    push_str(&mut key, project_code);
    push_str(&mut key, "/");
    push_str(&mut key, namespace_code);
    push_str(&mut key, "/");
    push_str(&mut key, source_kind);
    push_str(&mut key, "-");
    push_str(&mut key, digest.as_str());
    push_str(&mut key, ".json");
    assert(key@ =~= source_object_key(project_code@, namespace_code@, source_kind@, original_path@));
    (searchable, b.build(), string_of(key.as_slice()))
}

/// How many of the kinds are `kind`.
pub open spec fn kind_count(kinds: Seq<String>, kind: Seq<char>) -> nat
    decreases kinds.len(),
{
    if kinds.len() == 0 {
        0
    } else {
        kind_count(kinds.drop_last(), kind) + if kinds.last()@ == kind {
            1nat
        } else {
            0nat
        }
    }
}

/// The number of sources of the given kind.
pub fn count_sources_of_kind(kinds: &Vec<String>, kind: &str) -> (n: usize)
    ensures
        n == kind_count(kinds@, kind@),
{
    let mut n: usize = 0;
    let mut i: usize = 0;
    while i < kinds.len()
        invariant
            i <= kinds@.len(),
            n == kind_count(kinds@.take(i as int), kind@),
            n <= i,
        decreases kinds@.len() - i,
    {
        proof {
            let t = kinds@.take(i + 1);
            assert(t.drop_last() =~= kinds@.take(i as int));
        }
        if crate::text::str_eq(kinds[i].as_str(), kind) {
            n = n + 1;
        }
        i = i + 1;
    }
    assert(kinds@.take(kinds@.len() as int) =~= kinds@);
    n
}

} // verus!
