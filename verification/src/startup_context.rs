//! Choosing what a session starts from, once the stores have been read: the continuity
//! import of the namespace or of its fallback namespace (else one made from the runtime
//! state), the handoff summary, and the working-state restore.
use vstd::prelude::*;
use crate::direct_answer::opt_json;
use crate::text::trim;
use crate::json::{as_str, as_text, clone_json, field, get, get_str, Json, JsonView};
use crate::projections::{handoff_summary_view, normalized_handoff_summary_json};
use crate::runtime_summaries::{continuity_with_source_metadata, synthetic_continuity, synthetic_continuity_from_runtime, with_source};

verus! {

/// The first of two optional values that is there.
pub open spec fn first_of(a: Option<JsonView>, b: Option<JsonView>) -> Option<JsonView> {
    match a {
        Some(x) => Some(x),
        None => b,
    }
}

/// The continuity the session starts from: the namespace's own import, else the
/// fallback namespace's import, else one made from the handoff and restore at hand.
pub open spec fn chosen_continuity(
    namespace_code: Seq<char>,
    fallback_namespace_code: Option<Seq<char>>,
    scoped_import: Option<JsonView>,
    fallback_import: Option<JsonView>,
    handoff: Option<JsonView>,
    restore: Option<JsonView>,
) -> JsonView {
    match scoped_import {
        Some(s) => with_source(field(s, "continuity_import"@), "scoped_import"@, namespace_code),
        None => match (fallback_namespace_code, fallback_import) {
            (Some(code), Some(f)) => with_source(
                field(f, "continuity_import"@),
                "continuity_namespace_fallback_import"@,
                code,
            ),
            _ => synthetic_continuity(namespace_code, handoff, restore),
        },
    }
}

/// The handoff summary the session starts from: the stored handoff (of the namespace,
/// else of its fallback), else the import's active work line, normalised.
pub open spec fn chosen_handoff_source(handoff: Option<JsonView>, continuity: JsonView) -> JsonView {
    match handoff {
        Some(h) => h,
        None => field(field(continuity, "active_workline_summary"@), "details"@),
    }
}

/// Whether nothing was found to start from: the continuity was made from the working
/// state, the handoff summary has no headline and there is no restore.
pub open spec fn nothing_to_start_from(continuity: JsonView, handoff_summary: JsonView, restore: Option<JsonView>) -> bool {
    as_str(field(continuity, "continuity_source_mode"@)) == Some("working_state_fallback"@) && as_text(
        field(handoff_summary, "headline"@),
    ) is None && restore is None
}

/// The refusal when nothing was found to start from.
pub open spec fn nothing_found_text(project_code: Seq<char>, namespace_code: Seq<char>) -> Seq<char> {
    "no continuity import found for "@ + project_code + "::"@ + namespace_code
        + " and no working-state/handoff fallback available"@
}

/// What a session starts from, given what was read for the namespace and for its
/// fallback namespace: `fallback_namespace_code` names the fallback when the namespace
/// has one, `scoped_import` and `fallback_import` are the latest continuity import
/// snapshots, `requested_*` the namespace's handoff and restore and `fallback_*` those of
/// the fallback namespace (read only where the namespace had none). The result is the
/// continuity, the handoff summary and the restore, or the refusal when nothing was
/// found to start from.
pub fn assemble_startup_context(
    project_code: &str,
    namespace_code: &str,
    fallback_namespace_code: Option<&str>,
    scoped_import: Option<&Json>,
    fallback_import: Option<&Json>,
    requested_handoff: Option<&Json>,
    fallback_handoff: Option<&Json>,
    requested_restore: Option<&Json>,
    fallback_restore: Option<&Json>,
) -> (r: Result<(Json, Json, Option<Json>), String>)
    ensures
        ({
            let handoff = first_of(opt_json(requested_handoff), opt_json(fallback_handoff));
            let restore = first_of(opt_json(requested_restore), opt_json(fallback_restore));
            let continuity = chosen_continuity(
                namespace_code@,
                crate::answer::opt_view(fallback_namespace_code),
                opt_json(scoped_import),
                opt_json(fallback_import),
                handoff,
                restore,
            );
            let source = chosen_handoff_source(handoff, continuity);
            let summary = handoff_summary_view_of(source);
            match r {
                Ok((c, h, x)) => {
                    &&& !nothing_to_start_from(continuity, summary, restore)
                    &&& c@ == continuity
                    &&& h@ == summary
                    &&& crate::answer_payload::opt_json_owned(x) == restore
                },
                Err(e) => nothing_to_start_from(continuity, summary, restore) && e@ == nothing_found_text(
                    project_code@,
                    namespace_code@,
                ),
            }
        }),
{
    let handoff = match requested_handoff {
        Some(h) => Some(h),
        None => fallback_handoff,
    };
    let restore = match requested_restore {
        Some(x) => Some(x),
        None => fallback_restore,
    };
    let continuity = match scoped_import {
        Some(s) => continuity_with_source_metadata(
            clone_json(field_ref(s, "continuity_import")),
            "scoped_import",
            namespace_code,
        ),
        None => match (fallback_namespace_code, fallback_import) {
            (Some(code), Some(f)) => continuity_with_source_metadata(
                clone_json(field_ref(f, "continuity_import")),
                "continuity_namespace_fallback_import",
                code,
            ),
            _ => synthetic_continuity_from_runtime(namespace_code, handoff, restore),
        },
    };
    let source = match handoff {
        Some(h) => h,
        None => field_ref(field_ref(&continuity, "active_workline_summary"), "details"),
    };
    let raw_headline = get_str(source, "headline");
    let raw_next = get_str(source, "next_step");
    let summary = normalized_handoff_summary_json(raw_headline, raw_next);
    proof {
        lemma_summary_of(source@, raw_headline, raw_next);
    }
    let working_fallback = match get_str(&continuity, "continuity_source_mode") {
        Some(m) => crate::text::str_eq(m, "working_state_fallback"),
        None => false,
    };
    let no_headline = crate::json::get_text(&summary, "headline").is_none();
    if working_fallback && no_headline && restore.is_none() {
        let mut out: Vec<char> = Vec::new();
        crate::text::push_str(&mut out, "no continuity import found for ");
        crate::text::push_str(&mut out, project_code);
        crate::text::push_str(&mut out, "::");
        crate::text::push_str(&mut out, namespace_code);
        crate::text::push_str(&mut out, " and no working-state/handoff fallback available");
        return Err(crate::text::string_of(out.as_slice()));
    }
    let kept = match restore {
        Some(x) => Some(clone_json(x)),
        None => None,
    };
    Ok((continuity, summary, kept))
}

/// The normalised handoff summary of a handoff-shaped value.
pub open spec fn handoff_summary_view_of(source: JsonView) -> JsonView {
    crate::startup_payload::handoff_view(source)
}

proof fn lemma_summary_of(source: JsonView, headline: Option<&str>, next_step: Option<&str>)
    requires
        match headline {
            Some(s) => as_str(field(source, "headline"@)) == Some(s@),
            None => as_str(field(source, "headline"@)) is None,
        },
        match next_step {
            Some(s) => as_str(field(source, "next_step"@)) == Some(s@),
            None => as_str(field(source, "next_step"@)) is None,
        },
    ensures
        handoff_summary_view(headline, next_step) == handoff_summary_view_of(source),
{
    assert(crate::labels::opt_text(headline) == as_text(field(source, "headline"@)));
    assert(crate::projections::text_or_empty(next_step) =~= crate::direct_answer::str_or_empty(
        field(source, "next_step"@),
    ));
}

fn field_ref<'a>(v: &'a Json, key: &str) -> (r: &'a Json)
    ensures
        r@ == field(v@, key@),
{
    match get(v, key) {
        Some(x) => x,
        None => &Json::Null,
    }
}

/// A session always has something to start from: the handoff summary it is given always
/// has a headline (the placeholder at worst), so the refusal is never reached.
pub proof fn lemma_startup_context_always_found(continuity: JsonView, source: JsonView, restore: Option<JsonView>)
    ensures
        !nothing_to_start_from(continuity, handoff_summary_view_of(source), restore),
{
    let h = crate::direct_answer::project_headline(source);
    reveal_strlit("ещё нет данных");
    match as_text(field(source, "headline"@)) {
        Some(t) => {
            crate::text::lemma_trim_idempotent(as_str(field(source, "headline"@))->Some_0);
            assert(trim(h).len() > 0);
        },
        None => {
            assert(h == crate::labels::no_data());
            assert(!crate::text::is_ws(h[0]));
            assert(!crate::text::is_ws(h.last()));
            assert(crate::text::trim_start(h) == h);
            assert(trim(h) == h);
        },
    }
    let es = handoff_summary_view_of(source)->Object_0;
    crate::json::lemma_position_lookup_first(es, "headline"@, 2, 0);
    assert(field(handoff_summary_view_of(source), "headline"@) == JsonView::Str(h));
}

} // verus!
