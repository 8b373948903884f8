//! The thread index a continuity import records: which entries of a thread-index file
//! belong to the project (each thread once), and the snapshot each of them is stored as.
use vstd::prelude::*;
use crate::chat_start::{namespace_json, namespace_view, project_json, project_view, NamespaceRecord, ProjectRecord};
use crate::direct_answer::opt_json;
use crate::json::{as_str, field, get_cloned, get_str, opt_str_json, opt_str_view, str_json, Json, JsonView, ObjectBuilder};
use crate::labels::{opt_text, optional_non_empty_text};
use crate::projections::{normalized_optional_text_json, text_json};
use crate::text::{has_prefix, non_empty_trimmed, str_eq, str_starts_with};

verus! {

/// An entry of a thread-index file.
pub struct ThreadIndexEntry {
    pub thread_id: String,
    pub title: String,
    pub cwd: String,
    pub first_user_message: String,
    pub source_rollout: String,
    pub raw_mirror: String,
    pub rendered_transcript: String,
    pub started_at: String,
    pub ended_at: String,
    pub messages_count: u64,
    pub last_user_message: String,
    pub last_assistant_message: String,
    pub summary_headline: String,
    pub summary_next_step: String,
    pub time_slices: Json,
    pub created_at_epoch_s: i64,
    pub updated_at_epoch_s: i64,
}

/// An entry the project may import: it names a thread and was recorded under the
/// project's repository root.
pub open spec fn thread_entry_eligible(ids: Seq<Seq<char>>, cwds: Seq<Seq<char>>, repo_root: Seq<char>, i: int) -> bool {
    ids[i].len() > 0 && has_prefix(cwds[i], repo_root)
}

/// An eligible entry whose thread no earlier eligible entry names.
pub open spec fn thread_entry_kept(ids: Seq<Seq<char>>, cwds: Seq<Seq<char>>, repo_root: Seq<char>, i: int) -> bool {
    &&& thread_entry_eligible(ids, cwds, repo_root, i)
    &&& !exists|j: int| 0 <= j < i && thread_entry_eligible(ids, cwds, repo_root, j) && #[trigger] ids[j] == ids[i]
}

/// The positions of the kept entries among the first `n`, in order.
pub open spec fn kept_thread_entries(ids: Seq<Seq<char>>, cwds: Seq<Seq<char>>, repo_root: Seq<char>, n: int) -> Seq<int>
    decreases n,
{
    if n <= 0 {
        Seq::empty()
    } else if thread_entry_kept(ids, cwds, repo_root, n - 1) {
        kept_thread_entries(ids, cwds, repo_root, n - 1).push(n - 1)
    } else {
        kept_thread_entries(ids, cwds, repo_root, n - 1)
    }
}

pub open spec fn strs(s: Seq<String>) -> Seq<Seq<char>> {
    s.map_values(|x: String| x@)
}

/// The positions of the thread-index entries that a project imports: entries that name a
/// thread and were recorded under `repo_root`, each thread at its first such entry.
/// `thread_ids` and `cwds` hold the entries' threads and working directories.
pub fn thread_index_entries_to_import(thread_ids: &Vec<String>, cwds: &Vec<String>, repo_root: &str) -> (r: Vec<usize>)
    requires
        thread_ids@.len() == cwds@.len(),
    ensures
        r@.map_values(|k: usize| k as int) == kept_thread_entries(
            strs(thread_ids@),
            strs(cwds@),
            repo_root@,
            thread_ids@.len() as int,
        ),
{
    let ghost ids = strs(thread_ids@);
    let ghost cs = strs(cwds@);
    let mut r: Vec<usize> = Vec::new();
    let mut i: usize = 0;
    while i < thread_ids.len()
        invariant
            i <= thread_ids@.len() == cwds@.len(),
            ids == strs(thread_ids@),
            cs == strs(cwds@),
            r@.map_values(|k: usize| k as int) == kept_thread_entries(ids, cs, repo_root@, i as int),
        decreases thread_ids@.len() - i,
    {
        let eligible = thread_ids[i].as_str().unicode_len() > 0 && str_starts_with(cwds[i].as_str(), repo_root);
        proof {
            assert(ids[i as int] == thread_ids@[i as int]@);
            assert(cs[i as int] == cwds@[i as int]@);
        }
        assert(eligible == thread_entry_eligible(ids, cs, repo_root@, i as int));
        if eligible {
            let mut seen = false;
            let mut j: usize = 0;
            while j < i
                invariant
                    j <= i < thread_ids@.len() == cwds@.len(),
                    ids == strs(thread_ids@),
                    cs == strs(cwds@),
                    seen == exists|q: int|
                        0 <= q < j && thread_entry_eligible(ids, cs, repo_root@, q) && #[trigger] ids[q] == ids[i as int],
                decreases i - j,
            {
                let e = thread_ids[j].as_str().unicode_len() > 0 && str_starts_with(cwds[j].as_str(), repo_root);
                proof {
                    assert(ids[j as int] == thread_ids@[j as int]@);
                    assert(cs[j as int] == cwds@[j as int]@);
                }
                assert(e == thread_entry_eligible(ids, cs, repo_root@, j as int));
                if e && str_eq(thread_ids[j].as_str(), thread_ids[i].as_str()) {
                    assert(ids[j as int] == ids[i as int]);
                    seen = true;
                }
                j = j + 1;
            }
            if !seen {
                let ghost before = r@;
                r.push(i);
                assert(r@.map_values(|k: usize| k as int) =~= before.map_values(|k: usize| k as int).push(i as int));
            }
        }
        i = i + 1;
    }
    r
}

/// An entry that records no summary of its own, so the summary is derived from the
/// thread's transcript when it can be.
pub open spec fn entry_lacks_summary(e: ThreadIndexEntry) -> bool {
    &&& e.summary_headline@.len() == 0
    &&& e.summary_next_step@.len() == 0
    &&& e.started_at@.len() == 0
    &&& e.ended_at@.len() == 0
    &&& e.messages_count == 0
    &&& e.last_user_message@.len() == 0
    &&& e.last_assistant_message@.len() == 0
    &&& e.created_at_epoch_s == 0
    &&& e.updated_at_epoch_s == 0
}

pub fn thread_entry_lacks_summary(e: &ThreadIndexEntry) -> (b: bool)
    ensures
        b == entry_lacks_summary(*e),
{
    e.summary_headline.as_str().unicode_len() == 0 && e.summary_next_step.as_str().unicode_len() == 0
        && e.started_at.as_str().unicode_len() == 0 && e.ended_at.as_str().unicode_len() == 0
        && e.messages_count == 0 && e.last_user_message.as_str().unicode_len() == 0
        && e.last_assistant_message.as_str().unicode_len() == 0 && e.created_at_epoch_s == 0
        && e.updated_at_epoch_s == 0
}

/// The derived summary's field, or the entry's own value.
pub open spec fn derived_or(derived: Option<JsonView>, key: Seq<char>, own: JsonView) -> JsonView {
    match derived {
        Some(d) => field(d, key),
        None => own,
    }
}

/// A summary line of the snapshot: the derived summary's text when it has one, else the
/// entry's own, trimmed; `null` when blank.
pub open spec fn summary_line(derived: Option<JsonView>, key: Seq<char>, own: Seq<char>) -> JsonView {
    let chosen = match derived {
        Some(d) => match as_str(field(d, key)) {
            Some(t) => Some(t),
            None => non_empty_trimmed(own),
        },
        None => non_empty_trimmed(own),
    };
    text_json(
        match chosen {
            Some(c) => non_empty_trimmed(c),
            None => None,
        },
    )
}

/// The snapshot of a thread-index entry: the project and namespace, the thread, and for
/// each summary field the derived summary's value when one was derived, else the entry's
/// own; texts are trimmed, blank ones `null`.
pub open spec fn thread_entry_snapshot_view(
    project: ProjectRecord,
    namespace: NamespaceRecord,
    e: ThreadIndexEntry,
    derived: Option<JsonView>,
) -> JsonView {
    JsonView::Object(
        seq![
            (
                "continuity_thread_index"@,
                JsonView::Object(
                    seq![
                        ("project"@, project_view(project)),
                        ("namespace"@, namespace_view(namespace)),
                        ("thread_id"@, JsonView::Str(e.thread_id@)),
                        ("title"@, text_json(non_empty_trimmed(e.title@))),
                        ("cwd"@, JsonView::Str(e.cwd@)),
                        ("first_user_message"@, text_json(non_empty_trimmed(e.first_user_message@))),
                        ("started_at"@, derived_or(derived, "started_at"@, JsonView::Str(e.started_at@))),
                        ("ended_at"@, derived_or(derived, "ended_at"@, JsonView::Str(e.ended_at@))),
                        (
                            "messages_count"@,
                            derived_or(derived, "messages_count"@, JsonView::Number(e.messages_count as int)),
                        ),
                        (
                            "last_user_message"@,
                            derived_or(derived, "last_user_message"@, text_json(non_empty_trimmed(e.last_user_message@))),
                        ),
                        (
                            "last_assistant_message"@,
                            derived_or(
                                derived,
                                "last_assistant_message"@,
                                text_json(non_empty_trimmed(e.last_assistant_message@)),
                            ),
                        ),
                        ("summary_headline"@, summary_line(derived, "summary_headline"@, e.summary_headline@)),
                        ("summary_next_step"@, summary_line(derived, "summary_next_step"@, e.summary_next_step@)),
                        ("time_slices"@, derived_or(derived, "time_slices"@, e.time_slices@)),
                        ("rendered_transcript"@, text_json(non_empty_trimmed(e.rendered_transcript@))),
                        ("source_rollout"@, text_json(non_empty_trimmed(e.source_rollout@))),
                        ("raw_rollout"@, text_json(non_empty_trimmed(e.raw_mirror@))),
                        (
                            "created_at_epoch_s"@,
                            derived_or(derived, "created_at_epoch_s"@, JsonView::Number(e.created_at_epoch_s as int)),
                        ),
                        (
                            "updated_at_epoch_s"@,
                            derived_or(derived, "updated_at_epoch_s"@, JsonView::Number(e.updated_at_epoch_s as int)),
                        ),
                    ],
                ),
            ),
        ],
    )
}

fn derived_or_exec(derived: Option<&Json>, key: &str, own: Json) -> (r: Json)
    ensures
        r@ == derived_or(opt_json(derived), key@, own@),
{
    match derived {
        Some(d) => get_cloned(d, key),
        None => own,
    }
}

fn summary_line_exec(derived: Option<&Json>, key: &str, own: &str) -> (r: Json)
    ensures
        r@ == summary_line(opt_json(derived), key@, own@),
{
    let chosen: Option<&str> = match derived {
        Some(d) => match get_str(d, key) {
            Some(t) => Some(t),
            None => optional_non_empty_text(Some(own)),
        },
        None => optional_non_empty_text(Some(own)),
    };
    normalized_optional_text_json(chosen)
}

fn trimmed_json(s: &str) -> (r: Json)
    ensures
        r@ == text_json(non_empty_trimmed(s@)),
{
    normalized_optional_text_json(Some(s))
}

/// The snapshot a thread-index entry is stored as; `derived` is the summary derived from
/// the thread's transcript for an entry that lacks one (`thread_entry_lacks_summary`), when
/// it could be derived.
pub fn build_thread_index_entry_snapshot(
    project: &ProjectRecord,
    namespace: &NamespaceRecord,
    entry: &ThreadIndexEntry,
    derived: Option<&Json>,
) -> (r: Json)
    ensures
        r@ == thread_entry_snapshot_view(*project, *namespace, *entry, opt_json(derived)),
{
    let ghost dv = opt_json(derived);
    let mut b = ObjectBuilder::new();
    b.push("project", project_json(project));
    b.push("namespace", namespace_json(namespace));
    b.push("thread_id", str_json(entry.thread_id.as_str()));
    b.push("title", trimmed_json(entry.title.as_str()));
    b.push("cwd", str_json(entry.cwd.as_str()));
    b.push("first_user_message", trimmed_json(entry.first_user_message.as_str()));
    b.push("started_at", derived_or_exec(derived, "started_at", str_json(entry.started_at.as_str())));
    b.push("ended_at", derived_or_exec(derived, "ended_at", str_json(entry.ended_at.as_str())));
    b.push("messages_count", derived_or_exec(derived, "messages_count", Json::Number(entry.messages_count as i128)));
    b.push("last_user_message", derived_or_exec(derived, "last_user_message", trimmed_json(entry.last_user_message.as_str())));
    b.push(
        "last_assistant_message",
        derived_or_exec(derived, "last_assistant_message", trimmed_json(entry.last_assistant_message.as_str())),
    );
    b.push("summary_headline", summary_line_exec(derived, "summary_headline", entry.summary_headline.as_str()));
    b.push("summary_next_step", summary_line_exec(derived, "summary_next_step", entry.summary_next_step.as_str()));
    b.push("time_slices", derived_or_exec(derived, "time_slices", crate::json::clone_json(&entry.time_slices)));
    b.push("rendered_transcript", trimmed_json(entry.rendered_transcript.as_str()));
    b.push("source_rollout", trimmed_json(entry.source_rollout.as_str()));
    b.push("raw_rollout", trimmed_json(entry.raw_mirror.as_str()));
    b.push(
        "created_at_epoch_s",
        derived_or_exec(derived, "created_at_epoch_s", Json::Number(entry.created_at_epoch_s as i128)),
    );
    b.push(
        "updated_at_epoch_s",
        derived_or_exec(derived, "updated_at_epoch_s", Json::Number(entry.updated_at_epoch_s as i128)),
    );
    let ghost want = thread_entry_snapshot_view(*project, *namespace, *entry, dv);
    assert(b.view_entries() =~= want->Object_0[0].1->Object_0);
    let inner = b.build();
    let mut top = ObjectBuilder::new();
    top.push("continuity_thread_index", inner);
    assert(top.view_entries() =~= want->Object_0);
    top.build()
}

/// The snapshot of a thread that a rendered transcript summarises, for an import without
/// a thread-index file: the summary's fields, with its texts trimmed (blank ones `null`).
pub open spec fn transcript_thread_snapshot_view(
    project: ProjectRecord,
    namespace: NamespaceRecord,
    summary: JsonView,
) -> JsonView {
    JsonView::Object(
        seq![
            (
                "continuity_thread_index"@,
                JsonView::Object(
                    seq![
                        ("project"@, project_view(project)),
                        ("namespace"@, namespace_view(namespace)),
                        ("thread_id"@, field(summary, "thread_id"@)),
                        ("title"@, text_json(crate::json::as_text(field(summary, "title"@)))),
                        ("cwd"@, field(summary, "cwd"@)),
                        ("first_user_message"@, text_json(crate::json::as_text(field(summary, "first_user_message"@)))),
                        ("started_at"@, field(summary, "started_at"@)),
                        ("ended_at"@, field(summary, "ended_at"@)),
                        ("messages_count"@, field(summary, "messages_count"@)),
                        ("last_user_message"@, text_json(crate::json::as_text(field(summary, "last_user_message"@)))),
                        (
                            "last_assistant_message"@,
                            text_json(crate::json::as_text(field(summary, "last_assistant_message"@))),
                        ),
                        ("summary_headline"@, opt_str_view(crate::json::as_text(field(summary, "summary_headline"@)))),
                        ("summary_next_step"@, opt_str_view(crate::json::as_text(field(summary, "summary_next_step"@)))),
                        ("time_slices"@, field(summary, "time_slices"@)),
                        ("rendered_transcript"@, field(summary, "rendered_transcript"@)),
                        ("source_rollout"@, field(summary, "source_rollout"@)),
                        ("created_at_epoch_s"@, field(summary, "created_at_epoch_s"@)),
                        ("updated_at_epoch_s"@, field(summary, "updated_at_epoch_s"@)),
                    ],
                ),
            ),
        ],
    )
}

fn text_field_json(summary: &Json, key: &str) -> (r: Json)
    ensures
        r@ == text_json(crate::json::as_text(field(summary@, key@))),
{
    let t = get_str(summary, key);
    proof {
        assert(opt_text(t) == crate::json::as_text(field(summary@, key@)));
    }
    normalized_optional_text_json(t)
}

/// The snapshot of the thread a rendered transcript summarises.
pub fn build_transcript_thread_snapshot(project: &ProjectRecord, namespace: &NamespaceRecord, summary: &Json) -> (r: Json)
    ensures
        r@ == transcript_thread_snapshot_view(*project, *namespace, summary@),
{
    let mut b = ObjectBuilder::new();
    b.push("project", project_json(project));
    b.push("namespace", namespace_json(namespace));
    b.push("thread_id", get_cloned(summary, "thread_id"));
    b.push("title", text_field_json(summary, "title"));
    b.push("cwd", get_cloned(summary, "cwd"));
    b.push("first_user_message", text_field_json(summary, "first_user_message"));
    b.push("started_at", get_cloned(summary, "started_at"));
    b.push("ended_at", get_cloned(summary, "ended_at"));
    b.push("messages_count", get_cloned(summary, "messages_count"));
    b.push("last_user_message", text_field_json(summary, "last_user_message"));
    b.push("last_assistant_message", text_field_json(summary, "last_assistant_message"));
    let h = get_str(summary, "summary_headline");
    b.push("summary_headline", opt_str_json(optional_non_empty_text(h)));
    let n = get_str(summary, "summary_next_step");
    b.push("summary_next_step", opt_str_json(optional_non_empty_text(n)));
    b.push("time_slices", get_cloned(summary, "time_slices"));
    b.push("rendered_transcript", get_cloned(summary, "rendered_transcript"));
    b.push("source_rollout", get_cloned(summary, "source_rollout"));
    b.push("created_at_epoch_s", get_cloned(summary, "created_at_epoch_s"));
    b.push("updated_at_epoch_s", get_cloned(summary, "updated_at_epoch_s"));
    let ghost want = transcript_thread_snapshot_view(*project, *namespace, summary@);
    assert(b.view_entries() =~= want->Object_0[0].1->Object_0);
    let inner = b.build();
    let mut top = ObjectBuilder::new();
    top.push("continuity_thread_index", inner);
    assert(top.view_entries() =~= want->Object_0);
    top.build()
}

/// Whether an imported source's own transcript summary is recorded as a thread snapshot:
/// only for a rendered transcript, and only when the import has no thread-index file.
pub fn records_transcript_thread(thread_index_given: bool, source_kind: &str) -> (b: bool)
    ensures
        b == (!thread_index_given && source_kind@ == "continuity_rendered_transcript"@),
{
    !thread_index_given && str_eq(source_kind, "continuity_rendered_transcript")
}

} // verus!
