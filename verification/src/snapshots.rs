//! Choosing the latest observability snapshot of a project and namespace: snapshots are
//! ordered by when their content was captured (not when they were stored, since replays
//! store old content anew), ties broken by storage time and then by position.
use vstd::prelude::*;
use crate::handoff::{is_meta_continuity_handoff, meta_handoff};
use crate::json::{as_str, field, get, get_str, str_json, Json, JsonView, ObjectBuilder};
use crate::text::str_eq;

verus! {

/// A stored observability snapshot.
pub struct ObservabilitySnapshotRecord {
    pub snapshot_id: u128,
    pub snapshot_kind: String,
    pub created_at_epoch_ms: i64,
    pub payload: Json,
}

/// `value.as_i64()`.
pub open spec fn as_i64(v: JsonView) -> Option<int> {
    match v {
        JsonView::Number(n) => if i64::MIN <= n <= i64::MAX {
            Some(n)
        } else {
            None
        },
        _ => None,
    }
}

fn get_i64(value: &Json, key: &str) -> (r: Option<i64>)
    ensures
        match r {
            Some(v) => as_i64(field(value@, key@)) == Some(v as int),
            None => as_i64(field(value@, key@)) is None,
        },
{
    match get(value, key) {
        Some(Json::Number(n)) => {
            if i64::MIN as i128 <= *n && *n <= i64::MAX as i128 {
                Some(*n as i64)
            } else {
                None
            }
        },
        _ => None,
    }
}

/// When a snapshot's content was captured: its capture time, else its import time, else
/// its creation time in seconds, else the observability capture time, else when it was
/// stored.
pub open spec fn semantic_epoch(payload: JsonView, created_at: int, root_key: Seq<char>) -> int {
    let root = field(payload, root_key);
    match as_i64(field(root, "captured_at_epoch_ms"@)) {
        Some(v) => v,
        None => match as_i64(field(root, "imported_at_epoch_ms"@)) {
            Some(v) => v,
            None => match as_i64(field(root, "created_at_epoch_s"@)) {
                Some(v) => v * 1000,
                None => match as_i64(field(field(payload, "_observability"@), "captured_at_epoch_ms"@)) {
                    Some(v) => v,
                    None => created_at,
                },
            },
        },
    }
}

/// The creation time in seconds, when it is the one used, converts to milliseconds
/// within `i64`.
pub open spec fn semantic_epoch_fits(payload: JsonView, root_key: Seq<char>) -> bool {
    let root = field(payload, root_key);
    as_i64(field(root, "captured_at_epoch_ms"@)) is None && as_i64(field(root, "imported_at_epoch_ms"@))
        is None ==> match as_i64(field(root, "created_at_epoch_s"@)) {
        Some(v) => i64::MIN <= v * 1000 <= i64::MAX,
        None => true,
    }
}

pub fn continuity_snapshot_semantic_epoch_ms(
    snapshot: &ObservabilitySnapshotRecord,
    root_key: &str,
) -> (r: i64)
    requires
        semantic_epoch_fits(snapshot.payload@, root_key@),
    ensures
        r == semantic_epoch(snapshot.payload@, snapshot.created_at_epoch_ms as int, root_key@),
{
    let root = match get(&snapshot.payload, root_key) {
        Some(r) => r,
        None => &Json::Null,
    };
    if let Some(v) = get_i64(root, "captured_at_epoch_ms") {
        return v;
    }
    if let Some(v) = get_i64(root, "imported_at_epoch_ms") {
        return v;
    }
    if let Some(v) = get_i64(root, "created_at_epoch_s") {
        return v * 1000;
    }
    let observed = match get(&snapshot.payload, "_observability") {
        Some(o) => get_i64(o, "captured_at_epoch_ms"),
        None => None,
    };
    match observed {
        Some(v) => v,
        None => snapshot.created_at_epoch_ms,
    }
}

/// Which snapshots besides scope the selection accepts.
pub enum SnapshotFilter {
    /// Every snapshot in scope.
    Any,
    /// Handoffs that carry work of their own (not meta handoffs).
    NonMetaHandoff,
}

/// A text field, empty when missing.
pub open spec fn text_or_empty(v: JsonView, key: Seq<char>) -> Seq<char> {
    match as_str(field(v, key)) {
        Some(t) => t,
        None => Seq::empty(),
    }
}

pub open spec fn filter_accepts(filter: SnapshotFilter, root: JsonView) -> bool {
    match filter {
        SnapshotFilter::Any => true,
        SnapshotFilter::NonMetaHandoff => !meta_handoff(
            text_or_empty(root, "headline"@),
            text_or_empty(root, "next_step"@),
            text_or_empty(root, "details"@),
        ),
    }
}

/// The snapshot's root belongs to the project and namespace and passes the filter.
pub open spec fn in_scope(
    s: ObservabilitySnapshotRecord,
    root_key: Seq<char>,
    project_code: Seq<char>,
    namespace_code: Seq<char>,
    filter: SnapshotFilter,
) -> bool {
    let root = field(s.payload@, root_key);
    &&& as_str(field(field(root, "project"@), "code"@)) == Some(project_code)
    &&& as_str(field(field(root, "namespace"@), "code"@)) == Some(namespace_code)
    &&& filter_accepts(filter, root)
}

/// `a` sorts at or after `b`: by capture time, then by storage time.
pub open spec fn key_at_least(a: (int, int), b: (int, int)) -> bool {
    a.0 > b.0 || (a.0 == b.0 && a.1 >= b.1)
}

pub open spec fn snapshot_key(s: ObservabilitySnapshotRecord, root_key: Seq<char>) -> (int, int) {
    (semantic_epoch(s.payload@, s.created_at_epoch_ms as int, root_key), s.created_at_epoch_ms as int)
}

/// The position of the latest in-scope snapshot among the first `n`: the last one whose
/// key is the greatest.
pub open spec fn latest_index(
    snaps: Seq<ObservabilitySnapshotRecord>,
    root_key: Seq<char>,
    project_code: Seq<char>,
    namespace_code: Seq<char>,
    filter: SnapshotFilter,
    n: int,
) -> Option<int>
    decreases n,
{
    if n <= 0 {
        None
    } else {
        let prev = latest_index(snaps, root_key, project_code, namespace_code, filter, n - 1);
        if in_scope(snaps[n - 1], root_key, project_code, namespace_code, filter) {
            match prev {
                Some(b) => if key_at_least(snapshot_key(snaps[n - 1], root_key), snapshot_key(snaps[b], root_key)) {
                    Some(n - 1)
                } else {
                    Some(b)
                },
                None => Some(n - 1),
            }
        } else {
            prev
        }
    }
}

fn in_scope_exec(
    s: &ObservabilitySnapshotRecord,
    root_key: &str,
    project_code: &str,
    namespace_code: &str,
    filter: &SnapshotFilter,
) -> (b: bool)
    ensures
        b == in_scope(*s, root_key@, project_code@, namespace_code@, *filter),
{
    let root = match get(&s.payload, root_key) {
        Some(r) => r,
        None => &Json::Null,
    };
    let project = match get(root, "project") {
        Some(p) => get_str(p, "code"),
        None => None,
    };
    let namespace = match get(root, "namespace") {
        Some(n) => get_str(n, "code"),
        None => None,
    };
    let project_ok = match project {
        Some(p) => str_eq(p, project_code),
        None => false,
    };
    let namespace_ok = match namespace {
        Some(n) => str_eq(n, namespace_code),
        None => false,
    };
    if !project_ok || !namespace_ok {
        return false;
    }
    match filter {
        SnapshotFilter::Any => true,
        SnapshotFilter::NonMetaHandoff => {
            let h = match get_str(root, "headline") {
                Some(t) => t,
                None => "",
            };
            let n = match get_str(root, "next_step") {
                Some(t) => t,
                None => "",
            };
            let d = match get_str(root, "details") {
                Some(t) => t,
                None => "",
            };
            proof {
                reveal_strlit("");
                assert(""@ =~= Seq::<char>::empty());
            }
            !is_meta_continuity_handoff(h, n, d)
        },
    }
}

/// The latest snapshot of the project and namespace under `root_key` that passes the
/// filter, ordered by capture time and then storage time; among equals the last one.
pub fn latest_scoped_snapshot<'a>(
    snapshots: &'a [ObservabilitySnapshotRecord],
    root_key: &str,
    project_code: &str,
    namespace_code: &str,
    filter: SnapshotFilter,
) -> (r: Option<&'a ObservabilitySnapshotRecord>)
    requires
        forall|i: int|
            0 <= i < snapshots@.len() && in_scope(
                #[trigger] snapshots@[i],
                root_key@,
                project_code@,
                namespace_code@,
                filter,
            ) ==> semantic_epoch_fits(snapshots@[i].payload@, root_key@),
    ensures
        match (r, latest_index(snapshots@, root_key@, project_code@, namespace_code@, filter, snapshots@.len() as int)) {
            (Some(s), Some(i)) => *s == snapshots@[i],
            (None, None) => true,
            _ => false,
        },
{
    let mut best: Option<usize> = None;
    let mut best_key: (i64, i64) = (0, 0);
    let mut k: usize = 0;
    while k < snapshots.len()
        invariant
            k <= snapshots@.len(),
            forall|i: int|
                0 <= i < snapshots@.len() && in_scope(
                    #[trigger] snapshots@[i],
                    root_key@,
                    project_code@,
                    namespace_code@,
                    filter,
                ) ==> semantic_epoch_fits(snapshots@[i].payload@, root_key@),
            match best {
                Some(b) => latest_index(snapshots@, root_key@, project_code@, namespace_code@, filter, k as int)
                    == Some(b as int) && b < k && (best_key.0 as int, best_key.1 as int) == snapshot_key(
                    snapshots@[b as int],
                    root_key@,
                ),
                None => latest_index(snapshots@, root_key@, project_code@, namespace_code@, filter, k as int) is None,
            },
        decreases snapshots@.len() - k,
    {
        let s = &snapshots[k];
        if in_scope_exec(s, root_key, project_code, namespace_code, &filter) {
            let key = (continuity_snapshot_semantic_epoch_ms(s, root_key), s.created_at_epoch_ms);
            let take = match best {
                Some(_) => key.0 > best_key.0 || (key.0 == best_key.0 && key.1 >= best_key.1),
                None => true,
            };
            if take {
                best = Some(k);
                best_key = key;
            }
        }
        k = k + 1;
    }
    match best {
        Some(b) => Some(&snapshots[b]),
        None => None,
    }
}

/// The latest snapshot sorts at or after every other in-scope snapshot.
pub proof fn lemma_latest_is_greatest(
    snaps: Seq<ObservabilitySnapshotRecord>,
    root_key: Seq<char>,
    project_code: Seq<char>,
    namespace_code: Seq<char>,
    filter: SnapshotFilter,
    n: int,
    j: int,
)
    requires
        0 <= j < n <= snaps.len(),
        in_scope(snaps[j], root_key, project_code, namespace_code, filter),
    ensures
        match latest_index(snaps, root_key, project_code, namespace_code, filter, n) {
            Some(i) => 0 <= i < n && in_scope(snaps[i], root_key, project_code, namespace_code, filter)
                && key_at_least(snapshot_key(snaps[i], root_key), snapshot_key(snaps[j], root_key)),
            None => false,
        },
    decreases n,
{
    if j < n - 1 {
        lemma_latest_is_greatest(snaps, root_key, project_code, namespace_code, filter, n - 1, j);
    } else {
        lemma_latest_in_scope(snaps, root_key, project_code, namespace_code, filter, n - 1);
    }
}

/// The snapshot selected among the first `n` is one of them, and in scope.
pub proof fn lemma_latest_in_scope(
    snaps: Seq<ObservabilitySnapshotRecord>,
    root_key: Seq<char>,
    project_code: Seq<char>,
    namespace_code: Seq<char>,
    filter: SnapshotFilter,
    n: int,
)
    requires
        0 <= n <= snaps.len(),
    ensures
        match latest_index(snaps, root_key, project_code, namespace_code, filter, n) {
            Some(i) => 0 <= i < n && in_scope(snaps[i], root_key, project_code, namespace_code, filter),
            None => true,
        },
    decreases n,
{
    if n > 0 {
        lemma_latest_in_scope(snaps, root_key, project_code, namespace_code, filter, n - 1);
    }
}

/// A handoff snapshot for the `art` project's `continuity` namespace, captured at
/// `captured_at_epoch_ms` and stored at `created_at_epoch_ms`.
pub fn fake_continuity_handoff_snapshot(
    created_at_epoch_ms: i64,
    captured_at_epoch_ms: i64,
    headline: &str,
) -> (r: ObservabilitySnapshotRecord)
    ensures
        r.created_at_epoch_ms == created_at_epoch_ms,
        r.snapshot_kind@ == "continuity_handoff"@,
        semantic_epoch(r.payload@, created_at_epoch_ms as int, "continuity_handoff"@) == captured_at_epoch_ms,
        as_str(field(field(r.payload@, "continuity_handoff"@), "headline"@)) == Some(headline@),
        in_scope(r, "continuity_handoff"@, "art"@, "continuity"@, SnapshotFilter::Any),
        semantic_epoch_fits(r.payload@, "continuity_handoff"@),
{
    let mut observed = ObjectBuilder::new();
    observed.push("captured_at_epoch_ms", Json::Number(captured_at_epoch_ms as i128));
    let mut project = ObjectBuilder::new();
    project.push("code", str_json("art"));
    let mut namespace = ObjectBuilder::new();
    namespace.push("code", str_json("continuity"));
    let mut handoff = ObjectBuilder::new();
    handoff.push("project", project.build());
    handoff.push("namespace", namespace.build());
    handoff.push("captured_at_epoch_ms", Json::Number(captured_at_epoch_ms as i128));
    handoff.push("headline", str_json(headline));
    handoff.push("next_step", str_json("Next step"));
    handoff.push("details", str_json(""));
    handoff.push("local_path", str_json("/tmp/handoff.md"));
    let mut payload = ObjectBuilder::new();
    payload.push("_observability", observed.build());
    payload.push("continuity_handoff", handoff.build());
    let payload = payload.build();
    proof {
        lemma_keys_distinct();
        let es = payload@->Object_0;
        crate::json::lemma_position_lookup_first(es, "continuity_handoff"@, 2, 1);
        let h = es[1].1;
        let hs = h->Object_0;
        crate::json::lemma_position_lookup_first(hs, "project"@, 7, 0);
        crate::json::lemma_position_lookup_first(hs, "namespace"@, 7, 1);
        crate::json::lemma_position_lookup_first(hs, "captured_at_epoch_ms"@, 7, 2);
        crate::json::lemma_position_lookup_first(hs, "headline"@, 7, 3);
        let ps = hs[0].1->Object_0;
        crate::json::lemma_position_lookup_first(ps, "code"@, 1, 0);
        let ns = hs[1].1->Object_0;
        crate::json::lemma_position_lookup_first(ns, "code"@, 1, 0);
    }
    ObservabilitySnapshotRecord {
        snapshot_id: crate::chunks::new_random_id(),
        snapshot_kind: "continuity_handoff".to_string(),
        created_at_epoch_ms,
        payload,
    }
}

/// An import snapshot for the `art` project's `continuity` namespace, imported at
/// `imported_at_epoch_ms` and stored at `created_at_epoch_ms`.
pub fn fake_continuity_import_snapshot(
    created_at_epoch_ms: i64,
    imported_at_epoch_ms: i64,
    headline: &str,
) -> (r: ObservabilitySnapshotRecord)
    ensures
        r.created_at_epoch_ms == created_at_epoch_ms,
        r.snapshot_kind@ == "continuity_import"@,
        semantic_epoch(r.payload@, created_at_epoch_ms as int, "continuity_import"@) == imported_at_epoch_ms,
        in_scope(r, "continuity_import"@, "art"@, "continuity"@, SnapshotFilter::Any),
        semantic_epoch_fits(r.payload@, "continuity_import"@),
{
    let mut observed = ObjectBuilder::new();
    observed.push("captured_at_epoch_ms", Json::Number(imported_at_epoch_ms as i128));
    let mut project = ObjectBuilder::new();
    project.push("code", str_json("art"));
    let mut namespace = ObjectBuilder::new();
    namespace.push("code", str_json("continuity"));
    let mut details = ObjectBuilder::new();
    details.push("headline", str_json(headline));
    details.push("next_step", str_json("Next step"));
    let mut summary = ObjectBuilder::new();
    summary.push("details", details.build());
    let mut import = ObjectBuilder::new();
    import.push("project", project.build());
    import.push("namespace", namespace.build());
    import.push("imported_at_epoch_ms", Json::Number(imported_at_epoch_ms as i128));
    import.push("active_workline_summary", summary.build());
    let mut payload = ObjectBuilder::new();
    payload.push("_observability", observed.build());
    payload.push("continuity_import", import.build());
    let payload = payload.build();
    proof {
        reveal_strlit("_observability");
        reveal_strlit("continuity_import");
        reveal_strlit("project");
        reveal_strlit("namespace");
        reveal_strlit("imported_at_epoch_ms");
        reveal_strlit("captured_at_epoch_ms");
        reveal_strlit("active_workline_summary");
        assert("_observability"@.len() != "continuity_import"@.len());
        assert("project"@.len() != "namespace"@.len());
        assert("captured_at_epoch_ms"@[0] != "imported_at_epoch_ms"@[0]);
        assert("captured_at_epoch_ms"@.len() != "project"@.len());
        assert("captured_at_epoch_ms"@.len() != "namespace"@.len());
        assert("captured_at_epoch_ms"@.len() != "active_workline_summary"@.len());
        assert("imported_at_epoch_ms"@.len() != "project"@.len());
        assert("imported_at_epoch_ms"@.len() != "namespace"@.len());
        let es = payload@->Object_0;
        crate::json::lemma_position_lookup_first(es, "continuity_import"@, 2, 1);
        let hs = es[1].1->Object_0;
        crate::json::lemma_position_lookup_first(hs, "project"@, 4, 0);
        crate::json::lemma_position_lookup_first(hs, "namespace"@, 4, 1);
        crate::json::lemma_position_lookup_first(hs, "imported_at_epoch_ms"@, 4, 2);
        reveal_with_fuel(crate::json::entries_lookup, 5);
        assert(crate::json::entries_lookup(hs, "captured_at_epoch_ms"@, 4) is None);
        let ps = hs[0].1->Object_0;
        crate::json::lemma_position_lookup_first(ps, "code"@, 1, 0);
        let ns = hs[1].1->Object_0;
        crate::json::lemma_position_lookup_first(ns, "code"@, 1, 0);
    }
    ObservabilitySnapshotRecord {
        snapshot_id: crate::chunks::new_random_id(),
        snapshot_kind: "continuity_import".to_string(),
        created_at_epoch_ms,
        payload,
    }
}

proof fn lemma_keys_distinct()
    ensures
        "_observability"@ != "continuity_handoff"@,
        "project"@ != "namespace"@,
        "project"@ != "captured_at_epoch_ms"@,
        "namespace"@ != "captured_at_epoch_ms"@,
        "headline"@ != "project"@,
        "headline"@ != "namespace"@,
        "headline"@ != "captured_at_epoch_ms"@,
{
    reveal_strlit("_observability");
    reveal_strlit("continuity_handoff");
    reveal_strlit("project");
    reveal_strlit("namespace");
    reveal_strlit("captured_at_epoch_ms");
    reveal_strlit("headline");
    assert("_observability"@.len() != "continuity_handoff"@.len());
    assert("project"@.len() != "namespace"@.len());
    assert("project"@.len() != "captured_at_epoch_ms"@.len());
    assert("namespace"@.len() != "captured_at_epoch_ms"@.len());
    assert("headline"@.len() != "project"@.len());
    assert("headline"@[0] != "namespace"@[0]);
    assert("headline"@.len() != "captured_at_epoch_ms"@.len());
}

} // verus!
