use amai_continuity::json::{get, Json, ObjectBuilder};
use amai_continuity::snapshots::{
    continuity_snapshot_semantic_epoch_ms, fake_continuity_handoff_snapshot,
    fake_continuity_import_snapshot, latest_scoped_snapshot, ObservabilitySnapshotRecord,
    SnapshotFilter,
};

static NULL: Json = Json::Null;

fn at<'a>(j: &'a Json, path: &[&str]) -> &'a Json {
    let mut cur = j;
    for key in path {
        match get(cur, key) {
            Some(next) => cur = next,
            None => return &NULL,
        }
    }
    cur
}

fn s(t: &str) -> Json {
    Json::Str(t.to_string())
}

#[test]
fn latest_handoff_selection_prefers_semantic_capture_time_over_replay_created_at() {
    let replayed_stale = fake_continuity_handoff_snapshot(3_000, 1_000, "Stale replay");
    let fresh = fake_continuity_handoff_snapshot(2_000, 2_000, "Fresh handoff");
    let snapshots = vec![replayed_stale, fresh];

    let selected = latest_scoped_snapshot(
        &snapshots,
        "continuity_handoff",
        "art",
        "continuity",
        SnapshotFilter::NonMetaHandoff,
    )
    .expect("selected handoff");

    assert_eq!(continuity_snapshot_semantic_epoch_ms(selected, "continuity_handoff"), 2_000);
    assert_eq!(at(&selected.payload, &["continuity_handoff", "headline"]), &s("Fresh handoff"));
}

#[test]
fn latest_import_selection_prefers_semantic_import_time_over_replay_created_at() {
    let replayed_stale = fake_continuity_import_snapshot(3_000, 1_000, "Stale import");
    let fresh = fake_continuity_import_snapshot(2_000, 2_000, "Fresh import");
    let snapshots = vec![replayed_stale, fresh];

    let selected =
        latest_scoped_snapshot(&snapshots, "continuity_import", "art", "continuity", SnapshotFilter::Any)
            .expect("selected import");

    assert_eq!(continuity_snapshot_semantic_epoch_ms(selected, "continuity_import"), 2_000);
    assert_eq!(
        at(&selected.payload, &["continuity_import", "active_workline_summary", "details", "headline"]),
        &s("Fresh import")
    );
}

#[test]
fn latest_selection_skips_meta_handoffs_other_scopes_and_breaks_ties_by_storage_then_position() {
    let meta = fake_continuity_handoff_snapshot(9_000, 9_000, "Continuity restored and reported for new chat");
    let early = fake_continuity_handoff_snapshot(1_000, 5_000, "Early store");
    let late = fake_continuity_handoff_snapshot(4_000, 5_000, "Late store");
    let twin = fake_continuity_handoff_snapshot(4_000, 5_000, "Twin");
    let snapshots = vec![meta, early, late, twin];
    let selected = latest_scoped_snapshot(&snapshots, "continuity_handoff", "art", "continuity", SnapshotFilter::NonMetaHandoff)
        .expect("selected");
    assert_eq!(at(&selected.payload, &["continuity_handoff", "headline"]), &s("Twin"));
    let any = latest_scoped_snapshot(&snapshots, "continuity_handoff", "art", "continuity", SnapshotFilter::Any)
        .expect("selected");
    assert_eq!(at(&any.payload, &["continuity_handoff", "headline"]), &s("Continuity restored and reported for new chat"));
    assert!(latest_scoped_snapshot(&snapshots, "continuity_handoff", "other", "continuity", SnapshotFilter::Any).is_none());
    assert!(latest_scoped_snapshot(&snapshots, "continuity_import", "art", "continuity", SnapshotFilter::Any).is_none());
}

#[test]
fn semantic_epoch_falls_back_through_creation_seconds_and_storage_time() {
    let mut root = ObjectBuilder::new();
    root.push("created_at_epoch_s", Json::Number(7));
    let mut payload = ObjectBuilder::new();
    payload.push("k", root.build());
    let record = ObservabilitySnapshotRecord {
        snapshot_id: 1,
        snapshot_kind: "k".to_string(),
        created_at_epoch_ms: 42,
        payload: payload.build(),
    };
    assert_eq!(continuity_snapshot_semantic_epoch_ms(&record, "k"), 7_000);
    assert_eq!(continuity_snapshot_semantic_epoch_ms(&record, "missing"), 42);
}
