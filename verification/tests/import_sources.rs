use amai_continuity::chat_start::{NamespaceRecord, ProjectRecord};
use amai_continuity::import_sources::{
    build_continuity_import_payload, build_document_record, continuity_import_entry, continuity_import_sources,
    new_random_uuid, source_artifact_body, source_evidence_span, ContinuitySource,
};
use amai_continuity::json::{get, Json};
use amai_continuity::thread_index::{
    build_thread_index_entry_snapshot, build_transcript_thread_snapshot, thread_entry_lacks_summary,
    records_transcript_thread, thread_index_entries_to_import, ThreadIndexEntry,
};

fn s(x: &str) -> String {
    x.to_string()
}

fn ix<'a>(j: &'a Json, key: &str) -> &'a Json {
    get(j, key).expect("field present")
}

fn records() -> (ProjectRecord, NamespaceRecord) {
    (
        ProjectRecord { code: s("amai"), display_name: s("Amai"), repo_root: s("/r") },
        NamespaceRecord { code: s("continuity"), display_name: s("Continuity") },
    )
}

#[test]
fn import_sources_list_each_file_once_in_order() {
    let memory = vec![s("/m/b.md"), s("/m/notes.txt"), s("/m/a.md"), s("/m/.md")];
    let transcripts = vec![s("/t/1.md"), s("/t/2.md"), s("/t/3.md"), s("/m/a.md")];
    let is_file = vec![true, true, false, true];
    let r = continuity_import_sources("/b/snap.md", Some("/w/ACTIVE.md"), Some(&memory), &transcripts, &is_file, Some(3), "art", "tr")
        .expect("sources");
    let paths: Vec<&str> = r.iter().map(|x| x.original_path.as_str()).collect();
    assert_eq!(paths, vec!["/b/snap.md", "/w/ACTIVE.md", "/m/b.md", "/m/a.md", "/t/2.md"]);
    assert_eq!(r[0].relative_path, ".amai-continuity/bootstrap/continuity-snapshot.md");
    assert_eq!(r[1].source_kind, "continuity_active_workline");
    assert_eq!(r[2].relative_path, ".amai-continuity/external-memory-bridge/b.md");
    assert_eq!(r[3].source_kind, "continuity_session_memory");
    assert_eq!(r[4].relative_path, ".amai-continuity/rendered-transcripts/2.md");
    assert_eq!(r[4].artifact_bucket, "tr");
    assert_eq!(r[4].artifact_kind, "continuity_rendered_transcript");
}

#[test]
fn import_sources_refuse_a_transcript_without_a_file_name() {
    let transcripts = vec![s("/t/..")];
    match continuity_import_sources("/b/snap.md", None, None, &transcripts, &vec![true], None, "art", "tr") {
        Err(e) => assert_eq!(e, "invalid transcript file name: /t/.."),
        Ok(_) => panic!("a transcript without a file name must be refused"),
    }
}

#[test]
fn document_records_count_the_full_content_and_keep_the_searchable_part() {
    let source = ContinuitySource {
        original_path: s("/b/snap.md"),
        relative_path: s("rel"),
        source_kind: s("continuity_bootstrap"),
        artifact_bucket: s("art"),
        artifact_kind: s("continuity_bootstrap"),
    };
    let d = build_document_record("/r", &source, "one\ntwo\n", "one", Json::Null);
    assert_eq!(d.line_count, 2);
    assert_eq!(d.byte_count, 8);
    assert_eq!(d.content, "one");
    assert_eq!(d.language, "markdown");
    assert_eq!(d.absolute_path, "/b/snap.md");
    assert_eq!(d.file_sha256.len(), 64);
    assert_eq!(ix(&d.metrics, "searchable_byte_count"), &Json::Number(3));
    let e = continuity_import_entry(&source, "continuity/k.json", 7, 8);
    assert_eq!(ix(&e, "artifact_ref_id"), &Json::Number(7));
    assert_eq!(ix(&e, "artifact_key"), &Json::Str(s("continuity/k.json")));
}

#[test]
fn import_payload_counts_sources_and_falls_back_to_the_placeholder_summary() {
    let (project, namespace) = records();
    let sources = vec![
        ContinuitySource { original_path: s("/b"), relative_path: s("r"), source_kind: s("continuity_bootstrap"), artifact_bucket: s("a"), artifact_kind: s("continuity_bootstrap") },
        ContinuitySource { original_path: s("/m"), relative_path: s("r"), source_kind: s("continuity_session_memory"), artifact_bucket: s("a"), artifact_kind: s("continuity_session_memory") },
    ];
    let p = build_continuity_import_payload(&project, &namespace, "batch", 10, &sources, vec![Json::Null, Json::Null], "/b", Json::Null, None, None);
    let body = ix(&p, "continuity_import");
    assert_eq!(ix(body, "documents_imported"), &Json::Number(2));
    assert_eq!(ix(body, "session_memory_files"), &Json::Number(1));
    assert_eq!(ix(body, "rendered_transcript_files"), &Json::Number(0));
    let active = ix(body, "active_workline_summary");
    assert_eq!(ix(active, "active_workline_file"), &Json::Null);
    assert_eq!(ix(ix(active, "details"), "headline"), &Json::Str(s("ещё нет данных")));
}

#[test]
fn batch_ids_are_version_four_uuids_in_their_usual_text() {
    let (id, text) = new_random_uuid();
    assert_eq!(text, uuid::Uuid::from_u128(id).to_string());
    assert_eq!(uuid::Uuid::from_u128(id).get_version_num(), 4);
}

fn entry(id: &str, cwd: &str) -> ThreadIndexEntry {
    ThreadIndexEntry {
        thread_id: s(id),
        title: s("  Title  "),
        cwd: s(cwd),
        first_user_message: s(""),
        source_rollout: s("/x/rollout"),
        raw_mirror: s(""),
        rendered_transcript: s("/x/t.md"),
        started_at: s(""),
        ended_at: s(""),
        messages_count: 0,
        last_user_message: s(""),
        last_assistant_message: s(""),
        summary_headline: s(""),
        summary_next_step: s(" next "),
        time_slices: Json::Array(vec![]),
        created_at_epoch_s: 0,
        updated_at_epoch_s: 0,
    }
}

#[test]
fn thread_index_keeps_each_project_thread_once() {
    let ids = vec![s("a"), s(""), s("b"), s("a"), s("c")];
    let cwds = vec![s("/r/x"), s("/r"), s("/other"), s("/r/y"), s("/r")];
    assert_eq!(thread_index_entries_to_import(&ids, &cwds, "/r"), vec![0, 4]);
}

#[test]
fn thread_index_snapshot_prefers_the_derived_summary() {
    let (project, namespace) = records();
    let e = entry("a", "/r");
    assert!(!thread_entry_lacks_summary(&e));
    let plain = build_thread_index_entry_snapshot(&project, &namespace, &e, None);
    let node = ix(&plain, "continuity_thread_index");
    assert_eq!(ix(node, "title"), &Json::Str(s("Title")));
    assert_eq!(ix(node, "first_user_message"), &Json::Null);
    assert_eq!(ix(node, "summary_next_step"), &Json::Str(s("next")));
    assert_eq!(ix(node, "summary_headline"), &Json::Null);
    assert_eq!(ix(node, "started_at"), &Json::Str(s("")));
    let derived = Json::Object(vec![(s("started_at"), Json::Str(s("t0"))), (s("summary_headline"), Json::Str(s(" H ")))]);
    let with = build_thread_index_entry_snapshot(&project, &namespace, &e, Some(&derived));
    let node = ix(&with, "continuity_thread_index");
    assert_eq!(ix(node, "started_at"), &Json::Str(s("t0")));
    assert_eq!(ix(node, "summary_headline"), &Json::Str(s("H")));
    assert_eq!(ix(node, "ended_at"), &Json::Null);
    let summary = Json::Object(vec![(s("thread_id"), Json::Str(s("z"))), (s("title"), Json::Str(s("  "))), (s("summary_next_step"), Json::Str(s(" go ")))]);
    let t = build_transcript_thread_snapshot(&project, &namespace, &summary);
    let node = ix(&t, "continuity_thread_index");
    assert_eq!(ix(node, "thread_id"), &Json::Str(s("z")));
    assert_eq!(ix(node, "title"), &Json::Null);
    assert_eq!(ix(node, "summary_next_step"), &Json::Str(s("go")));
}

#[test]
fn artifacts_carry_their_source_and_content() {
    let source = ContinuitySource {
        original_path: s("/t/1.md"),
        relative_path: s(".amai-continuity/rendered-transcripts/1.md"),
        source_kind: s("continuity_rendered_transcript"),
        artifact_bucket: s("tr"),
        artifact_kind: s("continuity_rendered_transcript"),
    };
    let body = source_artifact_body("amai", "continuity", &source, "text");
    assert_eq!(ix(&body, "content"), &Json::Str(s("text")));
    assert_eq!(ix(&body, "project_code"), &Json::Str(s("amai")));
    let span = source_evidence_span(&source);
    assert_eq!(ix(&span, "relative_path"), &Json::Str(s(".amai-continuity/rendered-transcripts/1.md")));
    assert!(records_transcript_thread(false, "continuity_rendered_transcript"));
    assert!(!records_transcript_thread(true, "continuity_rendered_transcript"));
    assert!(!records_transcript_thread(false, "continuity_bootstrap"));
}
