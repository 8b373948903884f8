use amai_continuity::import_plan::{count_sources_of_kind, plan_continuity_source_import};
use amai_continuity::json::{get, Json};
use amai_continuity::launch::hex_sha256;

fn ix<'a>(j: &'a Json, key: &str) -> &'a Json {
    get(j, key).expect("field present")
}

#[test]
fn source_import_keeps_the_searchable_part_and_records_its_size() {
    let (searchable, metadata, key) = plan_continuity_source_import(
        "art",
        "continuity",
        "continuity_session_memory",
        "/home/art/Art/memory/day.md",
        "абвг",
        5,
        1000,
        "batch-1",
    );
    assert_eq!(searchable, "аб");
    assert_eq!(ix(&metadata, "continuity_full_bytes"), &Json::Number(8));
    assert_eq!(ix(&metadata, "continuity_searchable_bytes"), &Json::Number(4));
    assert_eq!(ix(&metadata, "continuity_content_truncated"), &Json::Bool(true));
    assert_eq!(ix(&metadata, "continuity_truncated_bytes"), &Json::Number(4));
    assert_eq!(ix(&metadata, "import_batch_id"), &Json::Str("batch-1".to_string()));
    assert_eq!(ix(&metadata, "imported_at_epoch_ms"), &Json::Number(1000));
    assert_eq!(
        key,
        format!(
            "continuity/art/continuity/continuity_session_memory-{}.json",
            hex_sha256("/home/art/Art/memory/day.md")
        )
    );
}

#[test]
fn source_import_within_the_limit_is_kept_whole() {
    let (searchable, metadata, _) =
        plan_continuity_source_import("art", "continuity", "k", "/p", "short", 100, 0, "b");
    assert_eq!(searchable, "short");
    assert_eq!(ix(&metadata, "continuity_content_truncated"), &Json::Bool(false));
    assert_eq!(ix(&metadata, "continuity_truncated_bytes"), &Json::Number(0));
}

#[test]
fn sources_are_counted_by_kind() {
    let kinds: Vec<String> = ["continuity_session_memory", "continuity_rendered_transcript", "continuity_session_memory"]
        .iter()
        .map(|k| k.to_string())
        .collect();
    assert_eq!(count_sources_of_kind(&kinds, "continuity_session_memory"), 2);
    assert_eq!(count_sources_of_kind(&kinds, "continuity_rendered_transcript"), 1);
    assert_eq!(count_sources_of_kind(&kinds, "bootstrap"), 0);
}
