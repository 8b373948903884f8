use amai_continuity::bootstrap::{
    parse_rendered_transcripts, summarize_active_workline, summarize_bootstrap,
};
use amai_continuity::json::{get, get_str, Json};

fn count(j: &Json) -> Option<i128> {
    match get(j, "thread_count") {
        Some(Json::Number(n)) => Some(*n),
        _ => None,
    }
}

#[test]
fn parse_rendered_transcripts_ignores_blank_projection_entries() {
    let text = "\
- `rendered_transcript`: ``\n\
- `rendered_transcript`: `   `\n\
- `rendered_transcript`: `/tmp/rendered.md`\n";

    let paths = parse_rendered_transcripts(text);

    assert_eq!(paths, vec!["/tmp/rendered.md".to_string()]);
    let summary = summarize_bootstrap(text);
    assert_eq!(count(&summary), Some(1));
    assert_eq!(get_str(&summary, "latest_rendered_transcript"), Some("/tmp/rendered.md"));
}

#[test]
fn summarize_bootstrap_preserves_missing_latest_rendered_transcript_as_null() {
    let text = "- `thread_count`: `0`\n";
    let summary = summarize_bootstrap(text);
    assert_eq!(count(&summary), Some(0));
    assert!(matches!(get(&summary, "latest_rendered_transcript"), Some(Json::Null)));
}

#[test]
fn summarize_bootstrap_prefers_the_stated_count_and_falls_back_to_the_listed_transcripts() {
    let text = "- `thread_count`: `7`\n  - `rendered_transcript`: `/a.md`\n- `rendered_transcript`: `/b.md`\n";
    let summary = summarize_bootstrap(text);
    assert_eq!(count(&summary), Some(7));
    assert_eq!(get_str(&summary, "latest_rendered_transcript"), Some("/b.md"));

    let unparsable = "- `thread_count`: `many`\n- `rendered_transcript`: `/a.md`\n";
    assert_eq!(count(&summarize_bootstrap(unparsable)), Some(1));
    let unclosed = "- `thread_count`: `3\n";
    assert_eq!(count(&summarize_bootstrap(unclosed)), Some(0));
}

#[test]
fn parse_rendered_transcripts_cuts_unquoted_entries_at_the_last_backtick() {
    let paths = parse_rendered_transcripts("- `rendered_transcript`: /tmp/x.md`\nplain line\n");
    assert_eq!(paths, vec!["tmp/x.md".to_string()]);
    assert!(parse_rendered_transcripts("- `rendered_transcript`:`\n").is_empty());
}

#[test]
fn summarize_active_workline_reads_headline_and_last_next_step_block() {
    let text = "## Текущая активная линия\n- verify chunks\n\n- nearest mandatory next step:\n- port tests\n  - run check\n";
    let summary = summarize_active_workline(text);
    assert_eq!(get_str(&summary, "headline"), Some("verify chunks"));
    assert_eq!(get_str(&summary, "next_step"), Some("port tests | run check"));

    let empty = summarize_active_workline("");
    assert_eq!(get_str(&empty, "headline"), Some("ещё нет данных"));
    assert_eq!(get_str(&empty, "next_step"), Some("ещё нет данных"));
}
