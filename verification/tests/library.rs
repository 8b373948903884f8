use amai_continuity::answer::{
    answer_mentions_temporal_match, collapse_answer_text, continuity_answer_expected_fragments,
    continuity_strategy_label, extract_chat_tail_next_step, looks_like_noisy_chat_label,
    normalize_next_step_value, select_chat_tail_label, summarize_chat_tail_headline, ChatTail,
    ThreadTimeSliceSummary, TranscriptMessage, is_noisy_lowered_label,
};
use amai_continuity::budget::{
    allowed_client_budget_target_values, client_budget_target_chat_command,
    client_budget_target_chat_command_pattern, normalize_client_budget_advisory_text,
    normalize_compact_startup_runtime_command,
};
use amai_continuity::chunks::build_chunks;
use amai_continuity::documents::{
    epoch_ms_from_millis, slugify_repo_root, truncate_utf8_by_bytes, ClockError,
};
use amai_continuity::handoff::{
    extract_first_bullet_after, extract_last_block_after_labels, render_handoff_markdown,
    is_meta_continuity_handoff, is_meta_lowered_handoff,
};
use amai_continuity::labels::{human_epoch_ms, non_empty_path};
use amai_continuity::launch::{
    build_vscode_public_bridge_launch_command, build_vscode_public_bridge_uri, hex_sha256,
    shell_join_command, shell_quote, startup_runtime_state_artifact_path, url_encode_component,
};

#[test]
fn shell_quote_keeps_safe_words_and_quotes_the_rest() {
    assert_eq!(shell_quote(""), "''");
    assert_eq!(shell_quote("/home/art/a_b-c.d"), "/home/art/a_b-c.d");
    assert_eq!(shell_quote("a b"), "'a b'");
    assert_eq!(shell_quote("it's"), "'it'\\''s'");
    assert_eq!(shell_join_command(&["code", "--open-url", "a b"]), "code --open-url 'a b'");
    assert_eq!(shell_join_command(&[]), "");
}

#[test]
fn url_encode_component_escapes_every_reserved_byte() {
    assert_eq!(url_encode_component("Az09-_.~"), "Az09-_.~");
    assert_eq!(url_encode_component("/a b"), "%2Fa%20b");
    assert_eq!(url_encode_component("ё"), "%D1%91");
}

#[test]
fn public_bridge_uri_and_command_are_exact() {
    let uri = build_vscode_public_bridge_uri("/r", "/r/p.txt", "/r/res.json", "sidebar");
    assert_eq!(
        uri,
        "vscode://amai.amai-vscode-bridge/open-clean-chat?prompt_file=%2Fr%2Fp.txt&result_file=%2Fr%2Fres.json&repo_root=%2Fr&target=sidebar&auto_submit=1"
    );
    let with_code =
        build_vscode_public_bridge_launch_command(Some(" code "), None, "/r", "/r/p.txt", "/r/res.json", "sidebar");
    assert_eq!(with_code, format!("cd /r && code --open-url '{uri}'"));
    let with_opener =
        build_vscode_public_bridge_launch_command(Some("  "), None, "/r", "/r/p.txt", "/r/res.json", "sidebar");
    assert_eq!(with_opener, format!("cd /r && xdg-open '{uri}'"));
}

#[test]
fn hex_sha256_is_the_lowercase_digest() {
    assert_eq!(
        hex_sha256("abc"),
        "ba7816bf8f01cfea414140de5dae2223b00361a396177a9cb410ff61f20015ad"
    );
}

#[test]
fn startup_runtime_state_artifact_path_lives_under_the_repo() {
    assert_eq!(
        startup_runtime_state_artifact_path("/home/art/repo"),
        "/home/art/repo/.amai/continuity/project-chat-startup-state.json"
    );
}

#[test]
fn allowed_targets_are_multiples_of_the_step_up_to_the_maximum() {
    assert_eq!(allowed_client_budget_target_values(90, 10), vec![0, 10, 20, 30, 40, 50, 60, 70, 80, 90]);
    assert_eq!(allowed_client_budget_target_values(95, 20), vec![0, 20, 40, 60, 80]);
    assert_eq!(client_budget_target_chat_command(40), "экономия_40%");
    assert_eq!(client_budget_target_chat_command_pattern(20, 10), "^экономия_(0|10|20)%$");
}

#[test]
fn advisory_and_runtime_command_normalisation() {
    assert_eq!(
        normalize_client_budget_advisory_text("Client-budget guard: новый чат нужен сейчас"),
        "Client-budget advisory signal: сожми текущий чат сейчас"
    );
    assert_eq!(
        normalize_client_budget_advisory_text("новый чат рекомендован"),
        "сожми текущий чат"
    );
    assert_eq!(normalize_compact_startup_runtime_command("  'amai'   continuity\tstartup "), "amai continuity startup");
}

#[test]
fn repo_slug_is_lowercase_dash_separated_and_never_empty() {
    assert_eq!(slugify_repo_root("/home/Art/Agent Memory"), "home-art-agent-memory");
    assert_eq!(slugify_repo_root("--a..b__C--"), "a..b__c");
    assert_eq!(slugify_repo_root("///"), "project");
    assert_eq!(slugify_repo_root(""), "project");
    for value in ["/x/Проект!", "-a-", "ÉTÉ", "a  b"] {
        let slug = slugify_repo_root(value);
        assert!(!slug.is_empty());
        assert!(!slug.starts_with('-') && !slug.ends_with('-'));
        assert!(slug.chars().all(|c| c.is_ascii_alphanumeric() || matches!(c, '.' | '_' | '-')));
    }
}

#[test]
fn truncation_keeps_the_longest_fitting_prefix_and_counts_dropped_bytes() {
    assert_eq!(truncate_utf8_by_bytes("hello", 10), ("hello".to_string(), 0));
    assert_eq!(truncate_utf8_by_bytes("hello", 3), ("hel".to_string(), 2));
    assert_eq!(truncate_utf8_by_bytes("привет", 5), ("пр".to_string(), 8));
    assert_eq!(truncate_utf8_by_bytes("привет", 1), (String::new(), 12));
    let (kept, dropped) = truncate_utf8_by_bytes("ёжик в тумане", 9);
    assert!(kept.len() <= 9);
    assert_eq!(kept.len() + dropped, "ёжик в тумане".len());
    assert!("ёжик в тумане".starts_with(&kept));
}

#[test]
fn clock_readings_convert_to_epoch_milliseconds() {
    assert_eq!(epoch_ms_from_millis(Some(1_700_000_000_123)).ok(), Some(1_700_000_000_123));
    assert!(matches!(epoch_ms_from_millis(None), Err(ClockError::BeforeUnixEpoch)));
}

#[test]
fn epoch_and_path_labels() {
    assert_eq!(human_epoch_ms(Some(1_700_000_000_999)), "epoch 1700000000");
    assert_eq!(human_epoch_ms(Some(0)), "ещё нет данных");
    assert_eq!(human_epoch_ms(None), "ещё нет данных");
    assert_eq!(non_empty_path(""), None);
    assert_eq!(non_empty_path(" "), Some(" "));
}

#[test]
fn handoff_markdown_and_section_extraction() {
    assert_eq!(
        render_handoff_markdown("H", "N", "  "),
        "# Amai Continuity Handoff\n\n- headline: H\n- next_step: N\n"
    );
    assert_eq!(
        render_handoff_markdown("H", "N", " D "),
        "# Amai Continuity Handoff\n\n- headline: H\n- next_step: N\n\n## Details\n\nD\n"
    );
    let text = "intro\n## Line\ntext\n  -  first bullet \n- second\n";
    assert_eq!(extract_first_bullet_after(text, "## Line").as_deref(), Some("first bullet"));
    assert_eq!(extract_first_bullet_after(text, "## Missing"), None);
    let block = "- label:\n- a\nОбновление continuity\n- label:\n- b\n1. c\nnot a bullet\n- d\n";
    assert_eq!(extract_last_block_after_labels(block, &["- label:"]).as_deref(), Some("b | 1. c"));
    assert_eq!(extract_last_block_after_labels(block, &["- other:"]), None);
}

#[test]
fn answer_collapse_and_labels() {
    assert_eq!(collapse_answer_text("AGENTS.md прочитан\nline one\n\n  line   two ", 100), "line one line two");
    assert_eq!(collapse_answer_text("abcdef", 3), "abc...");
    for max in [0usize, 1, 5, 40] {
        assert!(collapse_answer_text("a long piece of text that will be cut", max).chars().count() <= max + 3);
    }
    assert_eq!(continuity_strategy_label("symbol_hits"), "совпадения по символам");
    assert_eq!(continuity_strategy_label("other"), "other");
    assert!(answer_mentions_temporal_match("x Смысловой срез времени: y"));
    assert!(!answer_mentions_temporal_match("nothing here"));
    assert!(looks_like_noisy_chat_label("Продолжай строго по плану"));
    assert!(looks_like_noisy_chat_label("abc"));
    assert!(looks_like_noisy_chat_label("what now?"));
    assert!(!looks_like_noisy_chat_label("Port the chunker"));
    assert_eq!(
        normalize_next_step_value("Ближайший обязательный следующий шаг: Nearest mandatory next step: run `check`|").as_deref(),
        Some("run `check")
    );
}

fn tail(title: &str, headline: Option<&str>, next: Option<&str>, slice: Option<ThreadTimeSliceSummary>) -> ChatTail {
    ChatTail {
        thread_id: "t1".to_string(),
        title: title.to_string(),
        summary_headline: headline.map(str::to_string),
        summary_next_step: next.map(str::to_string),
        selected_time_slice: slice,
        messages: vec![
            TranscriptMessage { role: "user".to_string(), text: "question".to_string() },
            TranscriptMessage { role: "assistant".to_string(), text: "Final answer text".to_string() },
        ],
    }
}

#[test]
fn chat_tail_summaries_prefer_the_time_slice() {
    let slice = ThreadTimeSliceSummary {
        started_at: "a".to_string(),
        ended_at: "b".to_string(),
        started_at_epoch_s: 1,
        ended_at_epoch_s: 2,
        user_anchor: "u".to_string(),
        assistant_anchor: "x".to_string(),
        summary_headline: " Slice headline ".to_string(),
        summary_next_step: "Slice step".to_string(),
    };
    let with_slice = tail("Thread title", Some("Thread headline"), Some("Thread step"), Some(slice));
    assert_eq!(summarize_chat_tail_headline(&with_slice).as_deref(), Some("Slice headline"));
    assert_eq!(extract_chat_tail_next_step(&with_slice).as_deref(), Some("Slice step"));
    let plain = tail("Thread title", Some(" Thread headline "), Some("Thread step"), None);
    assert_eq!(summarize_chat_tail_headline(&plain).as_deref(), Some("Thread headline"));
    assert_eq!(extract_chat_tail_next_step(&plain).as_deref(), Some("Thread step"));
    assert_eq!(select_chat_tail_label(&plain, "Other headline").as_deref(), Some("Thread title"));
    assert_eq!(select_chat_tail_label(&plain, "Thread title").as_deref(), Some("Thread headline"));
    let same = tail("Same label", Some("Same label"), None, None);
    assert_eq!(select_chat_tail_label(&same, " Same label "), None);
    let fragments = continuity_answer_expected_fragments(&plain);
    assert!(fragments.iter().any(|f| f == "Thread headline"));
    assert!(fragments.iter().all(|f| !f.trim().is_empty()));
}

#[test]
fn chunks_joined_give_back_every_line_with_its_newline() {
    let text = "first\r\nsecond line\n\nthird";
    for max in [0usize, 1, 7, 13, 100] {
        let chunks = build_chunks(max, text);
        let joined: String = chunks.iter().map(|c| c.content.as_str()).collect();
        assert_eq!(joined, "first\nsecond line\n\nthird\n");
        for pair in chunks.windows(2) {
            assert_eq!(pair[1].start_line, pair[0].end_line + 1);
            assert_eq!(pair[1].start_byte, pair[0].end_byte);
        }
        for c in &chunks {
            assert!(c.content.len() <= max || c.start_line == c.end_line);
        }
    }
}

#[test]
fn normalizing_a_runtime_command_twice_changes_nothing() {
    for command in ["  'amai'   continuity\tstartup ", "a\n'b' 'c'", "", "plain words"] {
        let once = normalize_compact_startup_runtime_command(command);
        assert_eq!(normalize_compact_startup_runtime_command(&once), once);
    }
}

#[test]
fn collapsed_answers_are_one_line() {
    for max in [0usize, 4, 100] {
        let text = collapse_answer_text("first\tline\r\nsecond\n\nthird  line", max);
        assert!(text.chars().all(|c| !c.is_whitespace() || c == ' '));
    }
}

#[test]
fn ascii_slugs_are_lower_case() {
    assert_eq!(slugify_repo_root("/Home/ART/Bug-Bounty"), "home-art-bug-bounty");
    assert_eq!(slugify_repo_root("AbC"), "abc");
}

#[test]
fn shell_quoted_words_read_back_in_a_shell_reader() {
    assert_eq!(shell_quote("a'b c"), "'a'\\''b c'");
    assert_eq!(shell_quote("''"), "''\\'''\\'''");
}

#[test]
fn slugging_an_ascii_slug_again_changes_nothing() {
    for value in ["/home/Art/Agent Memory", "--a..b__C--", "///", "X y_Z.9"] {
        let slug = slugify_repo_root(value);
        assert_eq!(slugify_repo_root(&slug), slug);
    }
}

#[test]
fn noisy_and_meta_rules_apply_to_lowered_text() {
    assert!(is_noisy_lowered_label("продолжай строго по плану"));
    assert!(is_noisy_lowered_label("# context from my ide setup: x"));
    assert!(!is_noisy_lowered_label("port the chunker"));
    assert!(looks_like_noisy_chat_label("  ПРОДОЛЖАЙ СТРОГО по плану "));
    assert!(is_meta_lowered_handoff("continuity restored", "", ""));
    assert!(is_meta_lowered_handoff("x", "ждать указание пользователя", ""));
    assert!(!is_meta_lowered_handoff("Continuity restored", "", ""));
    assert!(is_meta_continuity_handoff("Continuity Restored for project", "", ""));
    assert!(is_meta_continuity_handoff("x", "", "Пользователь спросил, на чём остановились"));
}
