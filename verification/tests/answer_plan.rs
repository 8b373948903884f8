use amai_continuity::answer_payload::blocked_answer_reply_text;
use amai_continuity::answer_plan::{plan_continuity_answer, ChatLookup, ParsedQuestion};
use amai_continuity::json::{Json, ObjectBuilder};

fn question(intent: &str, messages_count: usize, reference: Option<&str>, at: Option<&str>, show: bool) -> ParsedQuestion {
    ParsedQuestion {
        intent: intent.to_string(),
        messages_count,
        chat_reference: reference.map(str::to_string),
        at_time_rfc3339: at.map(str::to_string),
        include_chat_messages: show,
    }
}

#[test]
fn plain_last_chat_question_looks_up_no_chat() {
    let plan = plan_continuity_answer("last_chat", 2, None, None, false, None);
    assert_eq!(plan.intent, "last_chat");
    assert_eq!(plan.messages_count, 2);
    assert!(matches!(plan.lookup, ChatLookup::Skip));
    assert_eq!(plan.previous_chat_offset, 1);
}

#[test]
fn parsed_question_fills_in_what_was_not_asked() {
    let parsed = question("last_chat", 5, Some("previous:3"), None, true);
    let plan = plan_continuity_answer("last_chat", 2, None, None, false, Some(&parsed));
    assert_eq!(plan.intent, "previous_chat");
    assert_eq!(plan.messages_count, 5);
    assert_eq!(plan.chat_reference.as_deref(), Some("previous:3"));
    assert!(plan.include_chat_messages);
    assert!(matches!(plan.lookup, ChatLookup::Previous(3)));
    assert_eq!(plan.previous_chat_offset, 3);
}

#[test]
fn asked_values_stand_over_the_parsed_question() {
    let parsed = question("previous_chat", 7, Some("previous:4"), Some("2026-01-01T00:00:00Z"), false);
    let plan = plan_continuity_answer("last_chat", 3, Some("current"), None, false, Some(&parsed));
    assert_eq!(plan.messages_count, 3);
    assert_eq!(plan.chat_reference.as_deref(), Some("current"));
    assert_eq!(plan.at_time_rfc3339.as_deref(), Some("2026-01-01T00:00:00Z"));
    assert_eq!(plan.intent, "previous_chat");
    match plan.lookup {
        ChatLookup::AtTime(t) => assert_eq!(t, "2026-01-01T00:00:00Z"),
        _ => panic!("expected a lookup at the moment"),
    }
    assert_eq!(plan.previous_chat_offset, 1);
}

#[test]
fn a_moment_turns_last_chat_into_chat_at_time() {
    let plan = plan_continuity_answer("last_chat", 2, None, Some("2026-03-19T12:00:00+03:00"), false, None);
    assert_eq!(plan.intent, "chat_at_time");
    assert!(matches!(plan.lookup, ChatLookup::AtTime(_)));
}

#[test]
fn blocked_reply_is_the_template_or_the_default() {
    let mut contract = ObjectBuilder::new();
    contract.push("template", Json::Str("  Сначала сожми чат.".to_string()));
    let mut gate = ObjectBuilder::new();
    gate.push("blocking_reply_contract", contract.build());
    let mut guard = ObjectBuilder::new();
    guard.push("reply_execution_gate", gate.build());
    let guard = guard.build();
    assert_eq!(blocked_answer_reply_text(&guard, "default"), "  Сначала сожми чат.");
    assert_eq!(blocked_answer_reply_text(&Json::Null, "default"), "default");
}
