//! Planning a continuity answer: what was asked, merged with what the question was
//! read as, and which chat has to be looked up for it.
use vstd::prelude::*;
use crate::answer::{answer_intent, chat_reference, opt_string, opt_view, parse_chat_reference_spec, resolve_answer_intent};
use crate::text::str_eq;

verus! {

/// What a free-form question was read as.
pub struct ParsedQuestion {
    pub intent: String,
    pub messages_count: usize,
    pub chat_reference: Option<String>,
    pub at_time_rfc3339: Option<String>,
    pub include_chat_messages: bool,
}

/// Which chat an answer is looked up in.
pub enum ChatLookup {
    /// No chat is looked up.
    Skip,
    /// The chat at this moment.
    AtTime(String),
    /// The chat this many chats back.
    Previous(usize),
    /// The current chat.
    Current,
}

/// The plan of a continuity answer.
pub struct AnswerPlan {
    pub intent: String,
    pub messages_count: usize,
    pub chat_reference: Option<String>,
    pub at_time_rfc3339: Option<String>,
    pub include_chat_messages: bool,
    pub lookup: ChatLookup,
    pub previous_chat_offset: usize,
}

/// The first of two optional texts that is there.
pub open spec fn either(a: Option<Seq<char>>, b: Option<Seq<char>>) -> Option<Seq<char>> {
    match a {
        Some(x) => Some(x),
        None => b,
    }
}

/// The parsed chat reference, `current` one back when there is none.
pub open spec fn reference_of(r: Option<Seq<char>>) -> (Seq<char>, nat) {
    match r {
        Some(t) => chat_reference(t),
        None => ("current"@, 1),
    }
}

/// Whether the answer needs a chat looked up.
pub open spec fn wants_lookup(show_messages: bool, at: Option<Seq<char>>, reference: Option<Seq<char>>, intent: Seq<char>) -> bool {
    show_messages || at is Some || reference is Some || intent == "previous_chat"@ || intent == "chat_at_time"@
}

/// The kind and offset of the chat to look up when no moment is given.
pub open spec fn lookup_reference(reference: Option<Seq<char>>, intent: Seq<char>) -> (Seq<char>, nat) {
    if reference is Some {
        reference_of(reference)
    } else if intent == "previous_chat"@ {
        ("previous"@, 1)
    } else {
        ("current"@, 1)
    }
}

/// The plan's lookup, as a kind (`skip`, `at_time`, `previous` or `current`), a moment and
/// an offset.
pub open spec fn lookup_view(l: ChatLookup) -> (Seq<char>, Option<Seq<char>>, nat) {
    match l {
        ChatLookup::Skip => ("skip"@, None, 0),
        ChatLookup::AtTime(t) => ("at_time"@, Some(t@), 0),
        ChatLookup::Previous(n) => ("previous"@, None, n as nat),
        ChatLookup::Current => ("current"@, None, 0),
    }
}

/// The lookup an answer plans: none when no chat is wanted, the moment when one is
/// given, else the referenced (or implied) previous or current chat.
pub open spec fn planned_lookup(
    show_messages: bool,
    at: Option<Seq<char>>,
    reference: Option<Seq<char>>,
    intent: Seq<char>,
) -> (Seq<char>, Option<Seq<char>>, nat) {
    if !wants_lookup(show_messages, at, reference, intent) {
        ("skip"@, None, 0)
    } else {
        match at {
            Some(t) => ("at_time"@, Some(t), 0),
            None => {
                let (kind, n) = lookup_reference(reference, intent);
                if kind == "previous"@ {
                    ("previous"@, None, n)
                } else if kind == "current"@ {
                    ("current"@, None, 0)
                } else {
                    ("skip"@, None, 0)
                }
            },
        }
    }
}

/// A law of answer planning: with no chat reference and no moment, a question about the
/// previous chat looks up the chat one back, and any other question that wants a chat
/// looks up the current one; with a moment, the chat at that moment is looked up.
pub proof fn lemma_planned_lookup_without_reference(show_messages: bool, at: Option<Seq<char>>, intent: Seq<char>)
    ensures
        at is None && intent == "previous_chat"@ ==> planned_lookup(show_messages, at, None, intent) == (
            "previous"@,
            None::<Seq<char>>,
            1nat,
        ),
        at is None && intent != "previous_chat"@ && (show_messages || intent == "chat_at_time"@) ==> planned_lookup(
            show_messages,
            at,
            None,
            intent,
        ) == ("current"@, None::<Seq<char>>, 0nat),
        at matches Some(t) ==> planned_lookup(show_messages, at, None, intent) == ("at_time"@, Some(t), 0nat),
{
    reveal_strlit("previous");
    reveal_strlit("current");
    assert("previous"@.len() == 8 && "current"@.len() == 7);
}

/// Plans a continuity answer. The arguments are what was asked: the intent, the number
/// of messages to show (2 unless set), the chat reference, the moment, and whether to
/// show messages; `parsed` is what the free-form question was read as, when there was
/// one. What was asked stands; the parsed question fills in what was not.
pub fn plan_continuity_answer(
    requested_intent: &str,
    messages_count: usize,
    chat_reference_arg: Option<&str>,
    at_time_rfc3339: Option<&str>,
    include_chat_messages: bool,
    parsed: Option<&ParsedQuestion>,
) -> (r: AnswerPlan)
    ensures
        ({
            let p_ref = match parsed {
                Some(p) => opt_string(p.chat_reference),
                None => None,
            };
            let p_at = match parsed {
                Some(p) => opt_string(p.at_time_rfc3339),
                None => None,
            };
            let reference = either(opt_view(chat_reference_arg), p_ref);
            let at = either(opt_view(at_time_rfc3339), p_at);
            let (kind, offset) = reference_of(reference);
            let intent = answer_intent(
                requested_intent@,
                match parsed {
                    Some(p) => Some(p.intent@),
                    None => None,
                },
                Some(kind),
                at is Some,
            );
            let show_messages = include_chat_messages || match parsed {
                Some(p) => p.include_chat_messages,
                None => false,
            };
            &&& r.intent@ == intent
            &&& r.messages_count == if messages_count != 2 {
                messages_count
            } else {
                match parsed {
                    Some(p) => p.messages_count,
                    None => messages_count,
                }
            }
            &&& opt_string(r.chat_reference) == reference
            &&& opt_string(r.at_time_rfc3339) == at
            &&& r.include_chat_messages == show_messages
            &&& lookup_view(r.lookup) == planned_lookup(show_messages, at, reference, intent)
            &&& (reference is None && at is None && intent == "previous_chat"@ ==> (r.lookup matches ChatLookup::Previous(
                n,
            ) && n == 1))
            &&& r.previous_chat_offset as nat == if wants_lookup(show_messages, at, reference, intent) && kind
                == "previous"@ {
                offset
            } else {
                1
            }
        }),
{
    let count = if messages_count != 2 {
        messages_count
    } else {
        match parsed {
            Some(p) => p.messages_count,
            None => messages_count,
        }
    };
    let reference: Option<String> = match chat_reference_arg {
        Some(c) => Some(c.to_string()),
        None => match parsed {
            Some(p) => match &p.chat_reference {
                Some(c) => Some(c.clone()),
                None => None,
            },
            None => None,
        },
    };
    let at: Option<String> = match at_time_rfc3339 {
        Some(t) => Some(t.to_string()),
        None => match parsed {
            Some(p) => match &p.at_time_rfc3339 {
                Some(t) => Some(t.clone()),
                None => None,
            },
            None => None,
        },
    };
    let (kind, offset) = match &reference {
        Some(r) => parse_chat_reference_spec(r.as_str()),
        None => ("current", 1usize),
    };
    let parsed_intent = match parsed {
        Some(p) => Some(p.intent.as_str()),
        None => None,
    };
    let intent = resolve_answer_intent(requested_intent, parsed_intent, Some(kind), at.is_some());
    let show_messages = include_chat_messages || match parsed {
        Some(p) => p.include_chat_messages,
        None => false,
    };
    let wants = show_messages || at.is_some() || reference.is_some() || str_eq(intent.as_str(), "previous_chat") || str_eq(
        intent.as_str(),
        "chat_at_time",
    );
    let lookup = if !wants {
        ChatLookup::Skip
    } else {
        match &at {
            Some(t) => ChatLookup::AtTime(t.clone()),
            None => {
                let (k, n) = if reference.is_some() {
                    (kind, offset)
                } else if str_eq(intent.as_str(), "previous_chat") {
                    ("previous", 1usize)
                } else {
                    ("current", 1usize)
                };
                if str_eq(k, "previous") {
                    ChatLookup::Previous(n)
                } else if str_eq(k, "current") {
                    ChatLookup::Current
                } else {
                    ChatLookup::Skip
                }
            },
        }
    };
    let previous_offset = if wants && str_eq(kind, "previous") {
        offset
    } else {
        1
    };
    AnswerPlan {
        intent,
        messages_count: count,
        chat_reference: reference,
        at_time_rfc3339: at,
        include_chat_messages: show_messages,
        lookup,
        previous_chat_offset: previous_offset,
    }
}

} // verus!
