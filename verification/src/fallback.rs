//! The manual fallback of compact chat: the steps and the note shown when no command can
//! open a clean work surface by itself.
use vstd::prelude::*;
use crate::json::{as_text, field, get_text, Json, JsonView};
use crate::labels::text_or;
use crate::surface::{client_key, display_name};
use crate::text::{push_str, str_eq, string_of};

verus! {

/// The client's own hint for opening a fresh surface: the delivery-surface summary, else
/// the fresh-chat summary.
pub open spec fn assist_summary(cs: JsonView) -> Option<Seq<char>> {
    match as_text(field(cs, "delivery_surface_assist_summary"@)) {
        Some(t) => Some(t),
        None => as_text(field(cs, "fresh_chat_assist_summary"@)),
    }
}

/// The first steps: Codex's own commands, or a generic instruction naming the client.
pub open spec fn opening_steps(cs: JsonView) -> Seq<Seq<char>> {
    if client_key(cs) == "codex"@ {
        seq![
            "Codex: New Thread in Codex Sidebar (chatgpt.newChat)"@,
            "URI: command:chatgpt.newChat"@,
            "Codex: New Codex Agent (chatgpt.newCodexPanel)"@,
            "URI: command:chatgpt.newCodexPanel"@,
        ]
    } else {
        seq![
            "Открой новую чистую рабочую поверхность в "@ + display_name(cs)
                + " и используй prompt_text как единственный startup prompt."@,
        ]
    }
}

/// The manual steps for a client surface.
pub open spec fn manual_fallback_steps(cs: JsonView) -> Seq<Seq<char>> {
    let with_path = match as_text(field(cs, "startup_instruction_path"@)) {
        Some(p) => opening_steps(cs).push(
            "Startup surface: "@ + p + " ("@ + text_or(
                as_text(field(cs, "startup_instruction_mode"@)),
                "unknown"@,
            ) + ")"@,
        ),
        None => opening_steps(cs),
    };
    match assist_summary(cs) {
        Some(t) => with_path.push(t),
        None => with_path,
    }
}

pub open spec fn fallback_note_head(name: Seq<char>) -> Seq<char> {
    "Чтобы реально уменьшить burn giant thread/context, host/client должен продолжить работу на новой чистой рабочей поверхности в "@
        + name
        + " и использовать prompt_text как единственный startup prompt, если automatic launch bridge недоступен. Closest same-thread host control surface тоже известен, но он не равен переносу на отдельную clean surface."@
}

/// The manual note for a client surface.
pub open spec fn manual_fallback_note(cs: JsonView) -> Seq<char> {
    match assist_summary(cs) {
        Some(t) => fallback_note_head(display_name(cs)) + " "@ + t,
        None => fallback_note_head(display_name(cs)),
    }
}

fn assist_summary_exec<'a>(client_surface: &'a Json) -> (r: Option<&'a str>)
    ensures
        match r {
            Some(t) => assist_summary(client_surface@) == Some(t@),
            None => assist_summary(client_surface@) is None,
        },
{
    match get_text(client_surface, "delivery_surface_assist_summary") {
        Some(t) => Some(t),
        None => get_text(client_surface, "fresh_chat_assist_summary"),
    }
}

fn text_of(s: &str) -> (r: String)
    ensures
        r@ == s@,
{
    s.to_string()
}

/// The manual steps that open a clean surface for the client, its startup instruction and
/// its own hint, as far as the surface gives them.
pub fn compact_chat_manual_fallback_steps(client_surface: &Json) -> (steps: Vec<String>)
    ensures
        steps@.map_values(|x: String| x@) == manual_fallback_steps(client_surface@),
{
    let ghost cs = client_surface@;
    let key = match get_text(client_surface, "client_key") {
        Some(k) => k,
        None => "unknown",
    };
    let name = match get_text(client_surface, "display_name") {
        Some(n) => n,
        None => "Unknown client",
    };
    let mut steps: Vec<String> = Vec::new();
    if str_eq(key, "codex") {
        steps.push(text_of("Codex: New Thread in Codex Sidebar (chatgpt.newChat)"));
        steps.push(text_of("URI: command:chatgpt.newChat"));
        steps.push(text_of("Codex: New Codex Agent (chatgpt.newCodexPanel)"));
        steps.push(text_of("URI: command:chatgpt.newCodexPanel"));
    } else {
        let mut out: Vec<char> = Vec::new();
        push_str(&mut out, "Открой новую чистую рабочую поверхность в ");
        push_str(&mut out, name);
        push_str(&mut out, " и используй prompt_text как единственный startup prompt.");
        steps.push(string_of(out.as_slice()));
    }
    assert(steps@.map_values(|x: String| x@) =~= opening_steps(cs));
    let ghost base = steps@.map_values(|x: String| x@);
    let ghost with_path = match as_text(field(cs, "startup_instruction_path"@)) {
        Some(p) => opening_steps(cs).push(
            "Startup surface: "@ + p + " ("@ + text_or(
                as_text(field(cs, "startup_instruction_mode"@)),
                "unknown"@,
            ) + ")"@,
        ),
        None => opening_steps(cs),
    };
    match get_text(client_surface, "startup_instruction_path") {
        Some(path) => {
            let mode = match get_text(client_surface, "startup_instruction_mode") {
                Some(m) => m,
                None => "unknown",
            };
            let mut out: Vec<char> = Vec::new();
            push_str(&mut out, "Startup surface: ");
            push_str(&mut out, path);
            push_str(&mut out, " (");
            push_str(&mut out, mode);
            push_str(&mut out, ")");
            let line = string_of(out.as_slice());
            steps.push(line);
            assert(steps@.map_values(|x: String| x@) =~= base.push(line@));
        },
        None => {},
    }
    assert(steps@.map_values(|x: String| x@) == with_path);
    let ghost mid = steps@.map_values(|x: String| x@);
    match assist_summary_exec(client_surface) {
        Some(summary) => {
            let line = text_of(summary);
            steps.push(line);
            assert(steps@.map_values(|x: String| x@) =~= mid.push(line@));
        },
        None => {},
    }
    steps
}

/// The note that tells the host to continue on a clean surface with the prompt text,
/// followed by the client's own hint when it has one.
pub fn compact_chat_manual_fallback_note(client_surface: &Json) -> (note: String)
    ensures
        note@ == manual_fallback_note(client_surface@),
{
    let name = match get_text(client_surface, "display_name") {
        Some(n) => n,
        None => "Unknown client",
    };
    let mut out: Vec<char> = Vec::new();
    push_str(
        &mut out,
        "Чтобы реально уменьшить burn giant thread/context, host/client должен продолжить работу на новой чистой рабочей поверхности в ",
    );
    push_str(&mut out, name);
    push_str(
        &mut out,
        " и использовать prompt_text как единственный startup prompt, если automatic launch bridge недоступен. Closest same-thread host control surface тоже известен, но он не равен переносу на отдельную clean surface.",
    );
    match assist_summary_exec(client_surface) {
        Some(summary) => {
            push_str(&mut out, " ");
            push_str(&mut out, summary);
        },
        None => {},
    }
    string_of(out.as_slice())
}

} // verus!
