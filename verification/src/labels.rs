//! Human- and prompt-facing renderings of optional values: missing or blank values
//! are shown as an explicit placeholder instead of being dropped.
use vstd::prelude::*;
use crate::text::{
    chars_of, decimal, decimal_chars, non_empty_trimmed, push_all, push_str, starts_with,
    string_of, trim, trim_str, u64_to_string,
};

verus! {

/// Placeholder shown to humans where a value is missing.
pub open spec fn no_data() -> Seq<char> {
    "ещё нет данных"@
}

/// The trimmed text of an optional string, when there is any.
pub open spec fn opt_text(value: Option<&str>) -> Option<Seq<char>> {
    match value {
        Some(v) => non_empty_trimmed(v@),
        None => None,
    }
}

/// The text of `o`, or `d` when there is none.
pub open spec fn text_or(o: Option<Seq<char>>, d: Seq<char>) -> Seq<char> {
    match o {
        Some(t) => t,
        None => d,
    }
}

/// A count, or `n/a` when it is unknown.
pub fn format_optional_u64_for_human(value: Option<u64>) -> (r: String)
    ensures
        r@ == (match value {
            Some(n) => decimal(n as nat),
            None => "n/a"@,
        }),
{
    match value {
        Some(n) => u64_to_string(n),
        None => "n/a".to_string(),
    }
}

/// A count, or `?` when it is unknown.
pub fn format_optional_u64_for_prompt(value: Option<u64>) -> (r: String)
    ensures
        r@ == (match value {
            Some(n) => decimal(n as nat),
            None => "?"@,
        }),
{
    match value {
        Some(n) => u64_to_string(n),
        None => "?".to_string(),
    }
}

/// The trimmed value, or nothing when it is missing or blank.
pub fn optional_non_empty_text(value: Option<&str>) -> (r: Option<&str>)
    ensures
        r is Some <==> opt_text(value) is Some,
        r matches Some(t) ==> opt_text(value) == Some(t@),
{
    match value {
        Some(v) => {
            let t = trim_str(v);
            if t.unicode_len() == 0 {
                None
            } else {
                Some(t)
            }
        },
        None => None,
    }
}

/// The trimmed value as an owned string, or `fallback` when it is missing or blank.
pub fn text_or_default(value: Option<&str>, fallback: &str) -> (r: String)
    ensures
        r@ == text_or(opt_text(value), fallback@),
{
    match optional_non_empty_text(value) {
        Some(t) => t.to_string(),
        None => fallback.to_string(),
    }
}

/// The trimmed value, or the missing-data placeholder.
pub fn format_optional_text_for_human(value: Option<&str>) -> (r: String)
    ensures
        r@ == text_or(opt_text(value), no_data()),
{
    text_or_default(value, "ещё нет данных")
}

/// The trimmed value, or `?`.
pub fn format_optional_text_for_prompt(value: Option<&str>) -> (r: String)
    ensures
        r@ == text_or(opt_text(value), "?"@),
{
    text_or_default(value, "?")
}

/// The trimmed reply prefix, or the missing-data placeholder.
pub fn format_reply_prefix_for_human(reply_prefix: Option<&str>) -> (r: String)
    ensures
        r@ == text_or(opt_text(reply_prefix), no_data()),
{
    text_or_default(reply_prefix, "ещё нет данных")
}

/// The trimmed prompt text, or the missing-data placeholder.
pub fn format_compact_restore_prompt_text(prompt_text: Option<&str>) -> (r: &str)
    ensures
        r@ == text_or(opt_text(prompt_text), no_data()),
{
    match optional_non_empty_text(prompt_text) {
        Some(t) => t,
        None => "ещё нет данных",
    }
}

/// `Startup surface: <path> (<mode>)`, the mode shown as the placeholder when missing.
pub fn format_startup_surface_label(path: &str, mode: Option<&str>) -> (r: String)
    ensures
        r@ == "Startup surface: "@ + path@ + " ("@ + text_or(opt_text(mode), no_data()) + ")"@,
{
    let mode_text = format_compact_restore_prompt_text(mode);
    let mut out: Vec<char> = Vec::new();
    push_str(&mut out, "Startup surface: ");
    push_str(&mut out, path);
    push_str(&mut out, " (");
    push_str(&mut out, mode_text);
    push_str(&mut out, ")");
    string_of(out.as_slice())
}

/// `<display name> (<code>)`, each shown as the placeholder when missing.
pub fn format_project_scope_for_human(display_name: Option<&str>, code: Option<&str>) -> (r:
    String)
    ensures
        r@ == text_or(opt_text(display_name), no_data()) + " ("@ + text_or(opt_text(code), no_data())
            + ")"@,
{
    let name = format_optional_text_for_human(display_name);
    let code_text = format_optional_text_for_human(code);
    let mut out: Vec<char> = Vec::new();
    push_str(&mut out, name.as_str());
    push_str(&mut out, " (");
    push_str(&mut out, code_text.as_str());
    push_str(&mut out, ")");
    string_of(out.as_slice())
}

/// A restore value carries information: it is not blank and not one of the two
/// placeholders that stand for "nothing known".
pub open spec fn meaningful(value: Seq<char>) -> bool {
    let t = trim(value);
    t.len() > 0 && t != no_data() && t != "Продолжить активную рабочую линию"@
}

pub fn is_meaningful_restore_value(value: &str) -> (b: bool)
    ensures
        b == meaningful(value@),
{
    let t = trim_str(value);
    let tv = chars_of(t);
    let a = chars_of("ещё нет данных");
    let c = chars_of("Продолжить активную рабочую линию");
    let same_a = tv.len() == a.len() && starts_with(tv.as_slice(), a.as_slice());
    let same_c = tv.len() == c.len() && starts_with(tv.as_slice(), c.as_slice());
    proof {
        if tv@.len() == a@.len() {
            assert(tv@.subrange(0, a@.len() as int) =~= tv@);
        }
        if tv@.len() == c@.len() {
            assert(tv@.subrange(0, c@.len() as int) =~= tv@);
        }
    }
    tv.len() > 0 && !same_a && !same_c
}

/// `epoch <seconds>` for a positive epoch in milliseconds, else the placeholder.
pub fn human_epoch_ms(value: Option<u64>) -> (r: String)
    ensures
        r@ == (match value {
            Some(v) if v > 0 => "epoch "@ + decimal((v / 1000) as nat),
            _ => no_data(),
        }),
{
    match value {
        Some(v) if v > 0 => {
            let mut out: Vec<char> = Vec::new();
            push_str(&mut out, "epoch ");
            let d = decimal_chars(v / 1000);
            push_all(&mut out, d.as_slice());
            string_of(out.as_slice())
        },
        _ => "ещё нет данных".to_string(),
    }
}

/// The path, unless it is empty.
pub fn non_empty_path(value: &str) -> (r: Option<&str>)
    ensures
        r is Some <==> value@.len() > 0,
        r matches Some(p) ==> p@ == value@,
{
    if value.unicode_len() == 0 {
        None
    } else {
        Some(value)
    }
}

} // verus!
