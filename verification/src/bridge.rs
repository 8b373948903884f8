//! What the workspace says about the VS Code bridge and the switches that the
//! environment sets: the decisions that are taken on what was read.
use vstd::prelude::*;
use crate::json::{as_bool, as_str, as_text, field, get, get_bool, get_str, get_text, Json, JsonView};
use crate::text::{chars_of, decimal, has_prefix, str_eq, str_starts_with, trim, trim_str};

verus! {

/// The URI authority of the Amai VS Code bridge.
pub open spec fn bridge_authority() -> Seq<char> {
    "amai.amai-vscode-bridge"@
}

/// The bridge version that the workspace ships: the trimmed `version` of its package
/// manifest, when there is one.
pub fn expected_bridge_version_from_package(package: &Json) -> (r: Option<String>)
    ensures
        crate::answer::opt_string(r) == as_text(field(package@, "version"@)),
{
    match get_text(package, "version") {
        Some(t) => Some(t.to_string()),
        None => None,
    }
}

/// `value[key] == n` for an integer `n`.
pub open spec fn is_number(v: JsonView, n: int) -> bool {
    v == JsonView::Number(n)
}

/// Whether the recorded live state of the public bridge shows a verified launch of the
/// expected bridge version, with the bridge's tab cleaned up afterwards.
pub open spec fn bridge_live_verified(live_state: JsonView, expected_version: Seq<char>) -> bool {
    let bridge = field(live_state, "public_bridge"@);
    let cleanup = field(live_state, "ui_cleanup"@);
    &&& as_str(field(live_state, "status"@)) == Some("live_launch_verified"@)
    &&& as_str(field(bridge, "authority"@)) == Some(bridge_authority())
    &&& as_str(field(bridge, "version"@)) == Some(expected_version)
    &&& as_bool(field(cleanup, "success"@)) == Some(true)
    &&& as_bool(field(cleanup, "uri_cleanup_requested"@)) == Some(true)
    &&& is_number(field(cleanup, "matching_tabs_after"@), 0)
    &&& as_bool(field(cleanup, "active_editor_matches_bridge_uri_after"@)) == Some(false)
}

fn str_is(v: &Json, key: &str, expected: &str) -> (b: bool)
    ensures
        b == (as_str(field(v@, key@)) == Some(expected@)),
{
    match get_str(v, key) {
        Some(t) => str_eq(t, expected),
        None => false,
    }
}

fn field_ref<'a>(v: &'a Json, key: &str) -> (r: &'a Json)
    ensures
        r@ == field(v@, key@),
{
    match get(v, key) {
        Some(x) => x,
        None => &Json::Null,
    }
}

/// Whether the live state recorded by the public bridge verifies it for
/// `expected_version`, the version the workspace ships.
pub fn public_bridge_live_verified(live_state: &Json, expected_version: &str) -> (b: bool)
    ensures
        b == bridge_live_verified(live_state@, expected_version@),
{
    let bridge = field_ref(live_state, "public_bridge");
    let cleanup = field_ref(live_state, "ui_cleanup");
    let tabs_zero = match get(cleanup, "matching_tabs_after") {
        Some(Json::Number(n)) => *n == 0,
        _ => false,
    };
    str_is(live_state, "status", "live_launch_verified") && str_is(bridge, "authority", "amai.amai-vscode-bridge")
        && str_is(bridge, "version", expected_version) && get_bool(cleanup, "success") == Some(true)
        && get_bool(cleanup, "uri_cleanup_requested") == Some(true) && tabs_zero && get_bool(
        cleanup,
        "active_editor_matches_bridge_uri_after",
    ) == Some(false)
}

/// Whether an installed VS Code extension directory holds the Amai bridge.
pub fn is_amai_bridge_extension_dir(name: &str) -> (b: bool)
    ensures
        b == has_prefix(name@, "amai.amai-vscode-bridge-"@),
{
    str_starts_with(name, "amai.amai-vscode-bridge-")
}

/// Whether two characters are the same letter when ASCII case is ignored.
pub open spec fn ci_char_eq(a: char, b: char) -> bool {
    ||| a == b
    ||| 'A' <= a <= 'Z' && (a as u32) + 32 == (b as u32)
    ||| 'A' <= b <= 'Z' && (b as u32) + 32 == (a as u32)
}

/// Whether `s` reads as `w` when ASCII letters are compared without case.
pub open spec fn ascii_ci_eq(s: Seq<char>, w: Seq<char>) -> bool {
    s.len() == w.len() && forall|k: int| 0 <= k < s.len() ==> #[trigger] ci_char_eq(s[k], w[k])
}

/// Whether the profiling switch, as read from the environment, is on: set, and neither
/// blank, `0` nor `false` in any case.
pub open spec fn profile_switch_on(value: Option<Seq<char>>) -> bool {
    match value {
        Some(v) => {
            let t = trim(v);
            t.len() > 0 && t != "0"@ && !ascii_ci_eq(t, "false"@)
        },
        None => false,
    }
}

fn ci_char_eq_exec(a: char, b: char) -> (r: bool)
    ensures
        r == ci_char_eq(a, b),
{
    let x: u32 = a as u32;
    let y: u32 = b as u32;
    a == b || ('A' <= a && a <= 'Z' && x + 32 == y) || ('A' <= b && b <= 'Z' && y + 32 == x)
}

fn ascii_ci_eq_exec(s: &[char], w: &[char]) -> (b: bool)
    ensures
        b == ascii_ci_eq(s@, w@),
{
    if s.len() != w.len() {
        return false;
    }
    let mut k: usize = 0;
    while k < s.len()
        invariant
            s@.len() == w@.len(),
            k <= s@.len(),
            forall|j: int| 0 <= j < k ==> #[trigger] ci_char_eq(s@[j], w@[j]),
        decreases s@.len() - k,
    {
        if !ci_char_eq_exec(s[k], w[k]) {
            return false;
        }
        k = k + 1;
    }
    true
}

/// Whether continuity profiling is on, given the value of its switch in the environment.
pub fn continuity_profile_enabled_from(value: Option<&str>) -> (b: bool)
    ensures
        b == profile_switch_on(crate::answer::opt_view(value)),
{
    match value {
        Some(v) => {
            let t = trim_str(v);
            let tc = chars_of(t);
            let f = chars_of("false");
            tc.len() > 0 && !str_eq(t, "0") && !ascii_ci_eq_exec(tc.as_slice(), f.as_slice())
        },
        None => false,
    }
}

/// Why a clean-surface launch command failed: its exit status (or that a signal ended
/// it) and what it wrote to standard error, trimmed, when it wrote anything.
pub open spec fn launch_failure_text(exit_code: Option<i32>, stderr: Seq<char>) -> Seq<char> {
    let status = match exit_code {
        Some(c) => if c < 0 {
            "-"@ + decimal((-c) as nat)
        } else {
            decimal(c as nat)
        },
        None => "terminated-by-signal"@,
    };
    let base = "clean-surface launch command exited with status "@ + status;
    if trim(stderr).len() == 0 {
        base
    } else {
        base + ": "@ + trim(stderr)
    }
}

/// The error text of a clean-surface launch command that did not exit cleanly.
pub fn launch_command_failure_text(exit_code: Option<i32>, stderr: &str) -> (r: String)
    ensures
        r@ == launch_failure_text(exit_code, stderr@),
{
    let mut out: Vec<char> = Vec::new();
    crate::text::push_str(&mut out, "clean-surface launch command exited with status ");
    match exit_code {
        Some(c) => {
            if c < 0 {
                crate::text::push_str(&mut out, "-");
                let m: u64 = if c == i32::MIN {
                    2147483648u64
                } else {
                    (-c) as u64
                };
                let d = crate::text::decimal_chars(m);
                crate::text::push_all(&mut out, d.as_slice());
            } else {
                let d = crate::text::decimal_chars(c as u64);
                crate::text::push_all(&mut out, d.as_slice());
            }
        },
        None => crate::text::push_str(&mut out, "terminated-by-signal"),
    }
    let t = trim_str(stderr);
    if t.unicode_len() > 0 {
        crate::text::push_str(&mut out, ": ");
        crate::text::push_str(&mut out, t);
    }
    proof {
        assert(out@ =~= launch_failure_text(exit_code, stderr@));
    }
    crate::text::string_of(out.as_slice())
}

} // verus!
