//! What a compact-chat payload records about launching a clean work surface: whether the
//! launch was asked for, whether a command exists and policy allows it, and how the run
//! of that command ended. Running the command itself is the caller's part.
use vstd::prelude::*;
use crate::json::{
    as_text, field, get, get_cloned, get_text, lemma_with_field_reads, opt_str_json, set_field2,
    set_field3, settable, str_json, with_field, with_field2, with_field3, Json, JsonView,
    ObjectBuilder,
};
use crate::labels::{opt_text, text_or};
use crate::text::{str_eq, trim, trim_str};

verus! {

pub open spec fn compact_key() -> Seq<char> {
    "continuity_compact_chat"@
}

pub open spec fn notice_key() -> Seq<char> {
    "operator_notice"@
}

pub open spec fn host_launch_key() -> Seq<char> {
    "host_launch"@
}

/// The payload's compact-chat node.
pub open spec fn compact_node(p: JsonView) -> JsonView {
    field(p, compact_key())
}

/// The payload's operator notice.
pub open spec fn notice_node(p: JsonView) -> JsonView {
    field(compact_node(p), notice_key())
}

/// The payload can take the writes below without hitting a value that is neither an
/// object nor `null` on the way (where the writes would panic).
pub open spec fn launch_payload_ok(p: JsonView) -> bool {
    &&& settable(p)
    &&& settable(compact_node(p))
    &&& settable(notice_node(p))
}

/// `payload.continuity_compact_chat.host_launch = state`.
pub open spec fn with_host_launch(p: JsonView, state: JsonView) -> JsonView {
    with_field2(p, compact_key(), host_launch_key(), state)
}

/// `payload.continuity_compact_chat.operator_notice[key] = v`.
pub open spec fn with_notice(p: JsonView, key: Seq<char>, v: JsonView) -> JsonView {
    with_field3(p, compact_key(), notice_key(), key, v)
}

/// The recorded launch state.
pub open spec fn host_launch_state(
    status: Seq<char>,
    attempted: bool,
    mode: Option<Seq<char>>,
    reason: Option<Seq<char>>,
) -> JsonView {
    JsonView::Object(
        seq![
            ("attempted"@, JsonView::Bool(attempted)),
            ("status"@, JsonView::Str(status)),
            ("mode"@, crate::json::opt_str_view(mode)),
            ("reason"@, crate::json::opt_str_view(reason)),
        ],
    )
}

pub open spec fn manual_host_action() -> Seq<char> {
    "open_clean_chat_surface_and_inject_prompt_text_if_launch_bridge_unavailable"@
}

/// The three notice fields written after a launch that did not happen.
pub open spec fn with_manual_notice(p: JsonView, message: Seq<char>, note: Seq<char>) -> JsonView {
    with_notice(
        with_notice(
            with_notice(p, "message_text"@, JsonView::Str(message)),
            "required_host_action"@,
            JsonView::Str(manual_host_action()),
        ),
        "note"@,
        JsonView::Str(note),
    )
}

pub proof fn lemma_distinct_keys()
    ensures
        compact_key() != notice_key(),
        notice_key() != host_launch_key(),
        compact_key() != host_launch_key(),
{
    reveal_strlit("continuity_compact_chat");
    reveal_strlit("operator_notice");
    reveal_strlit("host_launch");
    assert(compact_key().len() != notice_key().len());
    assert(notice_key().len() != host_launch_key().len());
    assert(compact_key().len() != host_launch_key().len());
}

/// Writing the launch state keeps the payload writable.
proof fn lemma_host_launch_keeps_ok(p: JsonView, state: JsonView)
    requires
        launch_payload_ok(p),
    ensures
        launch_payload_ok(with_host_launch(p, state)),
        notice_node(with_host_launch(p, state)) == notice_node(p),
{
    lemma_distinct_keys();
    let c = compact_node(p);
    lemma_with_field_reads(c, host_launch_key(), state, notice_key());
    lemma_with_field_reads(p, compact_key(), with_field(c, host_launch_key(), state), compact_key());
}

/// Writing a notice field keeps the payload writable.
proof fn lemma_notice_keeps_ok(p: JsonView, key: Seq<char>, v: JsonView)
    requires
        launch_payload_ok(p),
    ensures
        launch_payload_ok(with_notice(p, key, v)),
{
    let c = compact_node(p);
    let n = notice_node(p);
    lemma_with_field_reads(n, key, v, key);
    lemma_with_field_reads(c, notice_key(), with_field(n, key, v), notice_key());
    lemma_with_field_reads(p, compact_key(), with_field2(c, notice_key(), key, v), compact_key());
}

/// An optional string's text.
pub open spec fn opt_seq(o: Option<&str>) -> Option<Seq<char>> {
    match o {
        Some(t) => Some(t@),
        None => None,
    }
}

fn host_launch_state_exec(
    status: &str,
    attempted: bool,
    mode: Option<&str>,
    reason: Option<&str>,
) -> (r: Json)
    ensures
        r@ == host_launch_state(status@, attempted, opt_seq(mode), opt_seq(reason)),
{
    let mut b = ObjectBuilder::new();
    b.push("attempted", Json::Bool(attempted));
    b.push("status", str_json(status));
    let m = opt_str_json(mode);
    assert(m@ == crate::json::opt_str_view(opt_seq(mode)));
    b.push("mode", m);
    let x = opt_str_json(reason);
    assert(x@ == crate::json::opt_str_view(opt_seq(reason)));
    b.push("reason", x);
    assert(b.view_entries() =~= seq![
        ("attempted"@, JsonView::Bool(attempted)),
        ("status"@, JsonView::Str(status@)),
        ("mode"@, crate::json::opt_str_view(opt_seq(mode))),
        ("reason"@, crate::json::opt_str_view(opt_seq(reason))),
    ]);
    b.build()
}

fn write_notice(payload: &mut Json, key: &str, v: Json)
    requires
        launch_payload_ok(old(payload)@),
    ensures
        final(payload)@ == with_notice(old(payload)@, key@, v@),
        launch_payload_ok(final(payload)@),
{
    proof {
        lemma_notice_keeps_ok(payload@, key@, v@);
    }
    set_field3(payload, "continuity_compact_chat", "operator_notice", key, v);
}

fn write_host_launch(payload: &mut Json, state: Json)
    requires
        launch_payload_ok(old(payload)@),
    ensures
        final(payload)@ == with_host_launch(old(payload)@, state@),
        launch_payload_ok(final(payload)@),
        notice_node(final(payload)@) == notice_node(old(payload)@),
{
    proof {
        lemma_host_launch_keeps_ok(payload@, state@);
    }
    set_field2(payload, "continuity_compact_chat", "host_launch", state);
}

fn write_manual_notice(payload: &mut Json, message: &str, note: &str)
    requires
        launch_payload_ok(old(payload)@),
    ensures
        final(payload)@ == with_manual_notice(old(payload)@, message@, note@),
        launch_payload_ok(final(payload)@),
{
    write_notice(payload, "message_text", str_json(message));
    write_notice(
        payload,
        "required_host_action",
        str_json("open_clean_chat_surface_and_inject_prompt_text_if_launch_bridge_unavailable"),
    );
    write_notice(payload, "note", str_json(note));
}

pub open spec fn completion_note(fallback_used: bool) -> Seq<char> {
    if fallback_used {
        "Clean context surface запрошена через fallback reuse-window. Проверь, что это действительно новая чистая рабочая поверхность; если нет, открой её вручную и используй prompt_text."@
    } else {
        "Clean context surface запрошена через VS Code `code chat`, но bounded proof пока подтверждает только exit-zero launch command. Проверь, что действительно открылась новая чистая рабочая поверхность и что startup restore дошёл туда; если нет, открой её вручную и используй prompt_text."@
    }
}

/// The launch state after the command ran: requested, with the command that ran.
pub open spec fn completion_state(p: JsonView, mode: Seq<char>, fallback_used: bool) -> JsonView {
    JsonView::Object(
        seq![
            ("attempted"@, JsonView::Bool(true)),
            ("status"@, JsonView::Str("requested"@)),
            ("mode"@, JsonView::Str(mode)),
            ("fallback_used"@, JsonView::Bool(fallback_used)),
            ("launch_clean_chat_command"@, field(notice_node(p), "launch_clean_chat_command"@)),
        ],
    )
}

/// The notice once the clean surface has been requested and the startup restore handed
/// over to it.
pub open spec fn completed_launch_message() -> Seq<char> {
    "Новая чистая рабочая поверхность запрошена автоматически; startup restore уже передан в новую рабочую поверхность."@
}

/// The payload after a clean launch: the launch state recorded, the notice saying the
/// surface was requested, no manual host action left, and the note on what to check.
pub open spec fn after_completion(p: JsonView, mode: Seq<char>, fallback_used: bool) -> JsonView {
    with_notice(
        with_notice(
            with_notice(
                with_host_launch(p, completion_state(p, mode, fallback_used)),
                "message_text"@,
                JsonView::Str(completed_launch_message()),
            ),
            "required_host_action"@,
            JsonView::Null,
        ),
        "note"@,
        JsonView::Str(completion_note(fallback_used)),
    )
}

/// Records that the clean-surface launch command ran and exited cleanly.
pub fn apply_compact_chat_host_launch_completion(
    payload: &mut Json,
    mode: &str,
    fallback_used: bool,
)
    requires
        launch_payload_ok(old(payload)@),
    ensures
        final(payload)@ == after_completion(old(payload)@, mode@, fallback_used),
{
    let ghost p0 = payload@;
    let command = match get(payload, "continuity_compact_chat") {
        Some(c) => match get(c, "operator_notice") {
            Some(n) => get_cloned(n, "launch_clean_chat_command"),
            None => Json::Null,
        },
        None => Json::Null,
    };
    let mut b = ObjectBuilder::new();
    b.push("attempted", Json::Bool(true));
    b.push("status", str_json("requested"));
    b.push("mode", str_json(mode));
    b.push("fallback_used", Json::Bool(fallback_used));
    let ghost cv = command@;
    b.push("launch_clean_chat_command", command);
    assert(cv == field(notice_node(p0), "launch_clean_chat_command"@));
    assert(b.view_entries() =~= seq![
        ("attempted"@, JsonView::Bool(true)),
        ("status"@, JsonView::Str("requested"@)),
        ("mode"@, JsonView::Str(mode@)),
        ("fallback_used"@, JsonView::Bool(fallback_used)),
        ("launch_clean_chat_command"@, cv),
    ]);
    let state = b.build();
    assert(state@ == completion_state(p0, mode@, fallback_used));
    write_host_launch(payload, state);
    write_notice(
        payload,
        "message_text",
        str_json(
            "Новая чистая рабочая поверхность запрошена автоматически; startup restore уже передан в новую рабочую поверхность.",
        ),
    );
    write_notice(payload, "required_host_action", Json::Null);
    let note = if fallback_used {
        "Clean context surface запрошена через fallback reuse-window. Проверь, что это действительно новая чистая рабочая поверхность; если нет, открой её вручную и используй prompt_text."
    } else {
        "Clean context surface запрошена через VS Code `code chat`, но bounded proof пока подтверждает только exit-zero launch command. Проверь, что действительно открылась новая чистая рабочая поверхность и что startup restore дошёл туда; если нет, открой её вручную и используй prompt_text."
    };
    write_notice(payload, "note", str_json(note));
}

pub open spec fn failed_message() -> Seq<char> {
    "Automatic clean-surface launch не сработал; manual fallback остаётся каноническим."@
}

pub open spec fn failed_note() -> Seq<char> {
    "Amai попыталась открыть новую clean work surface автоматически, но host launch bridge не смог довести запуск до конца. Используйте prompt_text вручную и не считайте auto-launch выполненным."@
}

/// Records that the clean-surface launch command ran and failed with `error_text`; the
/// manual fallback stays the way forward.
pub fn apply_compact_chat_host_launch_failed(payload: &mut Json, mode: &str, error_text: &str)
    requires
        launch_payload_ok(old(payload)@),
    ensures
        final(payload)@ == with_manual_notice(
            with_host_launch(
                old(payload)@,
                host_launch_state("launch_failed"@, true, Some(mode@), Some(error_text@)),
            ),
            failed_message(),
            failed_note(),
        ),
{
    write_host_launch(
        payload,
        host_launch_state_exec("launch_failed", true, Some(mode), Some(error_text)),
    );
    write_manual_notice(
        payload,
        "Automatic clean-surface launch не сработал; manual fallback остаётся каноническим.",
        "Amai попыталась открыть новую clean work surface автоматически, но host launch bridge не смог довести запуск до конца. Используйте prompt_text вручную и не считайте auto-launch выполненным.",
    );
}

pub open spec fn disabled_message() -> Seq<char> {
    "Automatic clean-surface launch отключён политикой; используйте prompt_text вручную."@
}

pub open spec fn disabled_note() -> Seq<char> {
    "Система может только рекомендовать новую clean work surface, но не открывать её автоматически."@
}

/// Records that policy forbids launching a clean surface automatically.
pub fn apply_compact_chat_host_launch_disabled_by_policy(payload: &mut Json)
    requires
        launch_payload_ok(old(payload)@),
    ensures
        final(payload)@ == with_manual_notice(
            with_host_launch(
                old(payload)@,
                host_launch_state(
                    "disabled_by_policy"@,
                    false,
                    None,
                    Some("auto_launch_disabled_by_policy"@),
                ),
            ),
            disabled_message(),
            disabled_note(),
        ),
{
    write_host_launch(
        payload,
        host_launch_state_exec(
            "disabled_by_policy",
            false,
            None,
            Some("auto_launch_disabled_by_policy"),
        ),
    );
    write_manual_notice(
        payload,
        "Automatic clean-surface launch отключён политикой; используйте prompt_text вручную.",
        "Система может только рекомендовать новую clean work surface, но не открывать её автоматически.",
    );
}

pub open spec fn not_requested_message() -> Seq<char> {
    "Automatic clean-surface launch не запрошен; manual fallback остаётся каноническим."@
}

pub open spec fn not_requested_note() -> Seq<char> {
    "Host launch bridge может быть доступен, но этот вызов не просил открывать новую clean work surface автоматически."@
}

/// Records that this call did not ask for a clean surface to be launched.
pub fn apply_compact_chat_host_launch_available_not_requested(payload: &mut Json)
    requires
        launch_payload_ok(old(payload)@),
    ensures
        final(payload)@ == with_manual_notice(
            with_host_launch(
                old(payload)@,
                host_launch_state("available_not_requested"@, false, None, Some("launch_not_requested"@)),
            ),
            not_requested_message(),
            not_requested_note(),
        ),
{
    write_host_launch(
        payload,
        host_launch_state_exec("available_not_requested", false, None, Some("launch_not_requested")),
    );
    write_manual_notice(
        payload,
        "Automatic clean-surface launch не запрошен; manual fallback остаётся каноническим.",
        "Host launch bridge может быть доступен, но этот вызов не просил открывать новую clean work surface автоматически.",
    );
}

pub open spec fn unavailable_message() -> Seq<char> {
    "Automatic clean-surface launch недоступен; manual fallback остаётся каноническим."@
}

pub open spec fn unavailable_note() -> Seq<char> {
    "Amai не нашла host launch command для новой clean work surface. Используйте prompt_text вручную."@
}

/// Records that no command can launch a clean surface, for `reason`.
pub fn apply_compact_chat_host_launch_bridge_unavailable(payload: &mut Json, reason: &str)
    requires
        launch_payload_ok(old(payload)@),
    ensures
        final(payload)@ == with_manual_notice(
            with_host_launch(
                old(payload)@,
                host_launch_state("bridge_unavailable"@, false, None, Some(reason@)),
            ),
            unavailable_message(),
            unavailable_note(),
        ),
{
    write_host_launch(
        payload,
        host_launch_state_exec("bridge_unavailable", false, None, Some(reason)),
    );
    write_manual_notice(
        payload,
        "Automatic clean-surface launch недоступен; manual fallback остаётся каноническим.",
        "Amai не нашла host launch command для новой clean work surface. Используйте prompt_text вручную.",
    );
}

/// The launch command the payload offers, trimmed, when it holds text.
pub open spec fn offered_command(p: JsonView) -> Option<Seq<char>> {
    as_text(field(notice_node(p), "launch_clean_chat_command"@))
}

/// Why the payload offers no launch command: the clean-chat launch surface's reason, or
/// `launch_command_unavailable`.
pub open spec fn launch_unavailable_reason(p: JsonView) -> Seq<char> {
    text_or(
        as_text(field(field(notice_node(p), "clean_chat_launch"@), "unavailable_reason"@)),
        "launch_command_unavailable"@,
    )
}

/// `payload.continuity_compact_chat.operator_notice.launch_clean_chat_command`, trimmed,
/// when it holds text.
pub fn compact_chat_launch_clean_chat_command(payload: &Json) -> (r: Option<&str>)
    ensures
        match r {
            Some(t) => offered_command(payload@) == Some(t@),
            None => offered_command(payload@) is None,
        },
{
    match get(payload, "continuity_compact_chat") {
        Some(c) => match get(c, "operator_notice") {
            Some(n) => get_text(n, "launch_clean_chat_command"),
            None => None,
        },
        None => None,
    }
}

/// The reason recorded when no launch command is offered.
pub fn compact_chat_launch_unavailable_reason(payload: &Json) -> (r: String)
    ensures
        r@ == launch_unavailable_reason(payload@),
{
    let reason = match get(payload, "continuity_compact_chat") {
        Some(c) => match get(c, "operator_notice") {
            Some(n) => match get(n, "clean_chat_launch") {
                Some(l) => get_text(l, "unavailable_reason"),
                None => None,
            },
            None => None,
        },
        None => None,
    };
    match reason {
        Some(t) => t.to_string(),
        None => "launch_command_unavailable".to_string(),
    }
}

/// The values of the auto-launch switch that turn it on, surrounding whitespace aside.
pub open spec fn auto_launch_switch_on(value: Option<Seq<char>>) -> bool {
    match value {
        Some(v) => {
            let t = trim(v);
            t == "1"@ || t == "true"@ || t == "TRUE"@ || t == "yes"@ || t == "YES"@
        },
        None => false,
    }
}

/// Whether the auto-launch switch, as read from the environment, is on.
pub fn compact_chat_auto_launch_enabled_from(value: Option<&str>) -> (b: bool)
    ensures
        b == auto_launch_switch_on(opt_seq(value)),
{
    match value {
        Some(v) => {
            let t = trim_str(v);
            str_eq(t, "1") || str_eq(t, "true") || str_eq(t, "TRUE") || str_eq(t, "yes")
                || str_eq(t, "YES")
        },
        None => false,
    }
}

/// The payload after deciding not to launch: how the decision is recorded for each case.
pub open spec fn launch_plan_outcome(
    p: JsonView,
    launch_requested: bool,
    implicit_launch_allowed: bool,
    auto_launch_enabled: bool,
) -> (Option<Seq<char>>, JsonView) {
    if !launch_requested && !implicit_launch_allowed {
        (
            None,
            with_manual_notice(
                with_host_launch(
                    p,
                    host_launch_state("available_not_requested"@, false, None, Some("launch_not_requested"@)),
                ),
                not_requested_message(),
                not_requested_note(),
            ),
        )
    } else if offered_command(p) is None {
        (
            None,
            with_manual_notice(
                with_host_launch(
                    p,
                    host_launch_state("bridge_unavailable"@, false, None, Some(launch_unavailable_reason(p))),
                ),
                unavailable_message(),
                unavailable_note(),
            ),
        )
    } else if !auto_launch_enabled {
        (
            None,
            with_manual_notice(
                with_host_launch(
                    p,
                    host_launch_state(
                        "disabled_by_policy"@,
                        false,
                        None,
                        Some("auto_launch_disabled_by_policy"@),
                    ),
                ),
                disabled_message(),
                disabled_note(),
            ),
        )
    } else {
        (offered_command(p), p)
    }
}

fn settable_exec(j: &Json) -> (r: bool)
    ensures
        r == settable(j@),
{
    matches!(j, Json::Object(_) | Json::Null)
}

/// Whether the payload can take the host-launch writes: the payload, its compact-chat
/// node and its operator notice are each an object or `null`.
pub fn launch_payload_writable(payload: &Json) -> (b: bool)
    ensures
        b == launch_payload_ok(payload@),
{
    let compact = match crate::json::get(payload, "continuity_compact_chat") {
        Some(c) => c,
        None => &Json::Null,
    };
    let notice = match crate::json::get(compact, "operator_notice") {
        Some(n) => n,
        None => &Json::Null,
    };
    settable_exec(payload) && settable_exec(compact) && settable_exec(notice)
}

/// Decides whether the offered clean-surface launch command is to be run. When it is not,
/// records why in the payload and returns `None`; when it is, leaves the payload as it is
/// and returns the command, whose run the caller then records with
/// `apply_compact_chat_host_launch_completion` or `apply_compact_chat_host_launch_failed`
/// in the mode `implicit_default`.
pub fn plan_compact_chat_host_launch(
    payload: &mut Json,
    launch_requested: bool,
    implicit_launch_allowed: bool,
    auto_launch_enabled: bool,
) -> (command: Option<String>)
    requires
        launch_payload_ok(old(payload)@),
    ensures
        ({
            let (c, p) = launch_plan_outcome(
                old(payload)@,
                launch_requested,
                implicit_launch_allowed,
                auto_launch_enabled,
            );
            &&& final(payload)@ == p
            &&& match command {
                Some(t) => c == Some(t@),
                None => c is None,
            }
        }),
{
    if !launch_requested && !implicit_launch_allowed {
        apply_compact_chat_host_launch_available_not_requested(payload);
        return None;
    }
    let command = match compact_chat_launch_clean_chat_command(payload) {
        Some(c) => c.to_string(),
        None => {
            let reason = compact_chat_launch_unavailable_reason(payload);
            apply_compact_chat_host_launch_bridge_unavailable(payload, reason.as_str());
            return None;
        },
    };
    if !auto_launch_enabled {
        apply_compact_chat_host_launch_disabled_by_policy(payload);
        return None;
    }
    Some(command)
}

/// How a declined launch is recorded: its status and its reason.
pub open spec fn declined_launch(
    p: JsonView,
    launch_requested: bool,
    implicit_launch_allowed: bool,
) -> (Seq<char>, Seq<char>) {
    if !launch_requested && !implicit_launch_allowed {
        ("available_not_requested"@, "launch_not_requested"@)
    } else if offered_command(p) is None {
        ("bridge_unavailable"@, launch_unavailable_reason(p))
    } else {
        ("disabled_by_policy"@, "auto_launch_disabled_by_policy"@)
    }
}

/// Writing a notice field leaves the launch state alone and reads back what was written.
proof fn lemma_notice_reads(p: JsonView, key: Seq<char>, v: JsonView)
    requires
        launch_payload_ok(p),
    ensures
        field(compact_node(with_notice(p, key, v)), host_launch_key()) == field(
            compact_node(p),
            host_launch_key(),
        ),
        field(notice_node(with_notice(p, key, v)), key) == v,
        forall|k: Seq<char>|
            k != key ==> #[trigger] field(notice_node(with_notice(p, key, v)), k) == field(
                notice_node(p),
                k,
            ),
        launch_payload_ok(with_notice(p, key, v)),
{
    lemma_distinct_keys();
    let c = compact_node(p);
    let n = notice_node(p);
    lemma_with_field_reads(p, compact_key(), with_field2(c, notice_key(), key, v), compact_key());
    lemma_with_field_reads(c, notice_key(), with_field(n, key, v), host_launch_key());
    assert forall|k: Seq<char>| k != key implies #[trigger] field(
        notice_node(with_notice(p, key, v)),
        k,
    ) == field(notice_node(p), k) by {
        lemma_with_field_reads(n, key, v, k);
    }
    lemma_with_field_reads(n, key, v, key);
    lemma_notice_keeps_ok(p, key, v);
}

/// A law of launch planning: the offered command is handed back to be run exactly when a
/// launch was requested or implicitly allowed, a command is offered and auto-launch is on,
/// and then the payload is left as it is. Otherwise nothing is run, and the payload records
/// a launch that was not attempted, with the status and reason of the first condition that
/// failed, and the manual host action that remains.
pub proof fn lemma_launch_plan_runs_only_when_allowed(
    p: JsonView,
    launch_requested: bool,
    implicit_launch_allowed: bool,
    auto_launch_enabled: bool,
)
    requires
        launch_payload_ok(p),
    ensures
        ({
            let (c, q) = launch_plan_outcome(
                p,
                launch_requested,
                implicit_launch_allowed,
                auto_launch_enabled,
            );
            let run = (launch_requested || implicit_launch_allowed) && offered_command(p) is Some
                && auto_launch_enabled;
            let (status, reason) = declined_launch(p, launch_requested, implicit_launch_allowed);
            &&& (c is Some <==> run)
            &&& run ==> c == offered_command(p) && q == p
            &&& !run ==> field(compact_node(q), host_launch_key()) == host_launch_state(
                status,
                false,
                None,
                Some(reason),
            )
            &&& !run ==> field(notice_node(q), "required_host_action"@) == JsonView::Str(
                manual_host_action(),
            )
        }),
{
    let run = (launch_requested || implicit_launch_allowed) && offered_command(p) is Some
        && auto_launch_enabled;
    if !run {
        let (status, reason) = declined_launch(p, launch_requested, implicit_launch_allowed);
        let (message, note) = if !launch_requested && !implicit_launch_allowed {
            (not_requested_message(), not_requested_note())
        } else if offered_command(p) is None {
            (unavailable_message(), unavailable_note())
        } else {
            (disabled_message(), disabled_note())
        };
        let state = host_launch_state(status, false, None, Some(reason));
        let p1 = with_host_launch(p, state);
        lemma_distinct_keys();
        lemma_host_launch_keeps_ok(p, state);
        lemma_with_field_reads(
            p,
            compact_key(),
            with_field(compact_node(p), host_launch_key(), state),
            compact_key(),
        );
        lemma_with_field_reads(compact_node(p), host_launch_key(), state, host_launch_key());
        let p2 = with_notice(p1, "message_text"@, JsonView::Str(message));
        lemma_notice_reads(p1, "message_text"@, JsonView::Str(message));
        let p3 = with_notice(p2, "required_host_action"@, JsonView::Str(manual_host_action()));
        lemma_notice_reads(p2, "required_host_action"@, JsonView::Str(manual_host_action()));
        let p4 = with_notice(p3, "note"@, JsonView::Str(note));
        lemma_notice_reads(p3, "note"@, JsonView::Str(note));
        reveal_strlit("note");
        reveal_strlit("required_host_action");
        assert("note"@ != "required_host_action"@) by {
            assert("note"@.len() != "required_host_action"@.len());
        }
        assert(launch_plan_outcome(p, launch_requested, implicit_launch_allowed, auto_launch_enabled).1
            == p4);
    }
}

} // verus!
