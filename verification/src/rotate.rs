//! Rotating a chat for the client budget: whether the guard lets the rotation go ahead,
//! the rotation payload and its human view.
use vstd::prelude::*;
use crate::advisory::{format_client_budget_status_label_for_human, display_client_budget_status_label, limits_label, shown_status_label};
use crate::answer::{opt_string, opt_view};
use crate::chat_start::{namespace_json, namespace_view, project_json, project_view, NamespaceRecord, ProjectRecord};
use crate::human::{join_lines, line_if, prefixed, push_line};
use crate::json::{
    as_bool, as_str, as_text, as_u64, clone_json, field, get, get_bool, get_str, get_text, get_u64, opt_str_json,
    opt_str_view, Json, JsonView, ObjectBuilder,
};
use crate::labels::{format_optional_text_for_human, human_epoch_ms, no_data, text_or};
use crate::runtime_summaries::client_limits_surface_label;
use crate::text::{chars_of, decimal, join, push_str, str_eq, string_of, views};

verus! {

/// Whether the guard asks for the chat to be rotated, now or soon.
pub open spec fn guard_wants_rotation(guard: JsonView) -> bool {
    as_bool(field(guard, "should_rotate_chat_now"@)) == Some(true) || as_bool(field(guard, "should_rotate_chat_soon"@))
        == Some(true)
}

/// A law of rotation: a guard asks for the chat to be rotated exactly when it says to
/// rotate now or says to rotate soon; either alone is enough.
pub proof fn lemma_guard_wants_rotation(guard: JsonView)
    ensures
        as_bool(field(guard, "should_rotate_chat_soon"@)) == Some(true) ==> guard_wants_rotation(guard),
        as_bool(field(guard, "should_rotate_chat_now"@)) == Some(true) ==> guard_wants_rotation(guard),
        guard_wants_rotation(guard) ==> as_bool(field(guard, "should_rotate_chat_now"@)) == Some(true) || as_bool(
            field(guard, "should_rotate_chat_soon"@),
        ) == Some(true),
{
}

/// Why the rotation was refused, with the guard status shown as `label`.
pub open spec fn refusal_text(label: Seq<char>) -> Seq<char> {
    "client-budget rotate helper refused because guard is not active: "@ + label
        + "; pass --force only if you intentionally want to rotate despite clear guard"@
}

/// Whether the rotation goes ahead: `Ok(true)` when the guard asks for it, `Ok(false)`
/// when it does not but the rotation is forced, and otherwise the refusal, which shows
/// the guard status as the dashboard labels it.
pub fn rotate_chat_gate<F: Fn(&str) -> String>(guard: &Json, force: bool, status_label_display: &F) -> (r: Result<
    bool,
    String,
>)
    requires
        forall|s: &str| #[trigger] status_label_display.requires((s,)),
    ensures
        as_bool(field(guard@, "should_rotate_chat_soon"@)) == Some(true) ==> r == Ok::<bool, String>(true),
        as_bool(field(guard@, "should_rotate_chat_now"@)) == Some(true) ==> r == Ok::<bool, String>(true),
        as_bool(field(guard@, "should_rotate_chat_now"@)) != Some(true) && as_bool(field(guard@, "should_rotate_chat_soon"@))
            != Some(true) ==> (if force { r == Ok::<bool, String>(false) } else { r is Err }),
        guard_wants_rotation(guard@) ==> r == Ok::<bool, String>(true),
        !guard_wants_rotation(guard@) && force ==> r == Ok::<bool, String>(false),
        !guard_wants_rotation(guard@) && !force ==> r is Err && exists|shown: Option<Seq<char>>|
            #[trigger] shown_status_label(*status_label_display, guard@, shown) && r->Err_0@ == refusal_text(
                text_or(shown, "guard не требует rotate"@),
            ),
{
    let wants = get_bool(guard, "should_rotate_chat_now") == Some(true) || get_bool(guard, "should_rotate_chat_soon")
        == Some(true);
    if wants {
        return Ok(true);
    }
    if force {
        return Ok(false);
    }
    let shown = display_client_budget_status_label(guard, status_label_display);
    assert(shown_status_label(*status_label_display, guard@, opt_string(shown)));
    let label = match shown {
        Some(t) => t,
        None => "guard не требует rotate".to_string(),
    };
    let mut out: Vec<char> = Vec::new();
    push_str(&mut out, "client-budget rotate helper refused because guard is not active: ");
    push_str(&mut out, label.as_str());
    push_str(&mut out, "; pass --force only if you intentionally want to rotate despite clear guard");
    Err(string_of(out.as_slice()))
}

/// Whether the restore holds a return obligation that the rotation must carry: an
/// ExecCtl resume state other than `clear`.
pub open spec fn keeps_return_obligation(restore_node: Option<JsonView>) -> bool {
    match restore_node {
        Some(n) => match as_text(field(n, "execctl_resume_state"@)) {
            Some(t) => t != "clear"@,
            None => false,
        },
        None => false,
    }
}

/// Whether the rotation must preserve the restore's return obligation.
pub fn rotate_chat_preserves_return_obligation(restore_node: Option<&Json>) -> (b: bool)
    ensures
        b == keeps_return_obligation(crate::direct_answer::opt_json(restore_node)),
{
    match restore_node {
        Some(n) => match get_text(n, "execctl_resume_state") {
            Some(t) => !str_eq(t, "clear"),
            None => false,
        },
        None => false,
    }
}

/// The short reply the old chat may still give: the blocking contract's template,
/// trimmed, or `default_template` where it names none.
pub open spec fn blocked_reply(guard: JsonView, default_template: Seq<char>) -> Seq<char> {
    match as_text(field(field(field(guard, "reply_execution_gate"@), "blocking_reply_contract"@), "template"@)) {
        Some(t) => t,
        None => default_template,
    }
}

/// The commands of the action bundle's operator flow.
pub open spec fn flow_view(action_bundle: JsonView) -> JsonView {
    let flow = field(action_bundle, "operator_flow"@);
    JsonView::Object(
        seq![
            ("rotate_helper_command"@, opt_str_view(as_str(field(flow, "rotate_helper_command"@)))),
            ("handoff_command"@, opt_str_view(as_str(field(flow, "handoff_command"@)))),
            ("startup_command"@, opt_str_view(as_str(field(flow, "startup_command"@)))),
        ],
    )
}

/// The rotation payload: `ready` when the guard asked for the rotation (else it was
/// forced), the guard and its blocking contract, the short reply the old chat may give,
/// the working-state action bundle, the handoff just written, and the continuity import
/// made for the rotation when there was none yet.
pub open spec fn rotate_payload(
    ready: bool,
    forced: bool,
    project: ProjectRecord,
    namespace: NamespaceRecord,
    guard: JsonView,
    default_template: Seq<char>,
    action_bundle: JsonView,
    handoff: JsonView,
    continuity_import: Option<JsonView>,
) -> JsonView {
    JsonView::Object(
        seq![
            (
                "continuity_rotate_chat"@,
                JsonView::Object(
                    seq![
                        ("status"@, JsonView::Str(if ready { "ready"@ } else { "forced"@ })),
                        ("forced"@, JsonView::Bool(forced)),
                        ("project"@, project_view(project)),
                        ("namespace"@, namespace_view(namespace)),
                        ("client_budget_guard"@, guard),
                        (
                            "blocking_reply_contract"@,
                            field(field(guard, "reply_execution_gate"@), "blocking_reply_contract"@),
                        ),
                        ("blocked_reply_text"@, JsonView::Str(blocked_reply(guard, default_template))),
                        ("action_bundle"@, action_bundle),
                        ("handoff"@, handoff),
                        ("startup_requires_continuity_import"@, JsonView::Bool(false)),
                        (
                            "continuity_import"@,
                            match continuity_import {
                                Some(c) => c,
                                None => JsonView::Null,
                            },
                        ),
                        ("operator_flow"@, flow_view(action_bundle)),
                    ],
                ),
            ),
        ],
    )
}

fn field_ref<'a>(v: &'a Json, key: &str) -> (r: &'a Json)
    ensures
        r@ == field(v@, key@),
{
    match get(v, key) {
        Some(x) => x,
        None => &Json::Null,
    }
}

/// The short reply the old chat may still give.
pub fn rotate_chat_blocked_reply_text(guard: &Json, default_template: &str) -> (r: String)
    ensures
        r@ == blocked_reply(guard@, default_template@),
{
    let contract = field_ref(field_ref(guard, "reply_execution_gate"), "blocking_reply_contract");
    match get_text(contract, "template") {
        Some(t) => t.to_string(),
        None => default_template.to_string(),
    }
}

/// The rotation payload (see `rotate_payload`).
pub fn build_rotate_chat_payload(
    ready: bool,
    forced: bool,
    project: &ProjectRecord,
    namespace: &NamespaceRecord,
    client_budget_guard: &Json,
    default_template: &str,
    action_bundle: &Json,
    handoff: &Json,
    continuity_import: Option<&Json>,
) -> (r: Json)
    ensures
        r@ == rotate_payload(
            ready,
            forced,
            *project,
            *namespace,
            client_budget_guard@,
            default_template@,
            action_bundle@,
            handoff@,
            crate::direct_answer::opt_json(continuity_import),
        ),
{
    let flow = field_ref(action_bundle, "operator_flow");
    let mut fb = ObjectBuilder::new();
    fb.push("rotate_helper_command", opt_str_json(get_str(flow, "rotate_helper_command")));
    fb.push("handoff_command", opt_str_json(get_str(flow, "handoff_command")));
    fb.push("startup_command", opt_str_json(get_str(flow, "startup_command")));
    assert(fb.view_entries() =~= flow_view(action_bundle@)->Object_0);
    let import = match continuity_import {
        Some(c) => clone_json(c),
        None => Json::Null,
    };
    let ghost g = client_budget_guard@;
    let ghost iv = import@;
    assert(iv == match crate::direct_answer::opt_json(continuity_import) {
        Some(c) => c,
        None => JsonView::Null,
    });
    let mut b = ObjectBuilder::new();
    b.push("status", Json::Str(if ready { "ready".to_string() } else { "forced".to_string() }));
    b.push("forced", Json::Bool(forced));
    b.push("project", project_json(project));
    b.push("namespace", namespace_json(namespace));
    b.push("client_budget_guard", clone_json(client_budget_guard));
    b.push(
        "blocking_reply_contract",
        clone_json(field_ref(field_ref(client_budget_guard, "reply_execution_gate"), "blocking_reply_contract")),
    );
    b.push("blocked_reply_text", Json::Str(rotate_chat_blocked_reply_text(client_budget_guard, default_template)));
    b.push("action_bundle", clone_json(action_bundle));
    b.push("handoff", clone_json(handoff));
    b.push("startup_requires_continuity_import", Json::Bool(false));
    b.push("continuity_import", import);
    let flow_json = fb.build();
    let ghost fv = flow_json@;
    assert(fv == flow_view(action_bundle@));
    b.push("operator_flow", flow_json);
    assert(b.view_entries() =~= seq![
        ("status"@, JsonView::Str(if ready { "ready"@ } else { "forced"@ })),
        ("forced"@, JsonView::Bool(forced)),
        ("project"@, project_view(*project)),
        ("namespace"@, namespace_view(*namespace)),
        ("client_budget_guard"@, g),
        ("blocking_reply_contract"@, field(field(g, "reply_execution_gate"@), "blocking_reply_contract"@)),
        ("blocked_reply_text"@, JsonView::Str(blocked_reply(g, default_template@))),
        ("action_bundle"@, action_bundle@),
        ("handoff"@, handoff@),
        ("startup_requires_continuity_import"@, JsonView::Bool(false)),
        ("continuity_import"@, iv),
        ("operator_flow"@, fv),
    ]);
    let ghost entries = b.view_entries();
    let inner = b.build();
    let ghost inv = inner@;
    let mut outer = ObjectBuilder::new();
    outer.push("continuity_rotate_chat", inner);
    assert(outer.view_entries() =~= seq![("continuity_rotate_chat"@, inv)]);
    let r = outer.build();
    let ghost rp = rotate_payload(
        ready,
        forced,
        *project,
        *namespace,
        g,
        default_template@,
        action_bundle@,
        handoff@,
        crate::direct_answer::opt_json(continuity_import),
    );
    let ghost es = rp->Object_0[0].1->Object_0;
    assert(es =~= entries);
    assert(r@ == rotate_payload(
        ready,
        forced,
        *project,
        *namespace,
        g,
        default_template@,
        action_bundle@,
        handoff@,
        crate::direct_answer::opt_json(continuity_import),
    ));
    r
}

} // verus!
