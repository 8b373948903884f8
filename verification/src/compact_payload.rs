//! The compact chat payload built from a live continuity startup: the work line that is
//! carried over, and what the operator and the host are told to continue on a clean
//! surface.
use vstd::prelude::*;
use crate::answer::{opt_string, opt_view};
use crate::artifact_fallback::{
    artifact_startup_command, compact_notice, compact_notice_exec, field_ref, put_present, put_present_exec,
    startup_command_exec, surface_view,
};
use crate::chat_start::{namespace_json, namespace_view, project_json, project_view, NamespaceRecord, ProjectRecord};
use crate::compaction::{
    compact_chat_start_restore_view, compact_client_surface_for_compact_chat, compact_compact_chat_chat_start_restore,
    compact_compact_chat_handoff, compact_compact_chat_host_current_thread_control,
    compact_startup_runtime_client_budget_guard, empty_object, handoff_fields, picked, runtime_budget_guard_view,
    thread_control_view,
};
use crate::fallback::{compact_chat_manual_fallback_note, manual_fallback_note};
use crate::projections::{
    recommended_headline, recommended_next_step, recommended_workline_headline_from_restore_or_handoff,
    recommended_workline_next_step_from_restore_or_handoff,
};
use crate::answer::{normalize_next_step_value, normalized_next_step};
use crate::text::{trim, trim_str};
use crate::json::{clone_json, field, opt_str_view, set_field, str_json, with_field, Json, JsonView, ObjectBuilder};

verus! {

/// The compacted handoff, or `null` for one that is not an object.
pub open spec fn handoff_compacted(handoff: JsonView) -> JsonView {
    if handoff is Object {
        picked(handoff, handoff_fields())
    } else {
        JsonView::Null
    }
}

/// The compact chat payload of a live startup for `project` and `namespace`: `guard` is
/// the live client-budget guard, `handoff_summary` the handoff just captured (or the
/// stored one), `startup_payload` the startup payload, `prompt_file` where its prompt
/// text was written, `client_surface` and `clean_chat_launch` the client and how a clean
/// chat is launched in it, `thread_id` the chat thread asked about and
/// `host_current_thread_control` the host's control surface for it.
pub open spec fn live_compact_chat(
    project: ProjectRecord,
    namespace: NamespaceRecord,
    guard: JsonView,
    handoff_summary: JsonView,
    startup_payload: JsonView,
    prompt_file: Option<Seq<char>>,
    client_surface: JsonView,
    clean_chat_launch: JsonView,
    thread_id: Option<Seq<char>>,
    host_current_thread_control: JsonView,
) -> JsonView {
    let csr = compact_chat_start_restore_view(field(startup_payload, "chat_start_restore"@));
    let base = with_field(
        with_field(empty_object(), "project"@, project_view(project)),
        "namespace"@,
        namespace_view(namespace),
    );
    let t1 = put_present(base, "client_budget_guard"@, runtime_budget_guard_view(guard));
    let t2 = put_present(t1, "handoff"@, handoff_compacted(handoff_summary));
    let t3 = put_present(t2, "chat_start_restore"@, csr);
    let t4 = put_present(t3, "delivery_surface_restore"@, csr);
    let t5 = put_present(t4, "startup_execution_gate"@, field(startup_payload, "startup_execution_gate"@));
    let t6 = put_present(t5, "startup_next_action"@, field(startup_payload, "startup_next_action"@));
    let t7 = put_present(t6, "required_return_task"@, field(startup_payload, "required_return_task"@));
    let t8 = put_present(t7, "reply_execution_gate"@, field(startup_payload, "reply_execution_gate"@));
    let t9 = put_present(t8, "host_current_thread_control"@, thread_control_view(host_current_thread_control));
    let t10 = put_present(t9, "client_surface"@, surface_view(client_surface));
    let t11 = with_field(
        t10,
        "operator_notice"@,
        compact_notice(
            startup_payload,
            prompt_file,
            client_surface,
            clean_chat_launch,
            thread_id,
            manual_fallback_note(client_surface),
        ),
    );
    let t12 = with_field(
        t11,
        "operator_flow"@,
        JsonView::Object(
            seq![
                (
                    "startup_command"@,
                    opt_str_view(
                        artifact_startup_command(Some(project.code@), Some(namespace.code@), project.repo_root@),
                    ),
                ),
            ],
        ),
    );
    JsonView::Object(seq![("continuity_compact_chat"@, t12)])
}

/// The compact chat payload of a live continuity startup (see `live_compact_chat`).
pub fn build_compact_chat_payload(
    project: &ProjectRecord,
    namespace: &NamespaceRecord,
    client_budget_guard: &Json,
    handoff_summary: &Json,
    startup_payload: &Json,
    prompt_file: Option<&str>,
    client_surface: &Json,
    clean_chat_launch: &Json,
    thread_id: Option<&str>,
    host_current_thread_control: &Json,
) -> (r: Json)
    ensures
        r@ == live_compact_chat(
            *project,
            *namespace,
            client_budget_guard@,
            handoff_summary@,
            startup_payload@,
            opt_view(prompt_file),
            client_surface@,
            clean_chat_launch@,
            opt_view(thread_id),
            host_current_thread_control@,
        ),
{
    let mut t = ObjectBuilder::new().build();
    assert(t@ =~= empty_object());
    t = set_field(t, "project", project_json(project));
    t = set_field(t, "namespace", namespace_json(namespace));
    let restore = field_ref(startup_payload, "chat_start_restore");
    let csr = compact_compact_chat_chat_start_restore(restore);
    let csr2 = compact_compact_chat_chat_start_restore(restore);
    t = put_present_exec(t, "client_budget_guard", compact_startup_runtime_client_budget_guard(client_budget_guard));
    t = put_present_exec(t, "handoff", compact_compact_chat_handoff(handoff_summary));
    t = put_present_exec(t, "chat_start_restore", csr);
    t = put_present_exec(t, "delivery_surface_restore", csr2);
    t = put_present_exec(t, "startup_execution_gate", clone_json(field_ref(startup_payload, "startup_execution_gate")));
    t = put_present_exec(t, "startup_next_action", clone_json(field_ref(startup_payload, "startup_next_action")));
    t = put_present_exec(t, "required_return_task", clone_json(field_ref(startup_payload, "required_return_task")));
    t = put_present_exec(t, "reply_execution_gate", clone_json(field_ref(startup_payload, "reply_execution_gate")));
    t = put_present_exec(
        t,
        "host_current_thread_control",
        compact_compact_chat_host_current_thread_control(host_current_thread_control),
    );
    t = put_present_exec(t, "client_surface", compact_client_surface_for_compact_chat(client_surface));
    let note = compact_chat_manual_fallback_note(client_surface);
    t = set_field(
        t,
        "operator_notice",
        compact_notice_exec(startup_payload, prompt_file, client_surface, clean_chat_launch, thread_id, note),
    );
    let code = Some(project.code.clone());
    let ns = Some(namespace.code.clone());
    let command = startup_command_exec(&code, &ns, project.repo_root.as_str());
    let mut fb = ObjectBuilder::new();
    fb.push("startup_command", crate::json::opt_string_json(command));
    let ghost cv = artifact_startup_command(Some(project.code@), Some(namespace.code@), project.repo_root@);
    assert(fb.view_entries() =~= seq![("startup_command"@, opt_str_view(cv))]);
    t = set_field(t, "operator_flow", fb.build());
    let ghost tv = t@;
    let mut outer = ObjectBuilder::new();
    outer.push("continuity_compact_chat", t);
    assert(outer.view_entries() =~= seq![("continuity_compact_chat"@, tv)]);
    outer.build()
}

/// The headline compact chat carries over: the one asked for when it is not blank (as
/// given), else the one the restore or the handoff recommends.
pub open spec fn chosen_headline(asked: Option<Seq<char>>, restore_node: Option<JsonView>, handoff: JsonView) -> Seq<
    char,
> {
    match asked {
        Some(h) => if trim(h).len() > 0 {
            h
        } else {
            recommended_headline(restore_node, handoff)
        },
        None => recommended_headline(restore_node, handoff),
    }
}

/// The next step compact chat carries over: the one asked for, normalised, when it
/// holds one, else the one the restore or the handoff recommends.
pub open spec fn chosen_next_step(asked: Option<Seq<char>>, restore_node: Option<JsonView>, handoff: JsonView) -> Seq<
    char,
> {
    match asked {
        Some(n) => match normalized_next_step(n) {
            Some(t) => t,
            None => recommended_next_step(restore_node, handoff),
        },
        None => recommended_next_step(restore_node, handoff),
    }
}

/// The work line that compact chat carries over to the clean surface: its headline and
/// next step, from what was asked for, else from the working-state restore node, else
/// from the handoff summary.
pub fn compact_chat_workline(
    headline: Option<&str>,
    next_step: Option<&str>,
    restore_node: Option<&Json>,
    handoff_summary: &Json,
) -> (r: (String, String))
    ensures
        r.0@ == chosen_headline(opt_view(headline), crate::direct_answer::opt_json(restore_node), handoff_summary@),
        r.1@ == chosen_next_step(opt_view(next_step), crate::direct_answer::opt_json(restore_node), handoff_summary@),
{
    let h = match headline {
        Some(t) => {
            if trim_str(t).unicode_len() > 0 {
                t.to_string()
            } else {
                recommended_workline_headline_from_restore_or_handoff(restore_node, handoff_summary)
            }
        },
        None => recommended_workline_headline_from_restore_or_handoff(restore_node, handoff_summary),
    };
    let n = match next_step {
        Some(t) => match normalize_next_step_value(t) {
            Some(v) => v,
            None => recommended_workline_next_step_from_restore_or_handoff(restore_node, handoff_summary),
        },
        None => recommended_workline_next_step_from_restore_or_handoff(restore_node, handoff_summary),
    };
    (h, n)
}

/// Where a compact chat is built from.
pub enum CompactChatSource {
    /// The stored startup runtime artifact.
    RuntimeArtifact,
    /// A live continuity startup.
    Live,
}

/// The error when the runtime artifact was asked for and is missing.
pub open spec fn runtime_fallback_unavailable() -> Seq<char> {
    "compact_chat runtime fallback unavailable: startup runtime artifact missing"@
}

/// The error when the runtime artifact is to be read and no repository root was given.
pub open spec fn runtime_fallback_needs_repo_root() -> Seq<char> {
    "compact_chat runtime fallback requires repo_root"@
}

/// Where compact chat is built from. The runtime artifact is looked up when the runtime
/// fallback or skipping the handoff was asked for, or when the live startup did not answer
/// in time (`live_timed_out`); a lookup without a repository root is refused before
/// anything else. A present artifact is used; a missing one is refused when the runtime
/// fallback was asked for or the live startup timed out; otherwise a live startup is used.
pub fn compact_chat_source(
    runtime_fallback: bool,
    skip_handoff: bool,
    live_timed_out: bool,
    repo_root_given: bool,
    artifact_present: bool,
) -> (r: Result<CompactChatSource, String>)
    ensures
        (runtime_fallback || skip_handoff || live_timed_out) && !repo_root_given ==> (r matches Err(e)
            && e@ == runtime_fallback_needs_repo_root()),
        (runtime_fallback || skip_handoff || live_timed_out) && repo_root_given && artifact_present
            ==> r matches Ok(CompactChatSource::RuntimeArtifact),
        (runtime_fallback || live_timed_out) && repo_root_given && !artifact_present ==> (r matches Err(
            e,
        ) && e@ == runtime_fallback_unavailable()),
        !runtime_fallback && !live_timed_out && !(skip_handoff && (!repo_root_given
            || artifact_present)) ==> r matches Ok(CompactChatSource::Live),
{
    let looks_up = runtime_fallback || skip_handoff || live_timed_out;
    if looks_up && !repo_root_given {
        return Err("compact_chat runtime fallback requires repo_root".to_string());
    }
    if looks_up && artifact_present {
        return Ok(CompactChatSource::RuntimeArtifact);
    }
    if runtime_fallback || live_timed_out {
        return Err("compact_chat runtime fallback unavailable: startup runtime artifact missing".to_string());
    }
    Ok(CompactChatSource::Live)
}

} // verus!
