//! Compact chat from the stored startup runtime artifact, for when the live continuity
//! restore does not answer in time.
use vstd::prelude::*;
use crate::answer::{opt_string, opt_view};
use crate::budget::{client_budget_compact_chat_notice_message, compact_chat_notice, runtime_artifact_note};
use crate::compaction::{
    client_surface_fields, compact_chat_start_restore_view, compact_client_surface_for_compact_chat,
    compact_compact_chat_chat_start_restore, compact_compact_chat_handoff,
    compact_compact_chat_host_current_thread_control, empty_object, handoff_fields, picked,
    thread_control_view,
};
use crate::direct_answer::{project_headline, project_next_step, str_or_empty};
use crate::fallback::{compact_chat_manual_fallback_steps, manual_fallback_steps};
use crate::json::{
    as_str, as_text, clone_json, field, get, get_str, get_text, opt_str_json, opt_str_view, set_field, str_json,
    with_field, Json, JsonView, ObjectBuilder,
};
use crate::launch::{shell_join_command, shell_joined, str_views};
use crate::startup_payload::handoff_view;

verus! {

/// `t[key] = v` unless `v` is `null`.
pub open spec fn put_present(t: JsonView, key: Seq<char>, v: JsonView) -> JsonView {
    if v == JsonView::Null {
        t
    } else {
        with_field(t, key, v)
    }
}

/// The command that starts continuity for the project and namespace of the artifact.
pub open spec fn artifact_startup_command(
    project_code: Option<Seq<char>>,
    namespace_code: Option<Seq<char>>,
    repo_root: Seq<char>,
) -> Option<Seq<char>> {
    match (project_code, namespace_code) {
        (Some(p), Some(n)) => Some(
            shell_joined(
                seq![
                    "amai"@,
                    "continuity"@,
                    "startup"@,
                    "--project"@,
                    p,
                    "--namespace"@,
                    n,
                    "--repo-root"@,
                    repo_root,
                    "--token-source-kind"@,
                    "live_continuity_startup"@,
                    "--json"@,
                ],
            ),
        ),
        _ => None,
    }
}

/// The compacted client surface, or `null` for one that is not an object.
pub open spec fn surface_view(client_surface: JsonView) -> JsonView {
    if client_surface is Object {
        picked(client_surface, client_surface_fields())
    } else {
        JsonView::Null
    }
}

/// What the operator is told when compact chat has prepared the restore: `source`
/// holds the reply gate whose prefix is repeated, and `note` says where the restore came
/// from or what the host is to do.
pub open spec fn compact_notice(
    source: JsonView,
    prompt_file: Option<Seq<char>>,
    client_surface: JsonView,
    clean_chat_launch: JsonView,
    thread_id: Option<Seq<char>>,
    note: Seq<char>,
) -> JsonView {
    let launch = as_str(field(clean_chat_launch, "launch_clean_chat_command"@));
    JsonView::Object(
        seq![
            ("kind"@, JsonView::Str("client_budget_compact_chat_requested"@)),
            ("message_text"@, JsonView::Str(compact_chat_notice())),
            ("exact_chat_command"@, JsonView::Str("компакт_чат"@)),
            ("reply_prefix"@, field(field(source, "reply_execution_gate"@), "reply_prefix"@)),
            ("thread_id"@, opt_str_view(thread_id)),
            ("prompt_file"@, opt_str_view(prompt_file)),
            ("launch_clean_chat_command"@, opt_str_view(launch)),
            (
                "launch_clean_chat_fallback_command"@,
                opt_str_view(as_str(field(clean_chat_launch, "launch_clean_chat_fallback_command"@))),
            ),
            (
                "launch_clean_chat_command_kind"@,
                if launch is Some {
                    field(clean_chat_launch, "command_kind"@)
                } else {
                    JsonView::Null
                },
            ),
            ("clean_chat_launch"@, clean_chat_launch),
            (
                "manual_fallback_steps"@,
                JsonView::Array(manual_fallback_steps(client_surface).map_values(|t: Seq<char>| JsonView::Str(t))),
            ),
            (
                "required_host_action"@,
                JsonView::Str("open_clean_chat_surface_and_inject_prompt_text_if_launch_bridge_unavailable"@),
            ),
            ("note"@, JsonView::Str(note)),
        ],
    )
}

/// The compact chat payload built from the stored startup runtime artifact of the
/// workspace at `repo_root`. `prompt_file` is where its prompt text was written, when
/// there was any; `client_surface` and `clean_chat_launch` describe the client and how a
/// clean chat is launched in it; `thread_id` is the chat thread asked about and
/// `host_current_thread_control` the host's control surface for it.
pub open spec fn artifact_compact_chat(
    repo_root: Seq<char>,
    artifact: JsonView,
    prompt_file: Option<Seq<char>>,
    client_surface: JsonView,
    clean_chat_launch: JsonView,
    thread_id: Option<Seq<char>>,
    host_current_thread_control: JsonView,
) -> JsonView {
    let summary = field(artifact, "continuity_startup_summary"@);
    let project_code = as_text(field(summary, "project_code"@));
    let namespace_code = as_text(field(summary, "namespace_code"@));
    let csr = compact_chat_start_restore_view(field(artifact, "chat_start_restore"@));
    let base = with_field(
        with_field(
            with_field(empty_object(), "source_mode"@, JsonView::Str("startup_runtime_artifact_fallback"@)),
            "project"@,
            JsonView::Object(
                seq![
                    ("code"@, opt_str_view(project_code)),
                    ("display_name"@, opt_str_view(project_code)),
                    ("repo_root"@, JsonView::Str(repo_root)),
                ],
            ),
        ),
        "namespace"@,
        JsonView::Object(seq![("code"@, opt_str_view(namespace_code)), ("display_name"@, opt_str_view(namespace_code))]),
    );
    let t1 = put_present(base, "client_budget_guard"@, field(artifact, "client_budget_guard"@));
    let t2 = put_present(t1, "handoff"@, picked(handoff_view(summary), handoff_fields()));
    let t3 = put_present(t2, "chat_start_restore"@, csr);
    let t4 = put_present(t3, "delivery_surface_restore"@, csr);
    let t5 = put_present(t4, "startup_execution_gate"@, field(artifact, "startup_execution_gate"@));
    let t6 = put_present(t5, "startup_next_action"@, field(artifact, "startup_next_action"@));
    let t7 = put_present(t6, "required_return_task"@, field(artifact, "required_return_task"@));
    let t8 = put_present(t7, "reply_execution_gate"@, field(artifact, "reply_execution_gate"@));
    let t9 = put_present(t8, "host_current_thread_control"@, thread_control_view(host_current_thread_control));
    let t10 = put_present(t9, "client_surface"@, surface_view(client_surface));
    let t11 = with_field(
        t10,
        "operator_notice"@,
        compact_notice(artifact, prompt_file, client_surface, clean_chat_launch, thread_id, runtime_artifact_note()),
    );
    let t12 = with_field(
        t11,
        "operator_flow"@,
        JsonView::Object(
            seq![("startup_command"@, opt_str_view(artifact_startup_command(project_code, namespace_code, repo_root)))],
        ),
    );
    JsonView::Object(seq![("continuity_compact_chat"@, t12)])
}

pub(crate) fn put_present_exec(t: Json, key: &str, v: Json) -> (r: Json)
    requires
        t@ is Object,
    ensures
        r@ == put_present(t@, key@, v@),
        r@ is Object,
{
    if matches!(v, Json::Null) {
        t
    } else {
        set_field(t, key, v)
    }
}

pub(crate) fn field_ref<'a>(v: &'a Json, key: &str) -> (r: &'a Json)
    ensures
        r@ == field(v@, key@),
{
    match get(v, key) {
        Some(x) => x,
        None => &Json::Null,
    }
}

pub(crate) fn compact_notice_exec(
    source: &Json,
    prompt_file: Option<&str>,
    client_surface: &Json,
    clean_chat_launch: &Json,
    thread_id: Option<&str>,
    note: String,
) -> (r: Json)
    ensures
        r@ == compact_notice(
            source@,
            opt_view(prompt_file),
            client_surface@,
            clean_chat_launch@,
            opt_view(thread_id),
            note@,
        ),
{
    let launch = get_str(clean_chat_launch, "launch_clean_chat_command");
    let steps = compact_chat_manual_fallback_steps(client_surface);
    let ghost sv = steps@.map_values(|x: String| x@);
    let mut items: Vec<Json> = Vec::new();
    let mut i: usize = 0;
    while i < steps.len()
        invariant
            i <= steps@.len(),
            sv == steps@.map_values(|x: String| x@),
            crate::json::items_view(items@) == sv.take(i as int).map_values(|t: Seq<char>| JsonView::Str(t)),
        decreases steps@.len() - i,
    {
        let item = str_json(steps[i].as_str());
        proof {
            crate::json::lemma_items_push(items@, item);
            assert(sv.take(i + 1).map_values(|t: Seq<char>| JsonView::Str(t)) =~= sv.take(i as int).map_values(
                |t: Seq<char>| JsonView::Str(t),
            ).push(JsonView::Str(sv[i as int])));
        }
        items.push(item);
        i = i + 1;
    }
    assert(sv.take(steps@.len() as int) =~= sv);
    let kind = if launch.is_some() {
        clone_json(field_ref(clean_chat_launch, "command_kind"))
    } else {
        Json::Null
    };
    let ghost cs = client_surface@;
    let ghost cl = clean_chat_launch@;
    let ghost a = source@;
    let ghost nv = note@;
    let mut b = ObjectBuilder::new();
    b.push("kind", str_json("client_budget_compact_chat_requested"));
    b.push("message_text", Json::Str(client_budget_compact_chat_notice_message()));
    b.push("exact_chat_command", str_json("компакт_чат"));
    b.push("reply_prefix", clone_json(field_ref(field_ref(source, "reply_execution_gate"), "reply_prefix")));
    b.push("thread_id", opt_str_json(thread_id));
    b.push("prompt_file", opt_str_json(prompt_file));
    b.push("launch_clean_chat_command", opt_str_json(launch));
    b.push(
        "launch_clean_chat_fallback_command",
        opt_str_json(get_str(clean_chat_launch, "launch_clean_chat_fallback_command")),
    );
    b.push("launch_clean_chat_command_kind", kind);
    b.push("clean_chat_launch", clone_json(clean_chat_launch));
    b.push("manual_fallback_steps", Json::Array(items));
    b.push(
        "required_host_action",
        str_json("open_clean_chat_surface_and_inject_prompt_text_if_launch_bridge_unavailable"),
    );
    b.push("note", Json::Str(note));
    assert(b.view_entries() =~= compact_notice(a, opt_view(prompt_file), cs, cl, opt_view(thread_id), nv)->Object_0);
    b.build()
}

/// The stored prompt text of the artifact's chat start restore, when it is not blank:
/// the text that is written out for the clean chat.
pub open spec fn artifact_prompt_text(artifact: JsonView) -> Option<Seq<char>> {
    match as_str(field(field(artifact, "chat_start_restore"@), "prompt_text"@)) {
        Some(t) => if crate::text::trim(t).len() > 0 {
            Some(t)
        } else {
            None
        },
        None => None,
    }
}

/// The prompt text that compact chat writes out from the runtime artifact, if any.
pub fn runtime_artifact_prompt_text(artifact: &Json) -> (r: Option<String>)
    ensures
        opt_string(r) == artifact_prompt_text(artifact@),
{
    match get_str(field_ref(artifact, "chat_start_restore"), "prompt_text") {
        Some(t) => {
            let trimmed = crate::text::trim_str(t);
            if trimmed.unicode_len() > 0 {
                Some(t.to_string())
            } else {
                None
            }
        },
        None => None,
    }
}

pub(crate) fn startup_command_exec(project_code: &Option<String>, namespace_code: &Option<String>, repo_root: &str) -> (r: Option<String>)
    ensures
        opt_string(r) == artifact_startup_command(opt_string(*project_code), opt_string(*namespace_code), repo_root@),
{
    match (project_code, namespace_code) {
        (Some(p), Some(n)) => {
            let args: [&str; 12] = [
                "amai",
                "continuity",
                "startup",
                "--project",
                p.as_str(),
                "--namespace",
                n.as_str(),
                "--repo-root",
                repo_root,
                "--token-source-kind",
                "live_continuity_startup",
                "--json",
            ];
            assert(str_views(args@) =~= seq![
                "amai"@,
                "continuity"@,
                "startup"@,
                "--project"@,
                p@,
                "--namespace"@,
                n@,
                "--repo-root"@,
                repo_root@,
                "--token-source-kind"@,
                "live_continuity_startup"@,
                "--json"@,
            ]);
            Some(shell_join_command(args.as_slice()))
        },
        _ => None,
    }
}

/// The compact chat payload built from the stored startup runtime artifact.
pub fn compact_chat_payload_from_runtime_artifact(
    repo_root: &str,
    artifact: &Json,
    prompt_file: Option<&str>,
    client_surface: &Json,
    clean_chat_launch: &Json,
    thread_id: Option<&str>,
    host_current_thread_control: &Json,
) -> (r: Json)
    ensures
        r@ == artifact_compact_chat(
            repo_root@,
            artifact@,
            opt_view(prompt_file),
            client_surface@,
            clean_chat_launch@,
            opt_view(thread_id),
            host_current_thread_control@,
        ),
{
    let summary = field_ref(artifact, "continuity_startup_summary");
    let (project_code, namespace_code, _project_display, _namespace_display) =
        crate::projections::compact_chat_runtime_scope_fields(summary);
    let ghost pc = opt_string(project_code);
    let ghost nc = opt_string(namespace_code);
    let raw_headline = get_str(summary, "headline");
    let raw_next = get_str(summary, "next_step");
    let handoff = crate::projections::normalized_handoff_summary_json(raw_headline, raw_next);
    proof {
        assert(crate::labels::opt_text(raw_headline) == as_text(field(summary@, "headline"@)));
        assert(crate::projections::text_or_empty(raw_next) =~= str_or_empty(field(summary@, "next_step"@)));
        assert(handoff@ == handoff_view(summary@));
    }
    let mut t = ObjectBuilder::new().build();
    assert(t@ =~= empty_object());
    t = set_field(t, "source_mode", str_json("startup_runtime_artifact_fallback"));
    let mut pb = ObjectBuilder::new();
    let code_json = match &project_code {
        Some(c) => str_json(c.as_str()),
        None => Json::Null,
    };
    let display_json = match &project_code {
        Some(c) => str_json(c.as_str()),
        None => Json::Null,
    };
    pb.push("code", code_json);
    pb.push("display_name", display_json);
    pb.push("repo_root", str_json(repo_root));
    assert(pb.view_entries() =~= seq![
        ("code"@, opt_str_view(pc)),
        ("display_name"@, opt_str_view(pc)),
        ("repo_root"@, JsonView::Str(repo_root@)),
    ]);
    t = set_field(t, "project", pb.build());
    let mut nb = ObjectBuilder::new();
    let ns_json = match &namespace_code {
        Some(c) => str_json(c.as_str()),
        None => Json::Null,
    };
    let ns_display = match &namespace_code {
        Some(c) => str_json(c.as_str()),
        None => Json::Null,
    };
    nb.push("code", ns_json);
    nb.push("display_name", ns_display);
    assert(nb.view_entries() =~= seq![("code"@, opt_str_view(nc)), ("display_name"@, opt_str_view(nc))]);
    t = set_field(t, "namespace", nb.build());
    let csr = compact_compact_chat_chat_start_restore(field_ref(artifact, "chat_start_restore"));
    let csr2 = compact_compact_chat_chat_start_restore(field_ref(artifact, "chat_start_restore"));
    t = put_present_exec(t, "client_budget_guard", clone_json(field_ref(artifact, "client_budget_guard")));
    t = put_present_exec(t, "handoff", compact_compact_chat_handoff(&handoff));
    t = put_present_exec(t, "chat_start_restore", csr);
    t = put_present_exec(t, "delivery_surface_restore", csr2);
    t = put_present_exec(t, "startup_execution_gate", clone_json(field_ref(artifact, "startup_execution_gate")));
    t = put_present_exec(t, "startup_next_action", clone_json(field_ref(artifact, "startup_next_action")));
    t = put_present_exec(t, "required_return_task", clone_json(field_ref(artifact, "required_return_task")));
    t = put_present_exec(t, "reply_execution_gate", clone_json(field_ref(artifact, "reply_execution_gate")));
    t = put_present_exec(
        t,
        "host_current_thread_control",
        compact_compact_chat_host_current_thread_control(host_current_thread_control),
    );
    t = put_present_exec(t, "client_surface", compact_client_surface_for_compact_chat(client_surface));
    t = set_field(
        t,
        "operator_notice",
        compact_notice_exec(
            artifact,
            prompt_file,
            client_surface,
            clean_chat_launch,
            thread_id,
            crate::budget::compact_chat_runtime_artifact_note(),
        ),
    );
    let command = startup_command_exec(&project_code, &namespace_code, repo_root);
    let mut fb = ObjectBuilder::new();
    fb.push("startup_command", crate::json::opt_string_json(command));
    let ghost cv = artifact_startup_command(pc, nc, repo_root@);
    assert(fb.view_entries() =~= seq![("startup_command"@, opt_str_view(cv))]);
    t = set_field(t, "operator_flow", fb.build());
    let ghost tv = t@;
    let mut outer = ObjectBuilder::new();
    outer.push("continuity_compact_chat", t);
    assert(outer.view_entries() =~= seq![("continuity_compact_chat"@, tv)]);
    outer.build()
}

} // verus!
