//! The startup runtime-state artifact: the compact record of a continuity startup that
//! later sessions and tools read back, and the projections of it shown on the command
//! line.
use vstd::prelude::*;
use crate::budget::{normalize_compact_startup_runtime_command, normalized_runtime_command};
use crate::audit::{
    opt_string_view, recomputed_consistency, recorded_matches, StartupRuntimeStateAudit,
    STARTUP_RUNTIME_STATE_ARTIFACT_VERSION,
};
use crate::compaction::{
    compact_project_task_ledger_for_startup, compact_project_task_tree_for_startup,
    compact_startup_runtime_client_budget_guard, compact_startup_runtime_execctl_active_lease,
    compact_startup_runtime_execctl_resume_obligation, compact_startup_runtime_required_return_task,
    compact_startup_runtime_summary_startup_execution_gate, compact_startup_state_cli_blocking_reply_contract,
    compact_startup_state_cli_client_budget_guard, compact_startup_state_cli_reply_execution_gate,
    compact_startup_state_cli_required_return_task, compact_startup_state_cli_startup_execution_gate,
    blocking_contract_fields, budget_guard_fields, cli_gate_fields, cli_reply_gate_fields,
    cli_return_task_fields, empty_object, lease_fields,
    lemma_picked_is_object, obligation_fields, opt_bool_view, pick_fields, picked,
    prune_startup_runtime_summary, pruned_summary_view, return_task_fields, runtime_budget_guard_view,
    summary_gate_fields, task_ledger_view, task_tree_view,
};
use crate::gate::{
    build_startup_execution_gate, evaluate_startup_execution_gate_consistency, execution_gate_view,
    gate_consistency, gate_prompt_present, gate_prompt_present_exec,
};
use crate::json::{
    as_array, as_bool, as_str, as_text, get_text, opt_str_json, opt_str_view, clone_json, copy_if_present, copy_present, field, get, get_cloned,
    is_object, key_views, set_field, settable, with_field, Json, JsonView, ObjectBuilder,
};

verus! {

/// Whether the host-thread-control compaction may give `out` for the surface `surface`.
pub open spec fn host_compacted_as<H: Fn(&Json) -> Json>(compact: H, surface: JsonView, out: JsonView) -> bool {
    exists|j: &Json, o: Json| j@ == surface && o@ == out && #[trigger] compact.ensures((j,), o)
}

/// Whether an action bundle carries a host current-thread control surface, which is
/// compacted by the host rule.
pub open spec fn consults_host(bundle: JsonView) -> bool {
    field(bundle, "host_current_thread_control"@) is Object
}

pub open spec fn bundle_fields() -> Seq<Seq<char>> {
    seq!["bundle_version"@, "ready_for_automation"@, "preserves_return_obligation"@]
}

/// The operator-flow commands that are kept, normalised.
pub open spec fn flow_command_fields() -> Seq<Seq<char>> {
    seq!["primary_command"@, "rotate_helper_command"@, "startup_command"@, "startup_after_recovery_command"@]
}

/// The operator-flow fields that are kept as they are.
pub open spec fn flow_copy_fields() -> Seq<Seq<char>> {
    seq!["primary_command_kind"@, "wait_summary"@, "resume_after_recovery_summary"@]
}

/// The listed commands of an operator flow, normalised, without those that normalise to
/// nothing.
pub open spec fn flow_commands(flow: JsonView, fields: Seq<Seq<char>>) -> JsonView
    decreases fields.len(),
{
    if fields.len() == 0 {
        empty_object()
    } else {
        let t = flow_commands(flow, fields.drop_last());
        let f = fields.last();
        match as_str(field(flow, f)) {
            Some(c) => if normalized_runtime_command(c).len() > 0 {
                with_field(t, f, JsonView::Str(normalized_runtime_command(c)))
            } else {
                t
            },
            None => t,
        }
    }
}

/// An operator flow as the runtime artifact keeps it.
pub open spec fn operator_flow_view(flow: JsonView) -> JsonView {
    copy_present(flow_commands(flow, flow_command_fields()), flow, flow_copy_fields())
}

/// An action bundle as the runtime artifact keeps it; `host` is what the host rule gave
/// for its current-thread control surface.
pub open spec fn action_bundle_view(bundle: JsonView, host: JsonView) -> JsonView {
    if !(bundle is Object) {
        JsonView::Null
    } else {
        let base = picked(bundle, bundle_fields());
        let with_missing = match as_array(field(bundle, "missing_inputs"@)) {
            Some(items) => if items.len() > 0 {
                with_field(base, "missing_inputs"@, JsonView::Array(items))
            } else {
                base
            },
            None => base,
        };
        let with_host = if consults_host(bundle) {
            with_field(with_missing, "host_current_thread_control"@, host)
        } else {
            with_missing
        };
        let flow = field(bundle, "operator_flow"@);
        if flow is Object && operator_flow_view(flow) != empty_object() {
            with_field(with_host, "operator_flow"@, operator_flow_view(flow))
        } else {
            with_host
        }
    }
}

proof fn lemma_flow_commands_object(flow: JsonView, fields: Seq<Seq<char>>)
    ensures
        flow_commands(flow, fields) is Object,
    decreases fields.len(),
{
    if fields.len() > 0 {
        lemma_flow_commands_object(flow, fields.drop_last());
    }
}

proof fn lemma_copy_present_object(target: JsonView, source: JsonView, fields: Seq<Seq<char>>)
    requires
        target is Object,
    ensures
        copy_present(target, source, fields) is Object,
    decreases fields.len(),
{
    if fields.len() > 0 {
        lemma_copy_present_object(target, source, fields.drop_last());
    }
}

fn flow_commands_exec(flow: &Json) -> (r: Json)
    ensures
        r@ == flow_commands(flow@, flow_command_fields()),
{
    let names: [&str; 4] = ["primary_command", "rotate_helper_command", "startup_command", "startup_after_recovery_command"];
    let ghost ks = flow_command_fields();
    let mut t = ObjectBuilder::new().build();
    assert(t@ =~= empty_object());
    let mut i: usize = 0;
    while i < 4
        invariant
            i <= 4,
            names@ == seq!["primary_command", "rotate_helper_command", "startup_command", "startup_after_recovery_command"],
            ks == flow_command_fields(),
            t@ == flow_commands(flow@, ks.take(i as int)),
        decreases 4 - i,
    {
        let f = names[i];
        proof {
            assert(ks.take(i + 1).drop_last() =~= ks.take(i as int));
            reveal_strlit("primary_command");
            reveal_strlit("rotate_helper_command");
            reveal_strlit("startup_command");
            reveal_strlit("startup_after_recovery_command");
            assert(ks[i as int] == f@);
            lemma_flow_commands_object(flow@, ks.take(i as int));
        }
        match get(flow, f) {
            Some(Json::Str(c)) => {
                let n = normalize_compact_startup_runtime_command(c.as_str());
                if n.as_str().unicode_len() > 0 {
                    t = set_field(t, f, Json::Str(n));
                }
            },
            _ => {},
        }
        i = i + 1;
    }
    assert(ks.take(4) =~= ks);
    t
}

fn operator_flow_exec(flow: &Json) -> (r: Json)
    ensures
        r@ == operator_flow_view(flow@),
        r@ is Object,
{
    let mut t = flow_commands_exec(flow);
    proof {
        lemma_flow_commands_object(flow@, flow_command_fields());
    }
    let fields: [&str; 3] = ["primary_command_kind", "wait_summary", "resume_after_recovery_summary"];
    copy_if_present(&mut t, flow, fields.as_slice());
    proof {
        assert(key_views(fields@) =~= flow_copy_fields());
        lemma_copy_present_object(flow_commands(flow@, flow_command_fields()), flow@, flow_copy_fields());
    }
    t
}

fn is_empty_object(j: &Json) -> (b: bool)
    requires
        j@ is Object,
    ensures
        b == (j@ == empty_object()),
{
    match j {
        Json::Object(es) => {
            proof {
                crate::json::lemma_entries_view(es@);
            }
            if es.len() == 0 {
                assert(crate::json::entries_view(es@) =~= Seq::<(Seq<char>, JsonView)>::empty());
            } else {
                assert(crate::json::entries_view(es@).len() > 0);
            }
            es.len() == 0
        },
        _ => false,
    }
}

/// The action bundle of a startup next action as the runtime artifact keeps it: its
/// version and readiness, its missing inputs when there are any, its host current-thread
/// control surface through `host_control_compaction`, and its operator flow with the
/// commands normalised.
pub fn compact_startup_runtime_startup_action_bundle<H: Fn(&Json) -> Json>(
    action_bundle: &Json,
    host_control_compaction: &H,
) -> (r: Json)
    requires
        forall|j: &Json| #[trigger] host_control_compaction.requires((j,)),
    ensures
        consults_host(action_bundle@) ==> exists|host: JsonView|
            #[trigger] host_compacted_as(
                *host_control_compaction,
                field(action_bundle@, "host_current_thread_control"@),
                host,
            ) && r@ == action_bundle_view(action_bundle@, host),
        !consults_host(action_bundle@) ==> r@ == action_bundle_view(action_bundle@, JsonView::Null),
{
    if !is_object(action_bundle) {
        return Json::Null;
    }
    let fields: [&str; 3] = ["bundle_version", "ready_for_automation", "preserves_return_obligation"];
    let mut t = pick_fields(action_bundle, fields.as_slice());
    proof {
        assert(key_views(fields@) =~= bundle_fields());
        lemma_picked_is_object(action_bundle@, bundle_fields());
    }
    match get(action_bundle, "missing_inputs") {
        Some(v) => match v {
            Json::Array(items) => {
                proof {
                    crate::json::lemma_items_view(items@);
                }
                if items.len() > 0 {
                    t = set_field(t, "missing_inputs", clone_json(v));
                }
            },
            _ => {},
        },
        None => {},
    }
    let ghost before_host = t@;
    let ghost mut host: JsonView = JsonView::Null;
    match get(action_bundle, "host_current_thread_control") {
        Some(surface) => {
            if is_object(surface) {
                let out = host_control_compaction(surface);
                assert(host_control_compaction.ensures((surface,), out));
                proof {
                    host = out@;
                    assert(host_compacted_as(*host_control_compaction, surface@, host));
                }
                t = set_field(t, "host_current_thread_control", out);
            }
        },
        None => {},
    }
    match get(action_bundle, "operator_flow") {
        Some(flow) => {
            if is_object(flow) {
                let of = operator_flow_exec(flow);
                if !is_empty_object(&of) {
                    t = set_field(t, "operator_flow", of);
                }
            }
        },
        None => {},
    }
    proof {
        assert(t@ == action_bundle_view(action_bundle@, host));
    }
    t
}

/// The fields of a startup next action that the runtime artifact keeps.
pub open spec fn runtime_next_action_fields() -> Seq<Seq<char>> {
    seq![
        "action_version"@,
        "action_kind"@,
        "blocking"@,
        "reason"@,
        "resume_state"@,
        "no_silent_drop"@,
        "headline"@,
        "next_step"@,
        "client_budget_status_label"@,
        "preserves_return_obligation"@,
        "required_task_set"@,
        "required_task_set_summary"@,
    ]
}

/// The fields of a startup next action that the command-line state view keeps.
pub open spec fn cli_next_action_fields() -> Seq<Seq<char>> {
    seq![
        "action_kind"@,
        "blocking"@,
        "reason"@,
        "resume_state"@,
        "no_silent_drop"@,
        "client_budget_status_label"@,
        "preserves_return_obligation"@,
    ]
}

/// A startup next action reduced to `fields`, with its action bundle compacted when
/// there is one.
pub open spec fn next_action_compacted(action: JsonView, fields: Seq<Seq<char>>, host: JsonView) -> JsonView {
    let base = picked(action, fields);
    let bundle = action_bundle_view(field(action, "action_bundle"@), host);
    if bundle == JsonView::Null {
        base
    } else {
        with_field(base, "action_bundle"@, bundle)
    }
}

/// Whether compacting the next action consults the host rule.
pub open spec fn action_consults_host(action: JsonView) -> bool {
    consults_host(field(action, "action_bundle"@))
}

fn field_ref<'a>(v: &'a Json, key: &str) -> (r: &'a Json)
    ensures
        r@ == field(v@, key@),
{
    match get(v, key) {
        Some(x) => x,
        None => &Json::Null,
    }
}

fn compact_next_action<H: Fn(&Json) -> Json>(
    action: &Json,
    fields: &[&str],
    host_control_compaction: &H,
) -> (r: Json)
    requires
        forall|j: &Json| #[trigger] host_control_compaction.requires((j,)),
    ensures
        action_consults_host(action@) ==> exists|host: JsonView|
            #[trigger] host_compacted_as(
                *host_control_compaction,
                field(field(action@, "action_bundle"@), "host_current_thread_control"@),
                host,
            ) && r@ == next_action_compacted(action@, key_views(fields@), host),
        !action_consults_host(action@) ==> r@ == next_action_compacted(
            action@,
            key_views(fields@),
            JsonView::Null,
        ),
{
    let mut t = pick_fields(action, fields);
    proof {
        lemma_picked_is_object(action@, key_views(fields@));
    }
    let bundle = compact_startup_runtime_startup_action_bundle(field_ref(action, "action_bundle"), host_control_compaction);
    let ghost host: JsonView = if action_consults_host(action@) {
        choose|h: JsonView|
            #[trigger] host_compacted_as(
                *host_control_compaction,
                field(field(action@, "action_bundle"@), "host_current_thread_control"@),
                h,
            ) && bundle@ == action_bundle_view(field(action@, "action_bundle"@), h)
    } else {
        JsonView::Null
    };
    if !matches!(bundle, Json::Null) {
        t = set_field(t, "action_bundle", bundle);
    }
    proof {
        assert(t@ == next_action_compacted(action@, key_views(fields@), host));
    }
    t
}

/// The startup next action as the runtime artifact keeps it.
pub fn compact_startup_runtime_startup_next_action<H: Fn(&Json) -> Json>(
    action: &Json,
    host_control_compaction: &H,
) -> (r: Json)
    requires
        forall|j: &Json| #[trigger] host_control_compaction.requires((j,)),
    ensures
        action_consults_host(action@) ==> exists|host: JsonView|
            #[trigger] host_compacted_as(
                *host_control_compaction,
                field(field(action@, "action_bundle"@), "host_current_thread_control"@),
                host,
            ) && r@ == next_action_compacted(action@, runtime_next_action_fields(), host),
        !action_consults_host(action@) ==> r@ == next_action_compacted(
            action@,
            runtime_next_action_fields(),
            JsonView::Null,
        ),
{
    let fields: [&str; 12] = [
        "action_version",
        "action_kind",
        "blocking",
        "reason",
        "resume_state",
        "no_silent_drop",
        "headline",
        "next_step",
        "client_budget_status_label",
        "preserves_return_obligation",
        "required_task_set",
        "required_task_set_summary",
    ];
    assert(key_views(fields@) =~= runtime_next_action_fields());
    compact_next_action(action, fields.as_slice(), host_control_compaction)
}

/// The startup next action as the command-line state view shows it.
pub fn compact_startup_state_cli_startup_next_action<H: Fn(&Json) -> Json>(
    action: &Json,
    host_control_compaction: &H,
) -> (r: Json)
    requires
        forall|j: &Json| #[trigger] host_control_compaction.requires((j,)),
    ensures
        action_consults_host(action@) ==> exists|host: JsonView|
            #[trigger] host_compacted_as(
                *host_control_compaction,
                field(field(action@, "action_bundle"@), "host_current_thread_control"@),
                host,
            ) && r@ == next_action_compacted(action@, cli_next_action_fields(), host),
        !action_consults_host(action@) ==> r@ == next_action_compacted(
            action@,
            cli_next_action_fields(),
            JsonView::Null,
        ),
{
    let fields: [&str; 7] = [
        "action_kind",
        "blocking",
        "reason",
        "resume_state",
        "no_silent_drop",
        "client_budget_status_label",
        "preserves_return_obligation",
    ];
    assert(key_views(fields@) =~= cli_next_action_fields());
    compact_next_action(action, fields.as_slice(), host_control_compaction)
}

/// The lineage fields the runtime artifact keeps as they are.
pub open spec fn lineage_fields() -> Seq<Seq<char>> {
    seq![
        "authoritative_event_id"@,
        "authoritative_event_kind"@,
        "authoritative_source_kind"@,
        "authoritative_local_path"@,
        "lineage_model_version"@,
    ]
}

/// The trimmed headline of the first authoritative node from `i` on that has one.
pub open spec fn authoritative_headline(nodes: Seq<JsonView>, i: int) -> Option<Seq<char>>
    decreases nodes.len() - i,
{
    if i < 0 || i >= nodes.len() {
        None
    } else if as_bool(field(nodes[i], "authoritative"@)) == Some(true) && crate::json::as_text(
        field(nodes[i], "headline"@),
    ) is Some {
        crate::json::as_text(field(nodes[i], "headline"@))
    } else {
        authoritative_headline(nodes, i + 1)
    }
}

/// A count written when the list under `key` has items.
pub open spec fn with_count(t: JsonView, source: JsonView, key: Seq<char>, count_key: Seq<char>) -> JsonView {
    match as_array(field(source, key)) {
        Some(items) => if items.len() > 0 {
            with_field(t, count_key, JsonView::Number(items.len() as int))
        } else {
            t
        },
        None => t,
    }
}

/// A working-state lineage as the runtime artifact keeps it: its authoritative event, the
/// number of nodes with the first authoritative headline, and the number of edges and of
/// supporting events.
pub open spec fn lineage_view(lineage: JsonView) -> JsonView {
    if !(lineage is Object) {
        JsonView::Null
    } else {
        let base = picked(lineage, lineage_fields());
        let with_nodes = match as_array(field(lineage, "nodes"@)) {
            Some(nodes) => if nodes.len() > 0 {
                let counted = with_field(base, "nodes_total"@, JsonView::Number(nodes.len() as int));
                match authoritative_headline(nodes, 0) {
                    Some(h) => with_field(counted, "authoritative_headline"@, JsonView::Str(h)),
                    None => counted,
                }
            } else {
                base
            },
            None => base,
        };
        with_count(
            with_count(with_nodes, lineage, "edges"@, "edges_total"@),
            lineage,
            "supporting_event_ids"@,
            "supporting_event_count"@,
        )
    }
}

fn authoritative_headline_exec<'a>(nodes: &'a Vec<Json>) -> (r: Option<&'a str>)
    ensures
        crate::answer::opt_view(r) == authoritative_headline(crate::json::items_view(nodes@), 0),
{
    proof {
        crate::json::lemma_items_view(nodes@);
    }
    let ghost iv = crate::json::items_view(nodes@);
    let mut i: usize = nodes.len();
    let mut found: Option<&'a str> = None;
    while i > 0
        invariant
            i <= nodes@.len(),
            iv == crate::json::items_view(nodes@),
            iv.len() == nodes@.len(),
            forall|j: int| 0 <= j < nodes@.len() ==> #[trigger] iv[j] == crate::json::json_view(nodes@[j]),
            crate::answer::opt_view(found) == authoritative_headline(iv, i as int),
        decreases i,
    {
        let idx = i - 1;
        assert(iv[idx as int] == crate::json::json_view(nodes@[idx as int]));
        let node = &nodes[idx];
        let auth = crate::json::get_bool(node, "authoritative");
        let headline = crate::json::get_text(node, "headline");
        if auth == Some(true) && headline.is_some() {
            found = headline;
        }
        i = idx;
    }
    found
}

/// The working-state lineage as the runtime artifact keeps it.
pub fn compact_startup_runtime_state_lineage(lineage: &Json) -> (r: Json)
    ensures
        r@ == lineage_view(lineage@),
{
    if !is_object(lineage) {
        return Json::Null;
    }
    let fields: [&str; 5] = [
        "authoritative_event_id",
        "authoritative_event_kind",
        "authoritative_source_kind",
        "authoritative_local_path",
        "lineage_model_version",
    ];
    let mut t = pick_fields(lineage, fields.as_slice());
    proof {
        assert(key_views(fields@) =~= lineage_fields());
        lemma_picked_is_object(lineage@, lineage_fields());
    }
    match get(lineage, "nodes") {
        Some(Json::Array(nodes)) => {
            proof {
                crate::json::lemma_items_view(nodes@);
            }
            if nodes.len() > 0 {
                t = set_field(t, "nodes_total", Json::Number(nodes.len() as i128));
                match authoritative_headline_exec(nodes) {
                    Some(h) => {
                        t = set_field(t, "authoritative_headline", crate::json::str_json(h));
                    },
                    None => {},
                }
            }
        },
        _ => {},
    }
    t = add_count(t, lineage, "edges", "edges_total");
    t = add_count(t, lineage, "supporting_event_ids", "supporting_event_count");
    t
}

fn add_count(t: Json, source: &Json, key: &str, count_key: &str) -> (r: Json)
    requires
        t@ is Object,
    ensures
        r@ == with_count(t@, source@, key@, count_key@),
        r@ is Object,
{
    match get(source, key) {
        Some(Json::Array(items)) => {
            proof {
                crate::json::lemma_items_view(items@);
            }
            if items.len() > 0 {
                return set_field(t, count_key, Json::Number(items.len() as i128));
            }
            t
        },
        _ => t,
    }
}

/// Whether the startup-summary rule may give `out` for the startup payload `payload`.
pub open spec fn summary_built_as<S: Fn(&Json) -> Json>(summarize: S, payload: JsonView, out: JsonView) -> bool {
    exists|j: &Json, o: Json| j@ == payload && o@ == out && #[trigger] summarize.ensures((j,), o)
}

/// The host current-thread control surface of a startup summary's next action.
pub open spec fn summary_host_surface(raw: JsonView) -> JsonView {
    field(field(field(raw, "startup_next_action"@), "action_bundle"@), "host_current_thread_control"@)
}

/// Whether building the artifact from a startup summary consults the host rule.
pub open spec fn summary_consults_host(raw: JsonView) -> bool {
    raw is Object && action_consults_host(field(raw, "startup_next_action"@))
}

/// The active lease the artifact describes: the summary's own when it is a non-empty
/// object, else the one of the chat-start restore.
pub open spec fn lease_source(payload: JsonView, raw: JsonView) -> JsonView {
    let lease = field(raw, "execctl_active_lease"@);
    if lease is Object && lease != empty_object() {
        lease
    } else {
        field(field(payload, "chat_start_restore"@), "execctl_active_lease"@)
    }
}

/// The startup summary as the artifact keeps it: with the execution gate, the next
/// action, the owed return task, the resume obligation, the active lease and the task
/// tree and ledger compacted, and then pruned.
#[verifier::opaque]
pub open spec fn artifact_summary(payload: JsonView, contract: JsonView, raw: JsonView, host: JsonView) -> JsonView {
    if !(raw is Object) {
        raw
    } else {
        let s1 = with_field(
            raw,
            "startup_execution_gate"@,
            picked(execution_gate_view(payload, contract), summary_gate_fields()),
        );
        let s2 = with_field(
            s1,
            "startup_next_action"@,
            next_action_compacted(field(raw, "startup_next_action"@), runtime_next_action_fields(), host),
        );
        let s3 = with_field(s2, "required_return_task"@, picked(field(raw, "required_return_task"@), return_task_fields()));
        let s4 = with_field(
            s3,
            "execctl_resume_obligation"@,
            picked(field(raw, "execctl_resume_obligation"@), obligation_fields()),
        );
        let s5 = with_field(s4, "execctl_active_lease"@, picked(lease_source(payload, raw), lease_fields()));
        let s6 = with_field(s5, "project_task_tree"@, task_tree_view(field(raw, "project_task_tree"@)));
        let s7 = with_field(s6, "project_task_ledger"@, task_ledger_view(field(raw, "project_task_ledger"@)));
        pruned_summary_view(s7)
    }
}

/// The reply execution gate of the compacted client-budget guard, when it is an object.
pub open spec fn artifact_reply_gate(guard: JsonView) -> JsonView {
    if field(guard, "reply_execution_gate"@) is Object {
        field(guard, "reply_execution_gate"@)
    } else {
        JsonView::Null
    }
}

/// The blocking reply contract: the raw guard's own, else that of the compacted reply
/// gate, when it is an object.
pub open spec fn artifact_blocking_contract(raw_guard: JsonView, reply_gate: JsonView) -> JsonView {
    let own = field(field(raw_guard, "reply_execution_gate"@), "blocking_reply_contract"@);
    if own is Object {
        own
    } else if field(reply_gate, "blocking_reply_contract"@) is Object {
        field(reply_gate, "blocking_reply_contract"@)
    } else {
        JsonView::Null
    }
}

/// The part of the chat-start restore the artifact repeats.
pub open spec fn artifact_chat_start(csr: JsonView) -> JsonView {
    JsonView::Object(
        seq![
            ("headline"@, opt_str_view(as_text(field(csr, "headline"@)))),
            ("next_step"@, opt_str_view(as_text(field(csr, "next_step"@)))),
            ("restore_confidence"@, field(csr, "restore_confidence"@)),
            ("prompt_text"@, field(csr, "prompt_text"@)),
        ],
    )
}

/// The startup runtime-state artifact of a startup payload. `raw` is the startup summary
/// the summary rule gave for the payload and `host` what the host rule gave for its next
/// action's current-thread control surface.
pub open spec fn runtime_artifact(
    repo_root: Seq<char>,
    payload: JsonView,
    generated_at_epoch_ms: u64,
    contract: JsonView,
    contract_sha256: Seq<char>,
    raw: JsonView,
    host: JsonView,
) -> JsonView {
    let summary = artifact_summary(payload, contract, raw, host);
    let gate = execution_gate_view(payload, contract);
    let raw_guard = field(field(payload, "working_state_restore"@), "client_budget_guard"@);
    let guard = runtime_budget_guard_view(raw_guard);
    let reply = artifact_reply_gate(guard);
    JsonView::Object(
        Seq::empty().push(("artifact_version"@, JsonView::Str("workspace-startup-runtime-state-v4"@)))
            .push(("repo_root"@, JsonView::Str(repo_root)))
            .push(("generated_at_epoch_ms"@, JsonView::Number(generated_at_epoch_ms as int)))
            .push(("source_tool"@, JsonView::Str("amai_continuity_startup"@)))
            .push(("source_summary_field"@, JsonView::Str("continuity_startup_summary"@)))
            .push(("startup_contract_sha256"@, JsonView::Str(contract_sha256)))
            .push(("continuity_startup_summary"@, summary))
            .push(("startup_execution_gate"@, gate))
            .push(("execctl_resume_state"@, field(summary, "execctl_resume_state"@)))
            .push(("execctl_resume_contract_summary"@, field(summary, "execctl_resume_contract_summary"@)))
            .push(("execctl_resume_obligation"@, field(summary, "execctl_resume_obligation"@)))
            .push(("startup_next_action"@, field(summary, "startup_next_action"@)))
            .push(("execctl_active_lease"@, field(summary, "execctl_active_lease"@)))
            .push(("required_return_task"@, field(summary, "required_return_task"@)))
            .push((
                "gate_semantics_consistent"@,
                opt_bool_view(gate_consistency(summary, gate, Some(gate_prompt_present(payload)), contract)),
            ))
            .push(("client_budget_guard"@, guard))
            .push(("reply_execution_gate"@, reply))
            .push(("blocking_reply_contract"@, artifact_blocking_contract(raw_guard, reply)))
            .push(("chat_start_restore"@, artifact_chat_start(field(payload, "chat_start_restore"@))))
            .push((
                "working_state_restore_lineage"@,
                lineage_view(field(field(payload, "working_state_restore"@), "state_lineage"@)),
            )),
    )
}

/// What the artifact is for a startup summary, whatever the host rule gave.
pub open spec fn artifact_for<H: Fn(&Json) -> Json>(
    r: JsonView,
    repo_root: Seq<char>,
    payload: JsonView,
    generated_at_epoch_ms: u64,
    contract: JsonView,
    contract_sha256: Seq<char>,
    raw: JsonView,
    host_rule: H,
) -> bool {
    if summary_consults_host(raw) {
        exists|host: JsonView| #[trigger] host_compacted_as(host_rule, summary_host_surface(raw), host)
            && r == runtime_artifact(repo_root, payload, generated_at_epoch_ms, contract, contract_sha256, raw, host)
    } else {
        r == runtime_artifact(repo_root, payload, generated_at_epoch_ms, contract, contract_sha256, raw, JsonView::Null)
    }
}

fn is_nonempty_object(j: &Json) -> (b: bool)
    ensures
        b == (j@ is Object && j@ != empty_object()),
{
    if is_object(j) {
        !is_empty_object(j)
    } else {
        false
    }
}

fn artifact_summary_exec<H: Fn(&Json) -> Json>(
    payload: &Json,
    contract: &Json,
    gate: &Json,
    raw: Json,
    host_control_compaction: &H,
) -> (r: (Json, Ghost<JsonView>))
    requires
        gate@ == execution_gate_view(payload@, contract@),
        forall|j: &Json| #[trigger] host_control_compaction.requires((j,)),
    ensures
        summary_consults_host(raw@) ==> host_compacted_as(*host_control_compaction, summary_host_surface(raw@), r.1@),
        !summary_consults_host(raw@) ==> r.1@ == JsonView::Null,
        r.0@ == artifact_summary(payload@, contract@, raw@, r.1@),
{
    reveal(artifact_summary);
    if !is_object(&raw) {
        return (raw, Ghost(JsonView::Null));
    }
    let ghost rv = raw@;
    let sg = compact_startup_runtime_summary_startup_execution_gate(gate);
    let na = compact_startup_runtime_startup_next_action(field_ref(&raw, "startup_next_action"), host_control_compaction);
    let ghost host: JsonView = if summary_consults_host(rv) {
        choose|h: JsonView|
            #[trigger] host_compacted_as(*host_control_compaction, summary_host_surface(rv), h) && na@
                == next_action_compacted(field(rv, "startup_next_action"@), runtime_next_action_fields(), h)
    } else {
        JsonView::Null
    };
    let rt = compact_startup_runtime_required_return_task(field_ref(&raw, "required_return_task"));
    let ob = compact_startup_runtime_execctl_resume_obligation(field_ref(&raw, "execctl_resume_obligation"));
    let own_lease = field_ref(&raw, "execctl_active_lease");
    let le = if is_nonempty_object(own_lease) {
        compact_startup_runtime_execctl_active_lease(own_lease)
    } else {
        compact_startup_runtime_execctl_active_lease(
            field_ref(field_ref(payload, "chat_start_restore"), "execctl_active_lease"),
        )
    };
    let tt = compact_project_task_tree_for_startup(field_ref(&raw, "project_task_tree"));
    let tl = compact_project_task_ledger_for_startup(field_ref(&raw, "project_task_ledger"));
    let mut s = set_field(raw, "startup_execution_gate", sg);
    s = set_field(s, "startup_next_action", na);
    s = set_field(s, "required_return_task", rt);
    s = set_field(s, "execctl_resume_obligation", ob);
    s = set_field(s, "execctl_active_lease", le);
    s = set_field(s, "project_task_tree", tt);
    s = set_field(s, "project_task_ledger", tl);
    prune_startup_runtime_summary(&mut s);
    (s, Ghost(host))
}

fn artifact_chat_start_exec(payload: &Json) -> (r: Json)
    ensures
        r@ == artifact_chat_start(field(payload@, "chat_start_restore"@)),
{
    let csr = field_ref(payload, "chat_start_restore");
    let mut b = ObjectBuilder::new();
    b.push("headline", opt_str_json(get_text(csr, "headline")));
    b.push("next_step", opt_str_json(get_text(csr, "next_step")));
    b.push("restore_confidence", get_cloned(csr, "restore_confidence"));
    b.push("prompt_text", get_cloned(csr, "prompt_text"));
    let ghost c = csr@;
    assert(b.view_entries() =~= seq![
        ("headline"@, opt_str_view(as_text(field(c, "headline"@)))),
        ("next_step"@, opt_str_view(as_text(field(c, "next_step"@)))),
        ("restore_confidence"@, field(c, "restore_confidence"@)),
        ("prompt_text"@, field(c, "prompt_text"@)),
    ]);
    b.build()
}

fn opt_bool_json(o: Option<bool>) -> (r: Json)
    ensures
        r@ == opt_bool_view(o),
{
    match o {
        Some(b) => Json::Bool(b),
        None => Json::Null,
    }
}

/// The startup runtime-state artifact of a startup payload, for the workspace at
/// `repo_root`, generated at `generated_at_epoch_ms`. `contract` is the project's startup
/// contract and `startup_contract_sha256` the digest it is recorded under;
/// `startup_summary` is the rule that derives the startup summary from the payload and
/// `host_control_compaction` the one that compacts a host current-thread control surface.
pub fn build_startup_runtime_state_artifact<S: Fn(&Json) -> Json, H: Fn(&Json) -> Json>(
    repo_root: &str,
    payload: &Json,
    generated_at_epoch_ms: u64,
    contract: &Json,
    startup_contract_sha256: &str,
    startup_summary: &S,
    host_control_compaction: &H,
) -> (r: Json)
    requires
        forall|j: &Json| #[trigger] startup_summary.requires((j,)),
        forall|j: &Json| #[trigger] host_control_compaction.requires((j,)),
    ensures
        exists|raw: JsonView|
            #[trigger] summary_built_as(*startup_summary, payload@, raw) && artifact_for(
                r@,
                repo_root@,
                payload@,
                generated_at_epoch_ms,
                contract@,
                startup_contract_sha256@,
                raw,
                *host_control_compaction,
            ),
{
    let gate = build_startup_execution_gate(payload, contract);
    let raw = startup_summary(payload);
    assert(startup_summary.ensures((payload,), raw));
    let ghost raw_v = raw@;
    assert(summary_built_as(*startup_summary, payload@, raw_v));
    let (summary, Ghost(host)) = artifact_summary_exec(payload, contract, &gate, raw, host_control_compaction);
    let prompt_present = gate_prompt_present_exec(payload);
    let consistency = evaluate_startup_execution_gate_consistency(&summary, &gate, Some(prompt_present), contract);
    let raw_guard = field_ref(field_ref(payload, "working_state_restore"), "client_budget_guard");
    let guard = compact_startup_runtime_client_budget_guard(raw_guard);
    let reply_ref = field_ref(&guard, "reply_execution_gate");
    let reply = if is_object(reply_ref) {
        clone_json(reply_ref)
    } else {
        Json::Null
    };
    let own_contract = field_ref(field_ref(raw_guard, "reply_execution_gate"), "blocking_reply_contract");
    let blocking = if is_object(own_contract) {
        clone_json(own_contract)
    } else {
        let from_reply = field_ref(&reply, "blocking_reply_contract");
        if is_object(from_reply) {
            clone_json(from_reply)
        } else {
            Json::Null
        }
    };
    let lineage = compact_startup_runtime_state_lineage(
        field_ref(field_ref(payload, "working_state_restore"), "state_lineage"),
    );
    let mut b = ObjectBuilder::new();
    b.push("artifact_version", crate::json::str_json(STARTUP_RUNTIME_STATE_ARTIFACT_VERSION));
    b.push("repo_root", crate::json::str_json(repo_root));
    b.push("generated_at_epoch_ms", Json::Number(generated_at_epoch_ms as i128));
    b.push("source_tool", crate::json::str_json("amai_continuity_startup"));
    b.push("source_summary_field", crate::json::str_json("continuity_startup_summary"));
    b.push("startup_contract_sha256", crate::json::str_json(startup_contract_sha256));
    let resume_state = get_cloned(&summary, "execctl_resume_state");
    let contract_summary = get_cloned(&summary, "execctl_resume_contract_summary");
    let obligation = get_cloned(&summary, "execctl_resume_obligation");
    let next_action = get_cloned(&summary, "startup_next_action");
    let lease = get_cloned(&summary, "execctl_active_lease");
    let return_task = get_cloned(&summary, "required_return_task");
    b.push("continuity_startup_summary", summary);
    b.push("startup_execution_gate", gate);
    b.push("execctl_resume_state", resume_state);
    b.push("execctl_resume_contract_summary", contract_summary);
    b.push("execctl_resume_obligation", obligation);
    b.push("startup_next_action", next_action);
    b.push("execctl_active_lease", lease);
    b.push("required_return_task", return_task);
    b.push("gate_semantics_consistent", opt_bool_json(consistency));
    b.push("client_budget_guard", guard);
    b.push("reply_execution_gate", reply);
    b.push("blocking_reply_contract", blocking);
    b.push("chat_start_restore", artifact_chat_start_exec(payload));
    b.push("working_state_restore_lineage", lineage);
    let r = b.build();
    proof {
        reveal_strlit("workspace-startup-runtime-state-v4");
        assert(r@ == runtime_artifact(
            repo_root@,
            payload@,
            generated_at_epoch_ms,
            contract@,
            startup_contract_sha256@,
            raw_v,
            host,
        ));
        if summary_consults_host(raw_v) {
            assert(host_compacted_as(*host_control_compaction, summary_host_surface(raw_v), host));
        }
        assert(artifact_for(
            r@,
            repo_root@,
            payload@,
            generated_at_epoch_ms,
            contract@,
            startup_contract_sha256@,
            raw_v,
            *host_control_compaction,
        ));
    }
    r
}

/// An optional text as JSON.
pub open spec fn opt_text_json(o: Option<String>) -> JsonView {
    crate::json::opt_str_view(opt_string_view(o))
}

/// The audit's own findings, in order, after `prefix`.
pub open spec fn audit_entries(prefix: Seq<(Seq<char>, JsonView)>, a: StartupRuntimeStateAudit) -> Seq<(Seq<char>, JsonView)> {
    prefix.push(("status"@, JsonView::Str(a.status@)))
        .push(("output_path"@, JsonView::Str(a.output_path@)))
        .push(("artifact_exists"@, JsonView::Bool(a.artifact_exists)))
        .push(("startup_contract_sha_matches_current_contract"@, opt_bool_view(a.startup_contract_sha_matches_current_contract)))
        .push(("source_summary_field_matches"@, opt_bool_view(a.source_summary_field_matches)))
        .push(("prompt_text_present"@, opt_bool_view(a.prompt_text_present)))
        .push(("startup_next_action_present"@, opt_bool_view(a.startup_next_action_present)))
        .push(("startup_execution_gate_present"@, opt_bool_view(a.startup_execution_gate_present)))
        .push(("required_return_task_field_present"@, opt_bool_view(a.required_return_task_field_present)))
        .push(("execctl_active_lease_field_present"@, opt_bool_view(a.execctl_active_lease_field_present)))
        .push(("project_task_tree_field_present"@, opt_bool_view(a.project_task_tree_field_present)))
        .push(("project_task_tree_summary_field_present"@, opt_bool_view(a.project_task_tree_summary_field_present)))
        .push(("project_task_ledger_field_present"@, opt_bool_view(a.project_task_ledger_field_present)))
        .push(("project_task_ledger_summary_field_present"@, opt_bool_view(a.project_task_ledger_summary_field_present)))
        .push(("resume_state"@, opt_text_json(a.resume_state)))
        .push(("action_kind"@, opt_text_json(a.action_kind)))
        .push(("lease_owner_state"@, opt_text_json(a.lease_owner_state)))
        .push(("must_follow_startup_next_action"@, opt_bool_view(a.must_follow_startup_next_action)))
        .push(("unrelated_work_allowed"@, opt_bool_view(a.unrelated_work_allowed)))
        .push(("must_read_prompt_text_before_reply"@, opt_bool_view(a.must_read_prompt_text_before_reply)))
        .push(("required_action_kind_when_resume_required"@, opt_text_json(a.required_action_kind_when_resume_required)))
        .push(("no_silent_drop"@, opt_bool_view(a.no_silent_drop)))
        .push(("artifact_gate_semantics_consistent_present"@, opt_bool_view(a.artifact_gate_semantics_consistent_present)))
        .push((
            "artifact_gate_semantics_consistent_matches_recomputed"@,
            opt_bool_view(a.artifact_gate_semantics_consistent_matches_recomputed),
        ))
        .push(("gate_semantics_consistent"@, opt_bool_view(a.gate_semantics_consistent)))
}

/// `p.continuity_startup_summary[key]`.
pub open spec fn summary_part(p: JsonView, key: Seq<char>) -> JsonView {
    field(field(p, "continuity_startup_summary"@), key)
}

/// What the artifact adds to the state view, after `prefix`; `host` is what the host
/// rule gave for the next action's current-thread control surface.
pub open spec fn artifact_entries(prefix: Seq<(Seq<char>, JsonView)>, p: JsonView, host: JsonView) -> Seq<(Seq<char>, JsonView)> {
    let guard = field(p, "client_budget_guard"@);
    prefix.push((
        "client_budget_guard"@,
        if guard is Object {
            picked(guard, budget_guard_fields())
        } else {
            JsonView::Null
        },
    ))
        .push(("reply_execution_gate"@, picked(field(p, "reply_execution_gate"@), cli_reply_gate_fields())))
        .push(("blocking_reply_contract"@, picked(field(p, "blocking_reply_contract"@), blocking_contract_fields())))
        .push(("startup_execution_gate"@, picked(field(p, "startup_execution_gate"@), cli_gate_fields())))
        .push((
            "startup_next_action"@,
            next_action_compacted(summary_part(p, "startup_next_action"@), cli_next_action_fields(), host),
        ))
        .push(("required_return_task"@, picked(summary_part(p, "required_return_task"@), cli_return_task_fields())))
        .push(("execctl_active_lease"@, picked(summary_part(p, "execctl_active_lease"@), lease_fields())))
        .push(("project_task_tree"@, summary_part(p, "project_task_tree"@)))
        .push(("project_task_ledger"@, summary_part(p, "project_task_ledger"@)))
}

/// Nothing from an artifact that is missing.
pub open spec fn missing_artifact_entries(prefix: Seq<(Seq<char>, JsonView)>) -> Seq<(Seq<char>, JsonView)> {
    prefix.push(("client_budget_guard"@, JsonView::Null))
        .push(("reply_execution_gate"@, JsonView::Null))
        .push(("blocking_reply_contract"@, JsonView::Null))
        .push(("startup_execution_gate"@, JsonView::Null))
        .push(("startup_next_action"@, JsonView::Null))
        .push(("required_return_task"@, JsonView::Null))
        .push(("execctl_active_lease"@, JsonView::Null))
        .push(("project_task_tree"@, JsonView::Null))
        .push(("project_task_ledger"@, JsonView::Null))
}

/// The startup runtime state as the command line shows it: the audit's findings, then
/// the compact parts of the artifact when there is one.
pub open spec fn audit_json_view(a: StartupRuntimeStateAudit, payload: Option<JsonView>, host: JsonView) -> JsonView {
    JsonView::Object(
        match payload {
            Some(p) => artifact_entries(audit_entries(Seq::empty(), a), p, host),
            None => missing_artifact_entries(audit_entries(Seq::empty(), a)),
        },
    )
}

/// Whether showing the artifact consults the host rule.
pub open spec fn audit_consults_host(payload: Option<JsonView>) -> bool {
    match payload {
        Some(p) => action_consults_host(summary_part(p, "startup_next_action"@)),
        None => false,
    }
}

pub open spec fn audit_host_surface(payload: Option<JsonView>) -> JsonView {
    match payload {
        Some(p) => field(field(summary_part(p, "startup_next_action"@), "action_bundle"@), "host_current_thread_control"@),
        None => JsonView::Null,
    }
}

fn opt_text_exec(o: &Option<String>) -> (r: Json)
    ensures
        r@ == opt_text_json(*o),
{
    match o {
        Some(t) => crate::json::str_json(t.as_str()),
        None => Json::Null,
    }
}

fn push_audit_entries(b: &mut ObjectBuilder, a: &StartupRuntimeStateAudit)
    ensures
        final(b).view_entries() == audit_entries(old(b).view_entries(), *a),
{
    b.push("status", crate::json::str_json(a.status.as_str()));
    b.push("output_path", crate::json::str_json(a.output_path.as_str()));
    b.push("artifact_exists", Json::Bool(a.artifact_exists));
    b.push("startup_contract_sha_matches_current_contract", opt_bool_json(a.startup_contract_sha_matches_current_contract));
    b.push("source_summary_field_matches", opt_bool_json(a.source_summary_field_matches));
    b.push("prompt_text_present", opt_bool_json(a.prompt_text_present));
    b.push("startup_next_action_present", opt_bool_json(a.startup_next_action_present));
    b.push("startup_execution_gate_present", opt_bool_json(a.startup_execution_gate_present));
    b.push("required_return_task_field_present", opt_bool_json(a.required_return_task_field_present));
    b.push("execctl_active_lease_field_present", opt_bool_json(a.execctl_active_lease_field_present));
    b.push("project_task_tree_field_present", opt_bool_json(a.project_task_tree_field_present));
    b.push("project_task_tree_summary_field_present", opt_bool_json(a.project_task_tree_summary_field_present));
    b.push("project_task_ledger_field_present", opt_bool_json(a.project_task_ledger_field_present));
    b.push("project_task_ledger_summary_field_present", opt_bool_json(a.project_task_ledger_summary_field_present));
    b.push("resume_state", opt_text_exec(&a.resume_state));
    b.push("action_kind", opt_text_exec(&a.action_kind));
    b.push("lease_owner_state", opt_text_exec(&a.lease_owner_state));
    b.push("must_follow_startup_next_action", opt_bool_json(a.must_follow_startup_next_action));
    b.push("unrelated_work_allowed", opt_bool_json(a.unrelated_work_allowed));
    b.push("must_read_prompt_text_before_reply", opt_bool_json(a.must_read_prompt_text_before_reply));
    b.push("required_action_kind_when_resume_required", opt_text_exec(&a.required_action_kind_when_resume_required));
    b.push("no_silent_drop", opt_bool_json(a.no_silent_drop));
    b.push("artifact_gate_semantics_consistent_present", opt_bool_json(a.artifact_gate_semantics_consistent_present));
    b.push(
        "artifact_gate_semantics_consistent_matches_recomputed",
        opt_bool_json(a.artifact_gate_semantics_consistent_matches_recomputed),
    );
    b.push("gate_semantics_consistent", opt_bool_json(a.gate_semantics_consistent));
}

/// The startup runtime state as the command line shows it.
pub fn startup_runtime_state_audit_json<H: Fn(&Json) -> Json>(
    audit: &StartupRuntimeStateAudit,
    artifact_payload: Option<&Json>,
    host_control_compaction: &H,
) -> (r: Json)
    requires
        forall|j: &Json| #[trigger] host_control_compaction.requires((j,)),
    ensures
        audit_consults_host(crate::direct_answer::opt_json(artifact_payload)) ==> exists|host: JsonView|
            #[trigger] host_compacted_as(
                *host_control_compaction,
                audit_host_surface(crate::direct_answer::opt_json(artifact_payload)),
                host,
            ) && r@ == audit_json_view(*audit, crate::direct_answer::opt_json(artifact_payload), host),
        !audit_consults_host(crate::direct_answer::opt_json(artifact_payload)) ==> r@ == audit_json_view(
            *audit,
            crate::direct_answer::opt_json(artifact_payload),
            JsonView::Null,
        ),
{
    let mut b = ObjectBuilder::new();
    push_audit_entries(&mut b, audit);
    let ghost head = b.view_entries();
    let ghost mut host: JsonView = JsonView::Null;
    match artifact_payload {
        Some(p) => {
            let summary = field_ref(p, "continuity_startup_summary");
            let next = compact_startup_state_cli_startup_next_action(field_ref(summary, "startup_next_action"), host_control_compaction);
            proof {
                if audit_consults_host(Some(p@)) {
                    host = choose|h: JsonView|
                        #[trigger] host_compacted_as(*host_control_compaction, audit_host_surface(Some(p@)), h) && next@
                            == next_action_compacted(summary_part(p@, "startup_next_action"@), cli_next_action_fields(), h);
                }
            }
            b.push("client_budget_guard", compact_startup_state_cli_client_budget_guard(field_ref(p, "client_budget_guard")));
            b.push("reply_execution_gate", compact_startup_state_cli_reply_execution_gate(field_ref(p, "reply_execution_gate")));
            b.push(
                "blocking_reply_contract",
                compact_startup_state_cli_blocking_reply_contract(field_ref(p, "blocking_reply_contract")),
            );
            b.push(
                "startup_execution_gate",
                compact_startup_state_cli_startup_execution_gate(field_ref(p, "startup_execution_gate")),
            );
            b.push("startup_next_action", next);
            b.push(
                "required_return_task",
                compact_startup_state_cli_required_return_task(field_ref(summary, "required_return_task")),
            );
            b.push(
                "execctl_active_lease",
                compact_startup_runtime_execctl_active_lease(field_ref(summary, "execctl_active_lease")),
            );
            b.push("project_task_tree", get_cloned(summary, "project_task_tree"));
            b.push("project_task_ledger", get_cloned(summary, "project_task_ledger"));
            assert(b.view_entries() == artifact_entries(head, p@, host));
        },
        None => {
            b.push("client_budget_guard", Json::Null);
            b.push("reply_execution_gate", Json::Null);
            b.push("blocking_reply_contract", Json::Null);
            b.push("startup_execution_gate", Json::Null);
            b.push("startup_next_action", Json::Null);
            b.push("required_return_task", Json::Null);
            b.push("execctl_active_lease", Json::Null);
            b.push("project_task_tree", Json::Null);
            b.push("project_task_ledger", Json::Null);
        },
    }
    let r = b.build();
    assert(r@ == audit_json_view(*audit, crate::direct_answer::opt_json(artifact_payload), host));
    r
}

/// The command-line JSON of the startup runtime state: the state view and a short audit
/// of it.
pub open spec fn state_cli_view(state: JsonView) -> JsonView {
    JsonView::Object(
        seq![
            ("startup_runtime_state"@, state),
            (
                "startup_runtime_state_audit"@,
                JsonView::Object(
                    seq![
                        ("status"@, field(state, "status"@)),
                        ("action_kind"@, field(state, "action_kind"@)),
                        ("lease_owner_state"@, field(state, "lease_owner_state"@)),
                        ("gate_semantics_consistent"@, field(state, "gate_semantics_consistent"@)),
                    ],
                ),
            ),
        ],
    )
}

pub fn build_startup_runtime_state_cli_json<H: Fn(&Json) -> Json>(
    audit: &StartupRuntimeStateAudit,
    artifact_payload: Option<&Json>,
    host_control_compaction: &H,
) -> (r: Json)
    requires
        forall|j: &Json| #[trigger] host_control_compaction.requires((j,)),
    ensures
        audit_consults_host(crate::direct_answer::opt_json(artifact_payload)) ==> exists|host: JsonView|
            #[trigger] host_compacted_as(
                *host_control_compaction,
                audit_host_surface(crate::direct_answer::opt_json(artifact_payload)),
                host,
            ) && r@ == state_cli_view(audit_json_view(*audit, crate::direct_answer::opt_json(artifact_payload), host)),
        !audit_consults_host(crate::direct_answer::opt_json(artifact_payload)) ==> r@ == state_cli_view(
            audit_json_view(*audit, crate::direct_answer::opt_json(artifact_payload), JsonView::Null),
        ),
{
    let state = startup_runtime_state_audit_json(audit, artifact_payload, host_control_compaction);
    let ghost sv = state@;
    let mut short = ObjectBuilder::new();
    short.push("status", get_cloned(&state, "status"));
    short.push("action_kind", get_cloned(&state, "action_kind"));
    short.push("lease_owner_state", get_cloned(&state, "lease_owner_state"));
    short.push("gate_semantics_consistent", get_cloned(&state, "gate_semantics_consistent"));
    assert(short.view_entries() =~= seq![
        ("status"@, field(sv, "status"@)),
        ("action_kind"@, field(sv, "action_kind"@)),
        ("lease_owner_state"@, field(sv, "lease_owner_state"@)),
        ("gate_semantics_consistent"@, field(sv, "gate_semantics_consistent"@)),
    ]);
    let short_json = short.build();
    let ghost shv = short_json@;
    let mut b = ObjectBuilder::new();
    b.push("startup_runtime_state", state);
    b.push("startup_runtime_state_audit", short_json);
    assert(b.view_entries() =~= seq![("startup_runtime_state"@, sv), ("startup_runtime_state_audit"@, shv)]);
    b.build()
}

/// A freshly built runtime artifact reads back as built: the audit finds the artifact
/// version, source and contract digest it was built with, recomputes from the recorded
/// summary, execution gate and prompt exactly the verdict the artifact records, and so
/// finds the recorded verdict in agreement whenever there is one.
pub proof fn lemma_artifact_verdict_recomputes(
    repo_root: Seq<char>,
    payload: JsonView,
    generated_at_epoch_ms: u64,
    contract: JsonView,
    contract_sha256: Seq<char>,
    raw: JsonView,
    host: JsonView,
)
    ensures
        ({
            let a = runtime_artifact(repo_root, payload, generated_at_epoch_ms, contract, contract_sha256, raw, host);
            let verdict = gate_consistency(
                artifact_summary(payload, contract, raw, host),
                execution_gate_view(payload, contract),
                Some(gate_prompt_present(payload)),
                contract,
            );
            &&& as_str(field(a, "artifact_version"@)) == Some("workspace-startup-runtime-state-v4"@)
            &&& as_str(field(a, "source_tool"@)) == Some("amai_continuity_startup"@)
            &&& as_str(field(a, "source_summary_field"@)) == Some("continuity_startup_summary"@)
            &&& as_str(field(a, "startup_contract_sha256"@)) == Some(contract_sha256)
            &&& recomputed_consistency(a, contract) == verdict
            &&& as_bool(field(a, "gate_semantics_consistent"@)) == verdict
            &&& recorded_matches(a, contract) == match verdict {
                Some(_) => Some(true),
                None => None,
            }
        }),
{
    let summary = artifact_summary(payload, contract, raw, host);
    let gate = execution_gate_view(payload, contract);
    let raw_guard = field(field(payload, "working_state_restore"@), "client_budget_guard"@);
    let guard = runtime_budget_guard_view(raw_guard);
    let reply = artifact_reply_gate(guard);
    let csr = artifact_chat_start(field(payload, "chat_start_restore"@));
    let es = artifact_chain(
        JsonView::Str("workspace-startup-runtime-state-v4"@),
        JsonView::Str(repo_root),
        JsonView::Number(generated_at_epoch_ms as int),
        JsonView::Str("amai_continuity_startup"@),
        JsonView::Str("continuity_startup_summary"@),
        JsonView::Str(contract_sha256),
        summary,
        gate,
        field(summary, "execctl_resume_state"@),
        field(summary, "execctl_resume_contract_summary"@),
        field(summary, "execctl_resume_obligation"@),
        field(summary, "startup_next_action"@),
        field(summary, "execctl_active_lease"@),
        field(summary, "required_return_task"@),
        opt_bool_view(gate_consistency(summary, gate, Some(gate_prompt_present(payload)), contract)),
        guard,
        reply,
        artifact_blocking_contract(raw_guard, reply),
        csr,
        lineage_view(field(field(payload, "working_state_restore"@), "state_lineage"@)),
    );
    assert(runtime_artifact(repo_root, payload, generated_at_epoch_ms, contract, contract_sha256, raw, host) == JsonView::Object(es));
    lemma_artifact_artifact_version(
        JsonView::Str("workspace-startup-runtime-state-v4"@),
        JsonView::Str(repo_root),
        JsonView::Number(generated_at_epoch_ms as int),
        JsonView::Str("amai_continuity_startup"@),
        JsonView::Str("continuity_startup_summary"@),
        JsonView::Str(contract_sha256),
        summary,
        gate,
        field(summary, "execctl_resume_state"@),
        field(summary, "execctl_resume_contract_summary"@),
        field(summary, "execctl_resume_obligation"@),
        field(summary, "startup_next_action"@),
        field(summary, "execctl_active_lease"@),
        field(summary, "required_return_task"@),
        opt_bool_view(gate_consistency(summary, gate, Some(gate_prompt_present(payload)), contract)),
        guard,
        reply,
        artifact_blocking_contract(raw_guard, reply),
        csr,
        lineage_view(field(field(payload, "working_state_restore"@), "state_lineage"@)),
    );
    lemma_artifact_source_tool(
        JsonView::Str("workspace-startup-runtime-state-v4"@),
        JsonView::Str(repo_root),
        JsonView::Number(generated_at_epoch_ms as int),
        JsonView::Str("amai_continuity_startup"@),
        JsonView::Str("continuity_startup_summary"@),
        JsonView::Str(contract_sha256),
        summary,
        gate,
        field(summary, "execctl_resume_state"@),
        field(summary, "execctl_resume_contract_summary"@),
        field(summary, "execctl_resume_obligation"@),
        field(summary, "startup_next_action"@),
        field(summary, "execctl_active_lease"@),
        field(summary, "required_return_task"@),
        opt_bool_view(gate_consistency(summary, gate, Some(gate_prompt_present(payload)), contract)),
        guard,
        reply,
        artifact_blocking_contract(raw_guard, reply),
        csr,
        lineage_view(field(field(payload, "working_state_restore"@), "state_lineage"@)),
    );
    lemma_artifact_source_summary_field(
        JsonView::Str("workspace-startup-runtime-state-v4"@),
        JsonView::Str(repo_root),
        JsonView::Number(generated_at_epoch_ms as int),
        JsonView::Str("amai_continuity_startup"@),
        JsonView::Str("continuity_startup_summary"@),
        JsonView::Str(contract_sha256),
        summary,
        gate,
        field(summary, "execctl_resume_state"@),
        field(summary, "execctl_resume_contract_summary"@),
        field(summary, "execctl_resume_obligation"@),
        field(summary, "startup_next_action"@),
        field(summary, "execctl_active_lease"@),
        field(summary, "required_return_task"@),
        opt_bool_view(gate_consistency(summary, gate, Some(gate_prompt_present(payload)), contract)),
        guard,
        reply,
        artifact_blocking_contract(raw_guard, reply),
        csr,
        lineage_view(field(field(payload, "working_state_restore"@), "state_lineage"@)),
    );
    lemma_artifact_startup_contract_sha256(
        JsonView::Str("workspace-startup-runtime-state-v4"@),
        JsonView::Str(repo_root),
        JsonView::Number(generated_at_epoch_ms as int),
        JsonView::Str("amai_continuity_startup"@),
        JsonView::Str("continuity_startup_summary"@),
        JsonView::Str(contract_sha256),
        summary,
        gate,
        field(summary, "execctl_resume_state"@),
        field(summary, "execctl_resume_contract_summary"@),
        field(summary, "execctl_resume_obligation"@),
        field(summary, "startup_next_action"@),
        field(summary, "execctl_active_lease"@),
        field(summary, "required_return_task"@),
        opt_bool_view(gate_consistency(summary, gate, Some(gate_prompt_present(payload)), contract)),
        guard,
        reply,
        artifact_blocking_contract(raw_guard, reply),
        csr,
        lineage_view(field(field(payload, "working_state_restore"@), "state_lineage"@)),
    );
    lemma_artifact_continuity_startup_summary(
        JsonView::Str("workspace-startup-runtime-state-v4"@),
        JsonView::Str(repo_root),
        JsonView::Number(generated_at_epoch_ms as int),
        JsonView::Str("amai_continuity_startup"@),
        JsonView::Str("continuity_startup_summary"@),
        JsonView::Str(contract_sha256),
        summary,
        gate,
        field(summary, "execctl_resume_state"@),
        field(summary, "execctl_resume_contract_summary"@),
        field(summary, "execctl_resume_obligation"@),
        field(summary, "startup_next_action"@),
        field(summary, "execctl_active_lease"@),
        field(summary, "required_return_task"@),
        opt_bool_view(gate_consistency(summary, gate, Some(gate_prompt_present(payload)), contract)),
        guard,
        reply,
        artifact_blocking_contract(raw_guard, reply),
        csr,
        lineage_view(field(field(payload, "working_state_restore"@), "state_lineage"@)),
    );
    lemma_artifact_startup_execution_gate(
        JsonView::Str("workspace-startup-runtime-state-v4"@),
        JsonView::Str(repo_root),
        JsonView::Number(generated_at_epoch_ms as int),
        JsonView::Str("amai_continuity_startup"@),
        JsonView::Str("continuity_startup_summary"@),
        JsonView::Str(contract_sha256),
        summary,
        gate,
        field(summary, "execctl_resume_state"@),
        field(summary, "execctl_resume_contract_summary"@),
        field(summary, "execctl_resume_obligation"@),
        field(summary, "startup_next_action"@),
        field(summary, "execctl_active_lease"@),
        field(summary, "required_return_task"@),
        opt_bool_view(gate_consistency(summary, gate, Some(gate_prompt_present(payload)), contract)),
        guard,
        reply,
        artifact_blocking_contract(raw_guard, reply),
        csr,
        lineage_view(field(field(payload, "working_state_restore"@), "state_lineage"@)),
    );
    lemma_artifact_gate_semantics_consistent(
        JsonView::Str("workspace-startup-runtime-state-v4"@),
        JsonView::Str(repo_root),
        JsonView::Number(generated_at_epoch_ms as int),
        JsonView::Str("amai_continuity_startup"@),
        JsonView::Str("continuity_startup_summary"@),
        JsonView::Str(contract_sha256),
        summary,
        gate,
        field(summary, "execctl_resume_state"@),
        field(summary, "execctl_resume_contract_summary"@),
        field(summary, "execctl_resume_obligation"@),
        field(summary, "startup_next_action"@),
        field(summary, "execctl_active_lease"@),
        field(summary, "required_return_task"@),
        opt_bool_view(gate_consistency(summary, gate, Some(gate_prompt_present(payload)), contract)),
        guard,
        reply,
        artifact_blocking_contract(raw_guard, reply),
        csr,
        lineage_view(field(field(payload, "working_state_restore"@), "state_lineage"@)),
    );
    lemma_artifact_chat_start_restore(
        JsonView::Str("workspace-startup-runtime-state-v4"@),
        JsonView::Str(repo_root),
        JsonView::Number(generated_at_epoch_ms as int),
        JsonView::Str("amai_continuity_startup"@),
        JsonView::Str("continuity_startup_summary"@),
        JsonView::Str(contract_sha256),
        summary,
        gate,
        field(summary, "execctl_resume_state"@),
        field(summary, "execctl_resume_contract_summary"@),
        field(summary, "execctl_resume_obligation"@),
        field(summary, "startup_next_action"@),
        field(summary, "execctl_active_lease"@),
        field(summary, "required_return_task"@),
        opt_bool_view(gate_consistency(summary, gate, Some(gate_prompt_present(payload)), contract)),
        guard,
        reply,
        artifact_blocking_contract(raw_guard, reply),
        csr,
        lineage_view(field(field(payload, "working_state_restore"@), "state_lineage"@)),
    );
    let c = field(payload, "chat_start_restore"@);
    reveal(gate_prompt_present);
    lemma_chat_start_lookup(
        opt_str_view(as_text(field(c, "headline"@))),
        opt_str_view(as_text(field(c, "next_step"@))),
        field(c, "restore_confidence"@),
        field(c, "prompt_text"@),
    );
}

/// The entries of a runtime artifact in their order, whatever their values.
pub open spec fn artifact_chain(v0: JsonView, v1: JsonView, v2: JsonView, v3: JsonView, v4: JsonView, v5: JsonView, v6: JsonView, v7: JsonView, v8: JsonView, v9: JsonView, v10: JsonView, v11: JsonView, v12: JsonView, v13: JsonView, v14: JsonView, v15: JsonView, v16: JsonView, v17: JsonView, v18: JsonView, v19: JsonView) -> Seq<(Seq<char>, JsonView)> {
    Seq::empty().push(("artifact_version"@, v0)).push(("repo_root"@, v1)).push(("generated_at_epoch_ms"@, v2)).push(("source_tool"@, v3)).push(("source_summary_field"@, v4)).push(("startup_contract_sha256"@, v5)).push(("continuity_startup_summary"@, v6)).push(("startup_execution_gate"@, v7)).push(("execctl_resume_state"@, v8)).push(("execctl_resume_contract_summary"@, v9)).push(("execctl_resume_obligation"@, v10)).push(("startup_next_action"@, v11)).push(("execctl_active_lease"@, v12)).push(("required_return_task"@, v13)).push(("gate_semantics_consistent"@, v14)).push(("client_budget_guard"@, v15)).push(("reply_execution_gate"@, v16)).push(("blocking_reply_contract"@, v17)).push(("chat_start_restore"@, v18)).push(("working_state_restore_lineage"@, v19))
}

proof fn lemma_artifact_artifact_version(v0: JsonView, v1: JsonView, v2: JsonView, v3: JsonView, v4: JsonView, v5: JsonView, v6: JsonView, v7: JsonView, v8: JsonView, v9: JsonView, v10: JsonView, v11: JsonView, v12: JsonView, v13: JsonView, v14: JsonView, v15: JsonView, v16: JsonView, v17: JsonView, v18: JsonView, v19: JsonView)
    ensures
        field(JsonView::Object(artifact_chain(v0, v1, v2, v3, v4, v5, v6, v7, v8, v9, v10, v11, v12, v13, v14, v15, v16, v17, v18, v19)), "artifact_version"@) == v0,
{
    let es = artifact_chain(v0, v1, v2, v3, v4, v5, v6, v7, v8, v9, v10, v11, v12, v13, v14, v15, v16, v17, v18, v19);
    reveal_strlit("artifact_version");
    assert(es.take(0) =~= Seq::<(Seq<char>, JsonView)>::empty());
    assert(es.take(1) =~= es.take(0).push(es[0]));
    lemma_lookup_push(es.take(0), es[0], "artifact_version"@);
    lemma_lookup_prefix(es.take(1), es, "artifact_version"@, 1);
    crate::json::lemma_entries_lookup_extend(es, "artifact_version"@, 1, 20);
}

proof fn lemma_artifact_source_tool(v0: JsonView, v1: JsonView, v2: JsonView, v3: JsonView, v4: JsonView, v5: JsonView, v6: JsonView, v7: JsonView, v8: JsonView, v9: JsonView, v10: JsonView, v11: JsonView, v12: JsonView, v13: JsonView, v14: JsonView, v15: JsonView, v16: JsonView, v17: JsonView, v18: JsonView, v19: JsonView)
    ensures
        field(JsonView::Object(artifact_chain(v0, v1, v2, v3, v4, v5, v6, v7, v8, v9, v10, v11, v12, v13, v14, v15, v16, v17, v18, v19)), "source_tool"@) == v3,
{
    let es = artifact_chain(v0, v1, v2, v3, v4, v5, v6, v7, v8, v9, v10, v11, v12, v13, v14, v15, v16, v17, v18, v19);
    reveal_strlit("source_tool");
    reveal_strlit("artifact_version");
    assert("artifact_version"@.len() != "source_tool"@.len());
    reveal_strlit("repo_root");
    assert("repo_root"@.len() != "source_tool"@.len());
    reveal_strlit("generated_at_epoch_ms");
    assert("generated_at_epoch_ms"@.len() != "source_tool"@.len());
    assert(es.take(0) =~= Seq::<(Seq<char>, JsonView)>::empty());
    assert(es.take(1) =~= es.take(0).push(es[0]));
    lemma_lookup_push(es.take(0), es[0], "source_tool"@);
    assert(es.take(2) =~= es.take(1).push(es[1]));
    lemma_lookup_push(es.take(1), es[1], "source_tool"@);
    assert(es.take(3) =~= es.take(2).push(es[2]));
    lemma_lookup_push(es.take(2), es[2], "source_tool"@);
    assert(es.take(4) =~= es.take(3).push(es[3]));
    lemma_lookup_push(es.take(3), es[3], "source_tool"@);
    lemma_lookup_prefix(es.take(4), es, "source_tool"@, 4);
    crate::json::lemma_entries_lookup_extend(es, "source_tool"@, 4, 20);
}

proof fn lemma_artifact_source_summary_field(v0: JsonView, v1: JsonView, v2: JsonView, v3: JsonView, v4: JsonView, v5: JsonView, v6: JsonView, v7: JsonView, v8: JsonView, v9: JsonView, v10: JsonView, v11: JsonView, v12: JsonView, v13: JsonView, v14: JsonView, v15: JsonView, v16: JsonView, v17: JsonView, v18: JsonView, v19: JsonView)
    ensures
        field(JsonView::Object(artifact_chain(v0, v1, v2, v3, v4, v5, v6, v7, v8, v9, v10, v11, v12, v13, v14, v15, v16, v17, v18, v19)), "source_summary_field"@) == v4,
{
    let es = artifact_chain(v0, v1, v2, v3, v4, v5, v6, v7, v8, v9, v10, v11, v12, v13, v14, v15, v16, v17, v18, v19);
    reveal_strlit("source_summary_field");
    reveal_strlit("artifact_version");
    assert("artifact_version"@.len() != "source_summary_field"@.len());
    reveal_strlit("repo_root");
    assert("repo_root"@.len() != "source_summary_field"@.len());
    reveal_strlit("generated_at_epoch_ms");
    assert("generated_at_epoch_ms"@.len() != "source_summary_field"@.len());
    reveal_strlit("source_tool");
    assert("source_tool"@.len() != "source_summary_field"@.len());
    assert(es.take(0) =~= Seq::<(Seq<char>, JsonView)>::empty());
    assert(es.take(1) =~= es.take(0).push(es[0]));
    lemma_lookup_push(es.take(0), es[0], "source_summary_field"@);
    assert(es.take(2) =~= es.take(1).push(es[1]));
    lemma_lookup_push(es.take(1), es[1], "source_summary_field"@);
    assert(es.take(3) =~= es.take(2).push(es[2]));
    lemma_lookup_push(es.take(2), es[2], "source_summary_field"@);
    assert(es.take(4) =~= es.take(3).push(es[3]));
    lemma_lookup_push(es.take(3), es[3], "source_summary_field"@);
    assert(es.take(5) =~= es.take(4).push(es[4]));
    lemma_lookup_push(es.take(4), es[4], "source_summary_field"@);
    lemma_lookup_prefix(es.take(5), es, "source_summary_field"@, 5);
    crate::json::lemma_entries_lookup_extend(es, "source_summary_field"@, 5, 20);
}

proof fn lemma_artifact_startup_contract_sha256(v0: JsonView, v1: JsonView, v2: JsonView, v3: JsonView, v4: JsonView, v5: JsonView, v6: JsonView, v7: JsonView, v8: JsonView, v9: JsonView, v10: JsonView, v11: JsonView, v12: JsonView, v13: JsonView, v14: JsonView, v15: JsonView, v16: JsonView, v17: JsonView, v18: JsonView, v19: JsonView)
    ensures
        field(JsonView::Object(artifact_chain(v0, v1, v2, v3, v4, v5, v6, v7, v8, v9, v10, v11, v12, v13, v14, v15, v16, v17, v18, v19)), "startup_contract_sha256"@) == v5,
{
    let es = artifact_chain(v0, v1, v2, v3, v4, v5, v6, v7, v8, v9, v10, v11, v12, v13, v14, v15, v16, v17, v18, v19);
    reveal_strlit("startup_contract_sha256");
    reveal_strlit("artifact_version");
    assert("artifact_version"@.len() != "startup_contract_sha256"@.len());
    reveal_strlit("repo_root");
    assert("repo_root"@.len() != "startup_contract_sha256"@.len());
    reveal_strlit("generated_at_epoch_ms");
    assert("generated_at_epoch_ms"@.len() != "startup_contract_sha256"@.len());
    reveal_strlit("source_tool");
    assert("source_tool"@.len() != "startup_contract_sha256"@.len());
    reveal_strlit("source_summary_field");
    assert("source_summary_field"@.len() != "startup_contract_sha256"@.len());
    assert(es.take(0) =~= Seq::<(Seq<char>, JsonView)>::empty());
    assert(es.take(1) =~= es.take(0).push(es[0]));
    lemma_lookup_push(es.take(0), es[0], "startup_contract_sha256"@);
    assert(es.take(2) =~= es.take(1).push(es[1]));
    lemma_lookup_push(es.take(1), es[1], "startup_contract_sha256"@);
    assert(es.take(3) =~= es.take(2).push(es[2]));
    lemma_lookup_push(es.take(2), es[2], "startup_contract_sha256"@);
    assert(es.take(4) =~= es.take(3).push(es[3]));
    lemma_lookup_push(es.take(3), es[3], "startup_contract_sha256"@);
    assert(es.take(5) =~= es.take(4).push(es[4]));
    lemma_lookup_push(es.take(4), es[4], "startup_contract_sha256"@);
    assert(es.take(6) =~= es.take(5).push(es[5]));
    lemma_lookup_push(es.take(5), es[5], "startup_contract_sha256"@);
    lemma_lookup_prefix(es.take(6), es, "startup_contract_sha256"@, 6);
    crate::json::lemma_entries_lookup_extend(es, "startup_contract_sha256"@, 6, 20);
}

proof fn lemma_artifact_continuity_startup_summary(v0: JsonView, v1: JsonView, v2: JsonView, v3: JsonView, v4: JsonView, v5: JsonView, v6: JsonView, v7: JsonView, v8: JsonView, v9: JsonView, v10: JsonView, v11: JsonView, v12: JsonView, v13: JsonView, v14: JsonView, v15: JsonView, v16: JsonView, v17: JsonView, v18: JsonView, v19: JsonView)
    ensures
        field(JsonView::Object(artifact_chain(v0, v1, v2, v3, v4, v5, v6, v7, v8, v9, v10, v11, v12, v13, v14, v15, v16, v17, v18, v19)), "continuity_startup_summary"@) == v6,
{
    let es = artifact_chain(v0, v1, v2, v3, v4, v5, v6, v7, v8, v9, v10, v11, v12, v13, v14, v15, v16, v17, v18, v19);
    reveal_strlit("continuity_startup_summary");
    reveal_strlit("artifact_version");
    assert("artifact_version"@.len() != "continuity_startup_summary"@.len());
    reveal_strlit("repo_root");
    assert("repo_root"@.len() != "continuity_startup_summary"@.len());
    reveal_strlit("generated_at_epoch_ms");
    assert("generated_at_epoch_ms"@.len() != "continuity_startup_summary"@.len());
    reveal_strlit("source_tool");
    assert("source_tool"@.len() != "continuity_startup_summary"@.len());
    reveal_strlit("source_summary_field");
    assert("source_summary_field"@.len() != "continuity_startup_summary"@.len());
    reveal_strlit("startup_contract_sha256");
    assert("startup_contract_sha256"@.len() != "continuity_startup_summary"@.len());
    assert(es.take(0) =~= Seq::<(Seq<char>, JsonView)>::empty());
    assert(es.take(1) =~= es.take(0).push(es[0]));
    lemma_lookup_push(es.take(0), es[0], "continuity_startup_summary"@);
    assert(es.take(2) =~= es.take(1).push(es[1]));
    lemma_lookup_push(es.take(1), es[1], "continuity_startup_summary"@);
    assert(es.take(3) =~= es.take(2).push(es[2]));
    lemma_lookup_push(es.take(2), es[2], "continuity_startup_summary"@);
    assert(es.take(4) =~= es.take(3).push(es[3]));
    lemma_lookup_push(es.take(3), es[3], "continuity_startup_summary"@);
    assert(es.take(5) =~= es.take(4).push(es[4]));
    lemma_lookup_push(es.take(4), es[4], "continuity_startup_summary"@);
    assert(es.take(6) =~= es.take(5).push(es[5]));
    lemma_lookup_push(es.take(5), es[5], "continuity_startup_summary"@);
    assert(es.take(7) =~= es.take(6).push(es[6]));
    lemma_lookup_push(es.take(6), es[6], "continuity_startup_summary"@);
    lemma_lookup_prefix(es.take(7), es, "continuity_startup_summary"@, 7);
    crate::json::lemma_entries_lookup_extend(es, "continuity_startup_summary"@, 7, 20);
}

proof fn lemma_artifact_startup_execution_gate(v0: JsonView, v1: JsonView, v2: JsonView, v3: JsonView, v4: JsonView, v5: JsonView, v6: JsonView, v7: JsonView, v8: JsonView, v9: JsonView, v10: JsonView, v11: JsonView, v12: JsonView, v13: JsonView, v14: JsonView, v15: JsonView, v16: JsonView, v17: JsonView, v18: JsonView, v19: JsonView)
    ensures
        field(JsonView::Object(artifact_chain(v0, v1, v2, v3, v4, v5, v6, v7, v8, v9, v10, v11, v12, v13, v14, v15, v16, v17, v18, v19)), "startup_execution_gate"@) == v7,
{
    let es = artifact_chain(v0, v1, v2, v3, v4, v5, v6, v7, v8, v9, v10, v11, v12, v13, v14, v15, v16, v17, v18, v19);
    reveal_strlit("startup_execution_gate");
    reveal_strlit("artifact_version");
    assert("artifact_version"@.len() != "startup_execution_gate"@.len());
    reveal_strlit("repo_root");
    assert("repo_root"@.len() != "startup_execution_gate"@.len());
    reveal_strlit("generated_at_epoch_ms");
    assert("generated_at_epoch_ms"@.len() != "startup_execution_gate"@.len());
    reveal_strlit("source_tool");
    assert("source_tool"@.len() != "startup_execution_gate"@.len());
    reveal_strlit("source_summary_field");
    assert("source_summary_field"@.len() != "startup_execution_gate"@.len());
    reveal_strlit("startup_contract_sha256");
    assert("startup_contract_sha256"@.len() != "startup_execution_gate"@.len());
    reveal_strlit("continuity_startup_summary");
    assert("continuity_startup_summary"@.len() != "startup_execution_gate"@.len());
    assert(es.take(0) =~= Seq::<(Seq<char>, JsonView)>::empty());
    assert(es.take(1) =~= es.take(0).push(es[0]));
    lemma_lookup_push(es.take(0), es[0], "startup_execution_gate"@);
    assert(es.take(2) =~= es.take(1).push(es[1]));
    lemma_lookup_push(es.take(1), es[1], "startup_execution_gate"@);
    assert(es.take(3) =~= es.take(2).push(es[2]));
    lemma_lookup_push(es.take(2), es[2], "startup_execution_gate"@);
    assert(es.take(4) =~= es.take(3).push(es[3]));
    lemma_lookup_push(es.take(3), es[3], "startup_execution_gate"@);
    assert(es.take(5) =~= es.take(4).push(es[4]));
    lemma_lookup_push(es.take(4), es[4], "startup_execution_gate"@);
    assert(es.take(6) =~= es.take(5).push(es[5]));
    lemma_lookup_push(es.take(5), es[5], "startup_execution_gate"@);
    assert(es.take(7) =~= es.take(6).push(es[6]));
    lemma_lookup_push(es.take(6), es[6], "startup_execution_gate"@);
    assert(es.take(8) =~= es.take(7).push(es[7]));
    lemma_lookup_push(es.take(7), es[7], "startup_execution_gate"@);
    lemma_lookup_prefix(es.take(8), es, "startup_execution_gate"@, 8);
    crate::json::lemma_entries_lookup_extend(es, "startup_execution_gate"@, 8, 20);
}

proof fn lemma_artifact_gate_semantics_consistent(v0: JsonView, v1: JsonView, v2: JsonView, v3: JsonView, v4: JsonView, v5: JsonView, v6: JsonView, v7: JsonView, v8: JsonView, v9: JsonView, v10: JsonView, v11: JsonView, v12: JsonView, v13: JsonView, v14: JsonView, v15: JsonView, v16: JsonView, v17: JsonView, v18: JsonView, v19: JsonView)
    ensures
        field(JsonView::Object(artifact_chain(v0, v1, v2, v3, v4, v5, v6, v7, v8, v9, v10, v11, v12, v13, v14, v15, v16, v17, v18, v19)), "gate_semantics_consistent"@) == v14,
{
    let es = artifact_chain(v0, v1, v2, v3, v4, v5, v6, v7, v8, v9, v10, v11, v12, v13, v14, v15, v16, v17, v18, v19);
    reveal_strlit("gate_semantics_consistent");
    reveal_strlit("artifact_version");
    assert("artifact_version"@.len() != "gate_semantics_consistent"@.len());
    reveal_strlit("repo_root");
    assert("repo_root"@.len() != "gate_semantics_consistent"@.len());
    reveal_strlit("generated_at_epoch_ms");
    assert("generated_at_epoch_ms"@.len() != "gate_semantics_consistent"@.len());
    reveal_strlit("source_tool");
    assert("source_tool"@.len() != "gate_semantics_consistent"@.len());
    reveal_strlit("source_summary_field");
    assert("source_summary_field"@.len() != "gate_semantics_consistent"@.len());
    reveal_strlit("startup_contract_sha256");
    assert("startup_contract_sha256"@.len() != "gate_semantics_consistent"@.len());
    reveal_strlit("continuity_startup_summary");
    assert("continuity_startup_summary"@.len() != "gate_semantics_consistent"@.len());
    reveal_strlit("startup_execution_gate");
    assert("startup_execution_gate"@.len() != "gate_semantics_consistent"@.len());
    reveal_strlit("execctl_resume_state");
    assert("execctl_resume_state"@.len() != "gate_semantics_consistent"@.len());
    reveal_strlit("execctl_resume_contract_summary");
    assert("execctl_resume_contract_summary"@.len() != "gate_semantics_consistent"@.len());
    reveal_strlit("execctl_resume_obligation");
    assert("execctl_resume_obligation"@[0] != "gate_semantics_consistent"@[0]);
    reveal_strlit("startup_next_action");
    assert("startup_next_action"@.len() != "gate_semantics_consistent"@.len());
    reveal_strlit("execctl_active_lease");
    assert("execctl_active_lease"@.len() != "gate_semantics_consistent"@.len());
    reveal_strlit("required_return_task");
    assert("required_return_task"@.len() != "gate_semantics_consistent"@.len());
    assert(es.take(0) =~= Seq::<(Seq<char>, JsonView)>::empty());
    assert(es.take(1) =~= es.take(0).push(es[0]));
    lemma_lookup_push(es.take(0), es[0], "gate_semantics_consistent"@);
    assert(es.take(2) =~= es.take(1).push(es[1]));
    lemma_lookup_push(es.take(1), es[1], "gate_semantics_consistent"@);
    assert(es.take(3) =~= es.take(2).push(es[2]));
    lemma_lookup_push(es.take(2), es[2], "gate_semantics_consistent"@);
    assert(es.take(4) =~= es.take(3).push(es[3]));
    lemma_lookup_push(es.take(3), es[3], "gate_semantics_consistent"@);
    assert(es.take(5) =~= es.take(4).push(es[4]));
    lemma_lookup_push(es.take(4), es[4], "gate_semantics_consistent"@);
    assert(es.take(6) =~= es.take(5).push(es[5]));
    lemma_lookup_push(es.take(5), es[5], "gate_semantics_consistent"@);
    assert(es.take(7) =~= es.take(6).push(es[6]));
    lemma_lookup_push(es.take(6), es[6], "gate_semantics_consistent"@);
    assert(es.take(8) =~= es.take(7).push(es[7]));
    lemma_lookup_push(es.take(7), es[7], "gate_semantics_consistent"@);
    assert(es.take(9) =~= es.take(8).push(es[8]));
    lemma_lookup_push(es.take(8), es[8], "gate_semantics_consistent"@);
    assert(es.take(10) =~= es.take(9).push(es[9]));
    lemma_lookup_push(es.take(9), es[9], "gate_semantics_consistent"@);
    assert(es.take(11) =~= es.take(10).push(es[10]));
    lemma_lookup_push(es.take(10), es[10], "gate_semantics_consistent"@);
    assert(es.take(12) =~= es.take(11).push(es[11]));
    lemma_lookup_push(es.take(11), es[11], "gate_semantics_consistent"@);
    assert(es.take(13) =~= es.take(12).push(es[12]));
    lemma_lookup_push(es.take(12), es[12], "gate_semantics_consistent"@);
    assert(es.take(14) =~= es.take(13).push(es[13]));
    lemma_lookup_push(es.take(13), es[13], "gate_semantics_consistent"@);
    assert(es.take(15) =~= es.take(14).push(es[14]));
    lemma_lookup_push(es.take(14), es[14], "gate_semantics_consistent"@);
    lemma_lookup_prefix(es.take(15), es, "gate_semantics_consistent"@, 15);
    crate::json::lemma_entries_lookup_extend(es, "gate_semantics_consistent"@, 15, 20);
}

proof fn lemma_artifact_chat_start_restore(v0: JsonView, v1: JsonView, v2: JsonView, v3: JsonView, v4: JsonView, v5: JsonView, v6: JsonView, v7: JsonView, v8: JsonView, v9: JsonView, v10: JsonView, v11: JsonView, v12: JsonView, v13: JsonView, v14: JsonView, v15: JsonView, v16: JsonView, v17: JsonView, v18: JsonView, v19: JsonView)
    ensures
        field(JsonView::Object(artifact_chain(v0, v1, v2, v3, v4, v5, v6, v7, v8, v9, v10, v11, v12, v13, v14, v15, v16, v17, v18, v19)), "chat_start_restore"@) == v18,
{
    let es = artifact_chain(v0, v1, v2, v3, v4, v5, v6, v7, v8, v9, v10, v11, v12, v13, v14, v15, v16, v17, v18, v19);
    reveal_strlit("chat_start_restore");
    reveal_strlit("artifact_version");
    assert("artifact_version"@.len() != "chat_start_restore"@.len());
    reveal_strlit("repo_root");
    assert("repo_root"@.len() != "chat_start_restore"@.len());
    reveal_strlit("generated_at_epoch_ms");
    assert("generated_at_epoch_ms"@.len() != "chat_start_restore"@.len());
    reveal_strlit("source_tool");
    assert("source_tool"@.len() != "chat_start_restore"@.len());
    reveal_strlit("source_summary_field");
    assert("source_summary_field"@.len() != "chat_start_restore"@.len());
    reveal_strlit("startup_contract_sha256");
    assert("startup_contract_sha256"@.len() != "chat_start_restore"@.len());
    reveal_strlit("continuity_startup_summary");
    assert("continuity_startup_summary"@.len() != "chat_start_restore"@.len());
    reveal_strlit("startup_execution_gate");
    assert("startup_execution_gate"@.len() != "chat_start_restore"@.len());
    reveal_strlit("execctl_resume_state");
    assert("execctl_resume_state"@.len() != "chat_start_restore"@.len());
    reveal_strlit("execctl_resume_contract_summary");
    assert("execctl_resume_contract_summary"@.len() != "chat_start_restore"@.len());
    reveal_strlit("execctl_resume_obligation");
    assert("execctl_resume_obligation"@.len() != "chat_start_restore"@.len());
    reveal_strlit("startup_next_action");
    assert("startup_next_action"@.len() != "chat_start_restore"@.len());
    reveal_strlit("execctl_active_lease");
    assert("execctl_active_lease"@.len() != "chat_start_restore"@.len());
    reveal_strlit("required_return_task");
    assert("required_return_task"@.len() != "chat_start_restore"@.len());
    reveal_strlit("gate_semantics_consistent");
    assert("gate_semantics_consistent"@.len() != "chat_start_restore"@.len());
    reveal_strlit("client_budget_guard");
    assert("client_budget_guard"@.len() != "chat_start_restore"@.len());
    reveal_strlit("reply_execution_gate");
    assert("reply_execution_gate"@.len() != "chat_start_restore"@.len());
    reveal_strlit("blocking_reply_contract");
    assert("blocking_reply_contract"@.len() != "chat_start_restore"@.len());
    assert(es.take(0) =~= Seq::<(Seq<char>, JsonView)>::empty());
    assert(es.take(1) =~= es.take(0).push(es[0]));
    lemma_lookup_push(es.take(0), es[0], "chat_start_restore"@);
    assert(es.take(2) =~= es.take(1).push(es[1]));
    lemma_lookup_push(es.take(1), es[1], "chat_start_restore"@);
    assert(es.take(3) =~= es.take(2).push(es[2]));
    lemma_lookup_push(es.take(2), es[2], "chat_start_restore"@);
    assert(es.take(4) =~= es.take(3).push(es[3]));
    lemma_lookup_push(es.take(3), es[3], "chat_start_restore"@);
    assert(es.take(5) =~= es.take(4).push(es[4]));
    lemma_lookup_push(es.take(4), es[4], "chat_start_restore"@);
    assert(es.take(6) =~= es.take(5).push(es[5]));
    lemma_lookup_push(es.take(5), es[5], "chat_start_restore"@);
    assert(es.take(7) =~= es.take(6).push(es[6]));
    lemma_lookup_push(es.take(6), es[6], "chat_start_restore"@);
    assert(es.take(8) =~= es.take(7).push(es[7]));
    lemma_lookup_push(es.take(7), es[7], "chat_start_restore"@);
    assert(es.take(9) =~= es.take(8).push(es[8]));
    lemma_lookup_push(es.take(8), es[8], "chat_start_restore"@);
    assert(es.take(10) =~= es.take(9).push(es[9]));
    lemma_lookup_push(es.take(9), es[9], "chat_start_restore"@);
    assert(es.take(11) =~= es.take(10).push(es[10]));
    lemma_lookup_push(es.take(10), es[10], "chat_start_restore"@);
    assert(es.take(12) =~= es.take(11).push(es[11]));
    lemma_lookup_push(es.take(11), es[11], "chat_start_restore"@);
    assert(es.take(13) =~= es.take(12).push(es[12]));
    lemma_lookup_push(es.take(12), es[12], "chat_start_restore"@);
    assert(es.take(14) =~= es.take(13).push(es[13]));
    lemma_lookup_push(es.take(13), es[13], "chat_start_restore"@);
    assert(es.take(15) =~= es.take(14).push(es[14]));
    lemma_lookup_push(es.take(14), es[14], "chat_start_restore"@);
    assert(es.take(16) =~= es.take(15).push(es[15]));
    lemma_lookup_push(es.take(15), es[15], "chat_start_restore"@);
    assert(es.take(17) =~= es.take(16).push(es[16]));
    lemma_lookup_push(es.take(16), es[16], "chat_start_restore"@);
    assert(es.take(18) =~= es.take(17).push(es[17]));
    lemma_lookup_push(es.take(17), es[17], "chat_start_restore"@);
    assert(es.take(19) =~= es.take(18).push(es[18]));
    lemma_lookup_push(es.take(18), es[18], "chat_start_restore"@);
    lemma_lookup_prefix(es.take(19), es, "chat_start_restore"@, 19);
    crate::json::lemma_entries_lookup_extend(es, "chat_start_restore"@, 19, 20);
}

/// Reading the repeated chat-start restore back by key.
proof fn lemma_chat_start_lookup(h: JsonView, n: JsonView, c: JsonView, p: JsonView)
    ensures
        field(JsonView::Object(seq![("headline"@, h), ("next_step"@, n), ("restore_confidence"@, c), ("prompt_text"@, p)]), "prompt_text"@) == p,
{
    let es = seq![("headline"@, h), ("next_step"@, n), ("restore_confidence"@, c), ("prompt_text"@, p)];
    reveal_strlit("headline");
    reveal_strlit("next_step");
    reveal_strlit("restore_confidence");
    reveal_strlit("prompt_text");
    assert("headline"@.len() != "prompt_text"@.len());
    assert("next_step"@.len() != "prompt_text"@.len());
    assert("restore_confidence"@.len() != "prompt_text"@.len());
    assert(es.take(1) =~= es.take(0).push(es[0]));
    assert(es.take(2) =~= es.take(1).push(es[1]));
    assert(es.take(3) =~= es.take(2).push(es[2]));
    assert(es.take(4) =~= es.take(3).push(es[3]));
    assert(es.take(4) =~= es);
    assert(es.take(0) =~= Seq::<(Seq<char>, JsonView)>::empty());
    lemma_lookup_push(es.take(0), es[0], "prompt_text"@);
    lemma_lookup_push(es.take(1), es[1], "prompt_text"@);
    lemma_lookup_push(es.take(2), es[2], "prompt_text"@);
    lemma_lookup_push(es.take(3), es[3], "prompt_text"@);
}

proof fn lemma_lookup_prefix(s1: Seq<(Seq<char>, JsonView)>, s2: Seq<(Seq<char>, JsonView)>, key: Seq<char>, n: int)
    requires
        0 <= n <= s1.len(),
        n <= s2.len(),
        forall|i: int| 0 <= i < n ==> s1[i] == s2[i],
    ensures
        crate::json::entries_lookup(s1, key, n) == crate::json::entries_lookup(s2, key, n),
    decreases n,
{
    if n > 0 {
        lemma_lookup_prefix(s1, s2, key, n - 1);
    }
}

/// Looking a key up after one more entry: the earlier entries first, then the new one.
proof fn lemma_lookup_push(p: Seq<(Seq<char>, JsonView)>, e: (Seq<char>, JsonView), key: Seq<char>)
    ensures
        crate::json::entries_lookup(p.push(e), key, (p.len() + 1) as int) == match crate::json::entries_lookup(
            p,
            key,
            p.len() as int,
        ) {
            Some(v) => Some(v),
            None => if e.0 == key {
                Some(e.1)
            } else {
                None
            },
        },
{
    lemma_lookup_prefix(p, p.push(e), key, p.len() as int);
}

} // verus!
