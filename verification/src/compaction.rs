//! Compact projections of startup and compact-chat payloads: each keeps a fixed list of
//! fields (dropping those that are `null` or missing), replaces bulky collections by
//! their counts, and marks what it summarised.
use vstd::prelude::*;
use crate::json::{
    as_array, as_bool, as_str, clone_json, contains_key, copy_if_present, copy_present, field,
    get, get_bool, get_cloned, get_str, has_key, is_object, items_view, key_views,
    lemma_copy_present_reads, lemma_items_view, lemma_with_field_reads, remove_key, set_field,
    settable, with_field, without_key, Json, JsonView, ObjectBuilder,
};

verus! {

/// An object without entries.
pub open spec fn empty_object() -> JsonView {
    JsonView::Object(Seq::empty())
}

/// The listed fields of `source` that are not `null`, in a new object.
pub open spec fn picked(source: JsonView, fields: Seq<Seq<char>>) -> JsonView {
    copy_present(empty_object(), source, fields)
}

/// The listed fields of `source` that are not `null`, in a new object.
pub fn pick_fields(source: &Json, fields: &[&str]) -> (r: Json)
    ensures
        r@ == picked(source@, key_views(fields@)),
{
    let mut t = ObjectBuilder::new().build();
    copy_if_present(&mut t, source, fields);
    t
}

/// A picked object is an object.
pub proof fn lemma_picked_is_object(source: JsonView, fields: Seq<Seq<char>>)
    ensures
        picked(source, fields) is Object,
    decreases fields.len(),
{
    if fields.len() > 0 {
        lemma_picked_is_object(source, fields.drop_last());
        let t = copy_present(empty_object(), source, fields.drop_last());
        let f = fields.last();
        if field(source, f) != JsonView::Null {
            lemma_with_field_reads(t, f, field(source, f), f);
        }
    }
}

/// A projection keeps exactly the listed fields the source holds: a listed field reads
/// as in the source, and any other key reads as missing.
pub proof fn lemma_picked_reads(source: JsonView, fields: Seq<Seq<char>>, key: Seq<char>)
    ensures
        field(picked(source, fields), key) == if fields.contains(key) {
            field(source, key)
        } else {
            JsonView::Null
        },
{
    lemma_copy_present_reads(empty_object(), source, fields, key);
    assert(crate::json::entries_lookup(Seq::<(Seq<char>, JsonView)>::empty(), key, 0) is None);
}

pub open spec fn budget_guard_fields() -> Seq<Seq<char>> {
    seq!["status_label"@, "client_budget_target_percent"@]
}

pub open spec fn cli_reply_gate_fields() -> Seq<Seq<char>> {
    seq![
        "action_kind"@,
        "blocking"@,
        "must_rotate_before_reply"@,
        "must_wait_for_budget_recovery_before_reply"@,
        "reply_budget_mode"@,
        "reply_prefix"@,
    ]
}

pub open spec fn summary_gate_fields() -> Seq<Seq<char>> {
    seq![
        "gate_version"@,
        "action_kind"@,
        "blocking"@,
        "resume_state"@,
        "required_return_task_present"@,
        "required_task_set_count"@,
        "required_task_set_present"@,
        "must_preserve_required_task_set"@,
        "lease_owner_state"@,
        "must_follow_startup_next_action"@,
        "unrelated_work_allowed"@,
        "must_read_prompt_text_before_reply"@,
        "required_action_kind_when_resume_required"@,
        "no_silent_drop"@,
    ]
}

pub open spec fn cli_gate_fields() -> Seq<Seq<char>> {
    seq![
        "action_kind"@,
        "blocking"@,
        "required_task_set_count"@,
        "required_task_set_present"@,
        "must_preserve_required_task_set"@,
        "must_follow_startup_next_action"@,
        "unrelated_work_allowed"@,
        "must_read_prompt_text_before_reply"@,
        "required_action_kind_when_resume_required"@,
        "no_silent_drop"@,
    ]
}

pub open spec fn return_task_fields() -> Seq<Seq<char>> {
    seq!["headline"@, "next_step"@, "resume_state"@, "task_id"@, "task_role"@, "task_state"@]
}

pub open spec fn lease_fields() -> Seq<Seq<char>> {
    seq![
        "lease_version"@,
        "lease_owner_state"@,
        "lease_state"@,
        "headline"@,
        "next_step"@,
        "storage_lane"@,
    ]
}

pub open spec fn obligation_fields() -> Seq<Seq<char>> {
    seq![
        "resume_state"@,
        "no_silent_drop"@,
        "pending_return_count"@,
        "required_return_headline"@,
        "required_return_next_step"@,
        "required_task_set_count"@,
        "required_task_set"@,
        "required_task_set_summary"@,
    ]
}

pub open spec fn blocking_contract_fields() -> Seq<Seq<char>> {
    seq![
        "active"@,
        "contract_version"@,
        "response_kind"@,
        "max_sentences"@,
        "must_avoid_substantive_work"@,
        "must_use_action_bundle_operator_flow"@,
    ]
}

pub open spec fn cli_return_task_fields() -> Seq<Seq<char>> {
    seq!["headline"@, "next_step"@, "resume_state"@]
}

pub open spec fn thread_control_fields() -> Seq<Seq<char>> {
    seq!["command_id"@, "button_label"@, "control_kind"@, "summary"@]
}

pub open spec fn external_launch_fields() -> Seq<Seq<char>> {
    seq!["uri"@, "platform_launch_command"@]
}

pub open spec fn handoff_fields() -> Seq<Seq<char>> {
    seq!["headline"@, "next_step"@, "local_path"@, "relative_path"@]
}

pub open spec fn client_surface_fields() -> Seq<Seq<char>> {
    seq![
        "client_key"@,
        "display_name"@,
        "startup_instruction_path"@,
        "startup_instruction_mode"@,
        "fresh_chat_assist_summary"@,
        "delivery_surface_assist_summary"@,
        "reconnect_shell_command"@,
        "reconnect_bootstrap_command"@,
    ]
}

/// The budget guard's own fields, kept for the state CLI.
pub fn compact_startup_state_cli_client_budget_guard(guard: &Json) -> (r: Json)
    ensures
        r@ == if guard@ is Object {
            picked(guard@, budget_guard_fields())
        } else {
            JsonView::Null
        },
{
    if !is_object(guard) {
        return Json::Null;
    }
    let fields: [&str; 2] = ["status_label", "client_budget_target_percent"];
    assert(key_views(fields@) =~= budget_guard_fields());
    pick_fields(guard, fields.as_slice())
}

pub fn compact_startup_state_cli_reply_execution_gate(reply_execution_gate: &Json) -> (r: Json)
    ensures
        r@ == picked(reply_execution_gate@, cli_reply_gate_fields()),
{
    let fields: [&str; 6] = [
        "action_kind",
        "blocking",
        "must_rotate_before_reply",
        "must_wait_for_budget_recovery_before_reply",
        "reply_budget_mode",
        "reply_prefix",
    ];
    assert(key_views(fields@) =~= cli_reply_gate_fields());
    pick_fields(reply_execution_gate, fields.as_slice())
}

pub fn compact_startup_runtime_summary_startup_execution_gate(gate: &Json) -> (r: Json)
    ensures
        r@ == picked(gate@, summary_gate_fields()),
{
    let fields: [&str; 14] = [
        "gate_version",
        "action_kind",
        "blocking",
        "resume_state",
        "required_return_task_present",
        "required_task_set_count",
        "required_task_set_present",
        "must_preserve_required_task_set",
        "lease_owner_state",
        "must_follow_startup_next_action",
        "unrelated_work_allowed",
        "must_read_prompt_text_before_reply",
        "required_action_kind_when_resume_required",
        "no_silent_drop",
    ];
    assert(key_views(fields@) =~= summary_gate_fields());
    pick_fields(gate, fields.as_slice())
}

pub fn compact_startup_state_cli_startup_execution_gate(gate: &Json) -> (r: Json)
    ensures
        r@ == picked(gate@, cli_gate_fields()),
{
    let fields: [&str; 10] = [
        "action_kind",
        "blocking",
        "required_task_set_count",
        "required_task_set_present",
        "must_preserve_required_task_set",
        "must_follow_startup_next_action",
        "unrelated_work_allowed",
        "must_read_prompt_text_before_reply",
        "required_action_kind_when_resume_required",
        "no_silent_drop",
    ];
    assert(key_views(fields@) =~= cli_gate_fields());
    pick_fields(gate, fields.as_slice())
}

pub fn compact_startup_runtime_required_return_task(task: &Json) -> (r: Json)
    ensures
        r@ == picked(task@, return_task_fields()),
{
    let fields: [&str; 6] = ["headline", "next_step", "resume_state", "task_id", "task_role", "task_state"];
    assert(key_views(fields@) =~= return_task_fields());
    pick_fields(task, fields.as_slice())
}

pub fn compact_startup_runtime_execctl_active_lease(lease: &Json) -> (r: Json)
    ensures
        r@ == picked(lease@, lease_fields()),
{
    let fields: [&str; 6] = [
        "lease_version",
        "lease_owner_state",
        "lease_state",
        "headline",
        "next_step",
        "storage_lane",
    ];
    assert(key_views(fields@) =~= lease_fields());
    pick_fields(lease, fields.as_slice())
}

pub fn compact_startup_runtime_execctl_resume_obligation(obligation: &Json) -> (r: Json)
    ensures
        r@ == picked(obligation@, obligation_fields()),
{
    let fields: [&str; 8] = [
        "resume_state",
        "no_silent_drop",
        "pending_return_count",
        "required_return_headline",
        "required_return_next_step",
        "required_task_set_count",
        "required_task_set",
        "required_task_set_summary",
    ];
    assert(key_views(fields@) =~= obligation_fields());
    pick_fields(obligation, fields.as_slice())
}

pub fn compact_startup_state_cli_blocking_reply_contract(contract: &Json) -> (r: Json)
    ensures
        r@ == picked(contract@, blocking_contract_fields()),
{
    let fields: [&str; 6] = [
        "active",
        "contract_version",
        "response_kind",
        "max_sentences",
        "must_avoid_substantive_work",
        "must_use_action_bundle_operator_flow",
    ];
    assert(key_views(fields@) =~= blocking_contract_fields());
    pick_fields(contract, fields.as_slice())
}

pub fn compact_startup_state_cli_required_return_task(task: &Json) -> (r: Json)
    ensures
        r@ == picked(task@, cli_return_task_fields()),
{
    let fields: [&str; 3] = ["headline", "next_step", "resume_state"];
    assert(key_views(fields@) =~= cli_return_task_fields());
    pick_fields(task, fields.as_slice())
}

pub fn compact_compact_chat_handoff(handoff: &Json) -> (r: Json)
    ensures
        r@ == if handoff@ is Object {
            picked(handoff@, handoff_fields())
        } else {
            JsonView::Null
        },
{
    if !is_object(handoff) {
        return Json::Null;
    }
    let fields: [&str; 4] = ["headline", "next_step", "local_path", "relative_path"];
    assert(key_views(fields@) =~= handoff_fields());
    pick_fields(handoff, fields.as_slice())
}

pub fn compact_client_surface_for_compact_chat(client_surface: &Json) -> (r: Json)
    ensures
        r@ == if client_surface@ is Object {
            picked(client_surface@, client_surface_fields())
        } else {
            JsonView::Null
        },
{
    if !is_object(client_surface) {
        return Json::Null;
    }
    let fields: [&str; 8] = [
        "client_key",
        "display_name",
        "startup_instruction_path",
        "startup_instruction_mode",
        "fresh_chat_assist_summary",
        "delivery_surface_assist_summary",
        "reconnect_shell_command",
        "reconnect_bootstrap_command",
    ];
    assert(key_views(fields@) =~= client_surface_fields());
    pick_fields(client_surface, fields.as_slice())
}

/// The host's same-thread control: its identifying fields and, when it has any, the
/// external URI launch.
pub open spec fn thread_control_view(s: JsonView) -> JsonView {
    if !(s is Object) {
        JsonView::Null
    } else {
        let t = picked(s, thread_control_fields());
        let ext = field(s, "external_uri_launch"@);
        if ext is Object && picked(ext, external_launch_fields())->Object_0.len() > 0 {
            with_field(t, "external_uri_launch"@, picked(ext, external_launch_fields()))
        } else {
            t
        }
    }
}

pub fn compact_compact_chat_host_current_thread_control(surface: &Json) -> (r: Json)
    ensures
        r@ == thread_control_view(surface@),
{
    if !is_object(surface) {
        return Json::Null;
    }
    let fields: [&str; 4] = ["command_id", "button_label", "control_kind", "summary"];
    assert(key_views(fields@) =~= thread_control_fields());
    let t = pick_fields(surface, fields.as_slice());
    proof {
        lemma_picked_is_object(surface@, thread_control_fields());
    }
    match get(surface, "external_uri_launch") {
        Some(ext) => {
            if is_object(ext) {
                let ext_fields: [&str; 2] = ["uri", "platform_launch_command"];
                assert(key_views(ext_fields@) =~= external_launch_fields());
                let e = pick_fields(ext, ext_fields.as_slice());
                proof {
                    lemma_picked_is_object(ext@, external_launch_fields());
                }
                let nonempty = match &e {
                    Json::Object(es) => {
                        proof {
                            crate::json::lemma_entries_view(es@);
                        }
                        es.len() > 0
                    },
                    _ => false,
                };
                if nonempty {
                    return set_field(t, "external_uri_launch", e);
                }
            }
            t
        },
        None => t,
    }
}

/// `value[key].as_array().map(len).unwrap_or(0)`.
pub open spec fn array_len(v: JsonView, key: Seq<char>) -> nat {
    match as_array(field(v, key)) {
        Some(items) => items.len(),
        None => 0,
    }
}

fn array_len_exec(v: &Json, key: &str) -> (n: usize)
    ensures
        n == array_len(v@, key@),
{
    match get(v, key) {
        Some(Json::Array(items)) => {
            proof {
                lemma_items_view(items@);
            }
            items.len()
        },
        _ => 0,
    }
}

/// The task tree as counts, with a flag for whether the full tree stays available.
pub open spec fn task_tree_view(tree: JsonView) -> JsonView {
    if !(tree is Object) {
        JsonView::Null
    } else {
        JsonView::Object(
            seq![
                ("open_tasks_count"@, field(tree, "open_tasks_count"@)),
                ("pending_return_count"@, field(tree, "pending_return_count"@)),
                ("nodes_total"@, JsonView::Number(array_len(tree, "nodes"@) as int)),
                ("edges_total"@, JsonView::Number(array_len(tree, "edges"@) as int)),
                ("summary_only"@, JsonView::Bool(true)),
                (
                    "full_shape_preserved_in_working_state_restore"@,
                    JsonView::Bool(has_key(tree, "nodes"@) && has_key(tree, "edges"@)),
                ),
            ],
        )
    }
}

/// A law of startup task trees: a compacted task tree is a summary only; it says so, and
/// carries neither the nodes nor the edges themselves.
pub proof fn lemma_task_tree_summary_only(tree: JsonView)
    ensures
        task_tree_view(tree) is Object ==> {
            &&& field(task_tree_view(tree), "summary_only"@) == JsonView::Bool(true)
            &&& !crate::json::has_field(task_tree_view(tree), "nodes"@)
            &&& !crate::json::has_field(task_tree_view(tree), "edges"@)
        },
{
    if tree is Object {
        reveal_strlit("open_tasks_count");
        reveal_strlit("pending_return_count");
        reveal_strlit("nodes_total");
        reveal_strlit("edges_total");
        reveal_strlit("summary_only");
        reveal_strlit("full_shape_preserved_in_working_state_restore");
        reveal_strlit("nodes");
        reveal_strlit("edges");
        assert("open_tasks_count"@.len() == 16 && "pending_return_count"@.len() == 20);
        assert("nodes_total"@.len() == 11 && "edges_total"@.len() == 11 && "summary_only"@.len() == 12);
        assert("full_shape_preserved_in_working_state_restore"@.len() == 45);
        assert("nodes"@.len() == 5 && "edges"@.len() == 5);
        let es = task_tree_view(tree)->Object_0;
        crate::json::lemma_position_lookup_first(es, "summary_only"@, es.len() as int, 4);
        crate::json::lemma_lookup_absent(es, "nodes"@, es.len() as int);
        crate::json::lemma_lookup_absent(es, "edges"@, es.len() as int);
    }
}

pub fn compact_project_task_tree_for_startup(tree: &Json) -> (r: Json)
    ensures
        r@ == task_tree_view(tree@),
{
    if !is_object(tree) {
        return Json::Null;
    }
    let nodes = array_len_exec(tree, "nodes");
    let edges = array_len_exec(tree, "edges");
    let full = contains_key(tree, "nodes") && contains_key(tree, "edges");
    let a = get_cloned(tree, "open_tasks_count");
    let b0 = get_cloned(tree, "pending_return_count");
    let ghost av = a@;
    let ghost bv = b0@;
    let mut b = ObjectBuilder::new();
    b.push("open_tasks_count", a);
    b.push("pending_return_count", b0);
    b.push("nodes_total", Json::Number(nodes as i128));
    b.push("edges_total", Json::Number(edges as i128));
    b.push("summary_only", Json::Bool(true));
    b.push("full_shape_preserved_in_working_state_restore", Json::Bool(full));
    assert(b.view_entries() =~= task_tree_view(tree@)->Object_0);
    b.build()
}

/// How many of the entries have the given task role.
pub open spec fn role_count(entries: Seq<JsonView>, role: Seq<char>) -> nat
    decreases entries.len(),
{
    if entries.len() == 0 {
        0
    } else {
        role_count(entries.drop_last(), role) + if as_str(field(entries.last(), "task_role"@))
            == Some(role) {
            1nat
        } else {
            0nat
        }
    }
}

proof fn lemma_role_count_le(entries: Seq<JsonView>, role: Seq<char>)
    ensures
        role_count(entries, role) <= entries.len(),
    decreases entries.len(),
{
    if entries.len() > 0 {
        lemma_role_count_le(entries.drop_last(), role);
    }
}

fn role_count_exec(entries: &Vec<Json>, role: &str) -> (n: usize)
    ensures
        n == role_count(items_view(entries@), role@),
{
    let ghost iv = items_view(entries@);
    proof {
        lemma_items_view(entries@);
    }
    let mut n: usize = 0;
    let mut i: usize = 0;
    assert(iv.take(0) =~= Seq::<JsonView>::empty());
    while i < entries.len()
        invariant
            i <= entries@.len(),
            iv == items_view(entries@),
            iv.len() == entries@.len(),
            forall|j: int| 0 <= j < entries@.len() ==> #[trigger] iv[j] == crate::json::json_view(entries@[j]),
            n == role_count(iv.take(i as int), role@),
            n <= i,
        decreases entries@.len() - i,
    {
        assert(iv.take(i + 1).drop_last() =~= iv.take(i as int));
        assert(iv.take(i + 1).last() == crate::json::json_view(entries@[i as int]));
        match get_str(&entries[i], "task_role") {
            Some(r) => {
                if crate::text::str_eq(r, role) {
                    n = n + 1;
                }
            },
            None => {},
        }
        i = i + 1;
    }
    assert(iv.take(i as int) =~= iv);
    n
}

/// The task ledger as counts, with a flag for whether the full ledger stays available.
pub open spec fn task_ledger_view(ledger: JsonView) -> JsonView {
    if !(ledger is Object) {
        JsonView::Null
    } else {
        let entries = match as_array(field(ledger, "entries"@)) {
            Some(items) => items,
            None => Seq::empty(),
        };
        JsonView::Object(
            seq![
                ("open_tasks_count"@, field(ledger, "open_tasks_count"@)),
                ("historical_handoffs_count"@, field(ledger, "historical_handoffs_count"@)),
                ("entries_count"@, JsonView::Number(entries.len() as int)),
                ("active_entries_count"@, JsonView::Number(role_count(entries, "active"@) as int)),
                (
                    "pending_return_entries_count"@,
                    JsonView::Number(role_count(entries, "pending_return"@) as int),
                ),
                ("summary_only"@, JsonView::Bool(true)),
                (
                    "full_shape_preserved_in_working_state_restore"@,
                    JsonView::Bool(has_key(ledger, "entries"@)),
                ),
            ],
        )
    }
}

pub fn compact_project_task_ledger_for_startup(ledger: &Json) -> (r: Json)
    ensures
        r@ == task_ledger_view(ledger@),
{
    if !is_object(ledger) {
        return Json::Null;
    }
    let entries: Vec<Json> = match get_cloned(ledger, "entries") {
        Json::Array(v) => v,
        _ => Vec::new(),
    };
    proof {
        lemma_items_view(entries@);
        assert(items_view(Seq::<Json>::empty()) =~= Seq::<JsonView>::empty());
    }
    let active = role_count_exec(&entries, "active");
    let pending = role_count_exec(&entries, "pending_return");
    let full = contains_key(ledger, "entries");
    let a = get_cloned(ledger, "open_tasks_count");
    let h = get_cloned(ledger, "historical_handoffs_count");
    let mut b = ObjectBuilder::new();
    b.push("open_tasks_count", a);
    b.push("historical_handoffs_count", h);
    b.push("entries_count", Json::Number(entries.len() as i128));
    b.push("active_entries_count", Json::Number(active as i128));
    b.push("pending_return_entries_count", Json::Number(pending as i128));
    b.push("summary_only", Json::Bool(true));
    b.push("full_shape_preserved_in_working_state_restore", Json::Bool(full));
    assert(b.view_entries() =~= task_ledger_view(ledger@)->Object_0);
    b.build()
}

/// How many queued returns a compact-chat payload previews.
pub const MAX_COMPACT_CHAT_PENDING_RETURN_QUEUE_PREVIEW: usize = 3;

pub open spec fn queue_item_fields() -> Seq<Seq<char>> {
    seq!["task_id"@, "headline"@, "next_step"@, "resume_state"@]
}

/// The pending-return queue preview: the first queued returns reduced to their
/// identifying fields, the queue's length, and whether the preview holds the whole queue.
pub open spec fn pending_queue_view(queue: JsonView) -> (JsonView, nat, bool) {
    match as_array(queue) {
        Some(items) => {
            let shown = if items.len() <= 3 {
                items.len() as int
            } else {
                3
            };
            (
                JsonView::Array(
                    Seq::new(shown as nat, |k: int| picked(items[k], queue_item_fields())),
                ),
                items.len(),
                items.len() <= 3,
            )
        },
        None => (JsonView::Null, 0, false),
    }
}

pub fn compact_pending_return_queue_for_compact_chat(queue: &Json) -> (r: (Json, usize, bool))
    ensures
        (r.0@, r.1 as nat, r.2) == pending_queue_view(queue@),
{
    match queue {
        Json::Array(items) => {
            proof {
                lemma_items_view(items@);
            }
            let n = items.len();
            let shown = if n <= MAX_COMPACT_CHAT_PENDING_RETURN_QUEUE_PREVIEW {
                n
            } else {
                MAX_COMPACT_CHAT_PENDING_RETURN_QUEUE_PREVIEW
            };
            let fields: [&str; 4] = ["task_id", "headline", "next_step", "resume_state"];
            assert(key_views(fields@) =~= queue_item_fields());
            let ghost iv = items_view(items@);
            let mut preview: Vec<Json> = Vec::new();
            let mut i: usize = 0;
            while i < shown
                invariant
                    i <= shown <= items@.len(),
                    iv == items_view(items@),
                    iv.len() == items@.len(),
                    forall|j: int| 0 <= j < items@.len() ==> #[trigger] iv[j] == crate::json::json_view(items@[j]),
                    key_views(fields@) == queue_item_fields(),
                    preview@.len() == i,
                    items_view(preview@) == Seq::new(i as nat, |k: int| picked(iv[k], queue_item_fields())),
                decreases shown - i,
            {
                let c = pick_fields(&items[i], fields.as_slice());
                proof {
                    crate::json::lemma_items_push(preview@, c);
                    assert(iv[i as int] == crate::json::json_view(items@[i as int]));
                }
                preview.push(c);
                i = i + 1;
                assert(items_view(preview@) =~= Seq::new(i as nat, |k: int| picked(iv[k], queue_item_fields())));
            }
            (Json::Array(preview), n, n <= MAX_COMPACT_CHAT_PENDING_RETURN_QUEUE_PREVIEW)
        },
        _ => (Json::Null, 0, false),
    }
}

/// An optional flag as JSON.
pub open spec fn opt_bool_view(o: Option<bool>) -> JsonView {
    match o {
        Some(b) => JsonView::Bool(b),
        None => JsonView::Null,
    }
}

/// The compact reply execution gate. Its `preserves_return_obligation` is the flag set in
/// `action_bundle`, or else its own flag.
pub open spec fn runtime_reply_gate_view(g: JsonView) -> JsonView {
    if !(g is Object) {
        JsonView::Null
    } else {
        let preserves = match as_bool(field(field(g, "action_bundle"@), "preserves_return_obligation"@)) {
            Some(b) => Some(b),
            None => as_bool(field(g, "preserves_return_obligation"@)),
        };
        JsonView::Object(
            seq![
                ("gate_version"@, field(g, "gate_version"@)),
                ("action_kind"@, field(g, "action_kind"@)),
                ("blocking"@, field(g, "blocking"@)),
                ("must_rotate_before_reply"@, field(g, "must_rotate_before_reply"@)),
                (
                    "must_wait_for_budget_recovery_before_reply"@,
                    field(g, "must_wait_for_budget_recovery_before_reply"@),
                ),
                ("reply_budget_mode"@, field(g, "reply_budget_mode"@)),
                ("reply_prefix"@, field(g, "reply_prefix"@)),
                ("rotate_now"@, field(g, "rotate_now"@)),
                ("rotate_soon"@, field(g, "rotate_soon"@)),
                ("preserves_return_obligation"@, opt_bool_view(preserves)),
            ],
        )
    }
}

pub fn compact_startup_runtime_reply_execution_gate(reply_execution_gate: &Json) -> (r: Json)
    ensures
        r@ == runtime_reply_gate_view(reply_execution_gate@),
{
    let g = reply_execution_gate;
    if !is_object(g) {
        return Json::Null;
    }
    let from_bundle = match get(g, "action_bundle") {
        Some(bundle) => get_bool(bundle, "preserves_return_obligation"),
        None => None,
    };
    let preserves = match from_bundle {
        Some(b) => Some(b),
        None => get_bool(g, "preserves_return_obligation"),
    };
    let mut b = ObjectBuilder::new();
    b.push("gate_version", get_cloned(g, "gate_version"));
    b.push("action_kind", get_cloned(g, "action_kind"));
    b.push("blocking", get_cloned(g, "blocking"));
    b.push("must_rotate_before_reply", get_cloned(g, "must_rotate_before_reply"));
    b.push(
        "must_wait_for_budget_recovery_before_reply",
        get_cloned(g, "must_wait_for_budget_recovery_before_reply"),
    );
    b.push("reply_budget_mode", get_cloned(g, "reply_budget_mode"));
    b.push("reply_prefix", get_cloned(g, "reply_prefix"));
    b.push("rotate_now", get_cloned(g, "rotate_now"));
    b.push("rotate_soon", get_cloned(g, "rotate_soon"));
    b.push(
        "preserves_return_obligation",
        match preserves {
            Some(x) => Json::Bool(x),
            None => Json::Null,
        },
    );
    assert(b.view_entries() =~= runtime_reply_gate_view(g@)->Object_0);
    b.build()
}

/// The budget guard as the runtime artifact keeps it: its own fields and its compact
/// reply gate when it has one.
pub open spec fn runtime_budget_guard_view(g: JsonView) -> JsonView {
    if !(g is Object) {
        JsonView::Null
    } else {
        let t = picked(g, budget_guard_fields());
        let gate = runtime_reply_gate_view(field(g, "reply_execution_gate"@));
        if gate != JsonView::Null {
            with_field(t, "reply_execution_gate"@, gate)
        } else {
            t
        }
    }
}

pub fn compact_startup_runtime_client_budget_guard(guard: &Json) -> (r: Json)
    ensures
        r@ == runtime_budget_guard_view(guard@),
{
    if !is_object(guard) {
        return Json::Null;
    }
    let fields: [&str; 2] = ["status_label", "client_budget_target_percent"];
    assert(key_views(fields@) =~= budget_guard_fields());
    let t = pick_fields(guard, fields.as_slice());
    proof {
        lemma_picked_is_object(guard@, budget_guard_fields());
    }
    let gate_src = get_cloned(guard, "reply_execution_gate");
    let gate = compact_startup_runtime_reply_execution_gate(&gate_src);
    if matches!(gate, Json::Null) {
        t
    } else {
        set_field(t, "reply_execution_gate", gate)
    }
}

pub open spec fn pack_list_fields() -> Seq<Seq<char>> {
    seq![
        "active_commitments"@,
        "blocked_waiting_items"@,
        "paused_branches"@,
        "recently_closed"@,
        "relevant_semantic_facts"@,
        "recent_episodic_traces"@,
        "active_constraints"@,
        "important_artifacts"@,
        "unresolved_conflicts"@,
        "relevant_procedures"@,
    ]
}

/// The workspace restore pack as counts of its lists, with its summary and policy.
pub open spec fn workspace_pack_view(pack: JsonView) -> JsonView {
    if !(pack is Object) {
        JsonView::Null
    } else {
        let n = |k: Seq<char>| JsonView::Number(array_len(pack, k) as int);
        JsonView::Object(
            seq![
                ("pack_version"@, field(pack, "pack_version"@)),
                ("active_commitments_count"@, n("active_commitments"@)),
                ("blocked_waiting_items_count"@, n("blocked_waiting_items"@)),
                ("paused_branches_count"@, n("paused_branches"@)),
                ("recently_closed_count"@, n("recently_closed"@)),
                ("relevant_semantic_facts_count"@, n("relevant_semantic_facts"@)),
                ("recent_episodic_traces_count"@, n("recent_episodic_traces"@)),
                ("active_constraints_count"@, n("active_constraints"@)),
                ("important_artifacts_count"@, n("important_artifacts"@)),
                ("unresolved_conflicts_count"@, n("unresolved_conflicts"@)),
                ("relevant_procedures_count"@, n("relevant_procedures"@)),
                ("summary"@, field(pack, "summary"@)),
                ("procedural_restore_policy"@, field(pack, "procedural_restore_policy"@)),
                ("summary_only"@, JsonView::Bool(true)),
                (
                    "full_shape_preserved_in_working_state_restore"@,
                    JsonView::Bool(
                        has_key(pack, "active_commitments"@) && has_key(pack, "active_constraints"@)
                            && has_key(pack, "important_artifacts"@),
                    ),
                ),
            ],
        )
    }
}

fn count_json(v: &Json, key: &str) -> (r: Json)
    ensures
        r@ == JsonView::Number(array_len(v@, key@) as int),
{
    Json::Number(array_len_exec(v, key) as i128)
}

pub fn compact_workspace_restore_pack_for_startup(pack: &Json) -> (r: Json)
    ensures
        r@ == workspace_pack_view(pack@),
{
    if !is_object(pack) {
        return Json::Null;
    }
    let full = contains_key(pack, "active_commitments") && contains_key(pack, "active_constraints")
        && contains_key(pack, "important_artifacts");
    let mut b = ObjectBuilder::new();
    b.push("pack_version", get_cloned(pack, "pack_version"));
    b.push("active_commitments_count", count_json(pack, "active_commitments"));
    b.push("blocked_waiting_items_count", count_json(pack, "blocked_waiting_items"));
    b.push("paused_branches_count", count_json(pack, "paused_branches"));
    b.push("recently_closed_count", count_json(pack, "recently_closed"));
    b.push("relevant_semantic_facts_count", count_json(pack, "relevant_semantic_facts"));
    b.push("recent_episodic_traces_count", count_json(pack, "recent_episodic_traces"));
    b.push("active_constraints_count", count_json(pack, "active_constraints"));
    b.push("important_artifacts_count", count_json(pack, "important_artifacts"));
    b.push("unresolved_conflicts_count", count_json(pack, "unresolved_conflicts"));
    b.push("relevant_procedures_count", count_json(pack, "relevant_procedures"));
    b.push("summary", get_cloned(pack, "summary"));
    b.push("procedural_restore_policy", get_cloned(pack, "procedural_restore_policy"));
    b.push("summary_only", Json::Bool(true));
    b.push("full_shape_preserved_in_working_state_restore", Json::Bool(full));
    assert(b.view_entries() =~= workspace_pack_view(pack@)->Object_0);
    b.build()
}

pub open spec fn working_state_output_fields() -> Seq<Seq<char>> {
    seq![
        "thread_id"@,
        "session_id"@,
        "agent_scope"@,
        "captured_at_epoch_ms"@,
        "restore_confidence"@,
        "restore_freshness_state"@,
        "is_preliminary"@,
        "current_goal"@,
        "next_step"@,
        "next_step_state"@,
        "current_hypothesis"@,
        "current_focus"@,
        "last_results_summary"@,
        "source_summary"@,
        "client_budget_target_percent"@,
        "skill_execution_card_summary"@,
    ]
}

pub open spec fn summary_only_object() -> JsonView {
    JsonView::Object(seq![("summary_only"@, JsonView::Bool(true))])
}

/// The working-state restore for startup output: marked as a summary, its scalar fields,
/// its skill execution card when it is an object, and the lineage's authoritative event id
/// when it is non-empty text.
pub open spec fn working_state_output_view(restore: JsonView) -> JsonView {
    if !(restore is Object) {
        JsonView::Null
    } else {
        let t1 = copy_present(summary_only_object(), restore, working_state_output_fields());
        let card = field(restore, "skill_execution_card"@);
        let t2 = if card is Object {
            with_field(t1, "skill_execution_card"@, card)
        } else {
            t1
        };
        match as_str(field(field(restore, "state_lineage"@), "authoritative_event_id"@)) {
            Some(id) => if id.len() > 0 {
                with_field(
                    t2,
                    "state_lineage"@,
                    JsonView::Object(seq![("authoritative_event_id"@, JsonView::Str(id))]),
                )
            } else {
                t2
            },
            None => t2,
        }
    }
}

pub fn compact_working_state_restore_for_startup_output(restore: &Json) -> (r: Json)
    ensures
        r@ == working_state_output_view(restore@),
{
    if !is_object(restore) {
        return Json::Null;
    }
    let mut head = ObjectBuilder::new();
    head.push("summary_only", Json::Bool(true));
    let mut t = head.build();
    assert(t@ == summary_only_object());
    let fields: [&str; 16] = [
        "thread_id",
        "session_id",
        "agent_scope",
        "captured_at_epoch_ms",
        "restore_confidence",
        "restore_freshness_state",
        "is_preliminary",
        "current_goal",
        "next_step",
        "next_step_state",
        "current_hypothesis",
        "current_focus",
        "last_results_summary",
        "source_summary",
        "client_budget_target_percent",
        "skill_execution_card_summary",
    ];
    assert(key_views(fields@) =~= working_state_output_fields());
    copy_if_present(&mut t, restore, fields.as_slice());
    proof {
        lemma_copy_present_reads(summary_only_object(), restore@, working_state_output_fields(), "summary_only"@);
    }
    match get(restore, "skill_execution_card") {
        Some(card) => {
            if is_object(card) {
                let c = clone_json(card);
                t = set_field(t, "skill_execution_card", c);
            }
        },
        None => {},
    }
    proof {
        lemma_with_field_reads(
            copy_present(summary_only_object(), restore@, working_state_output_fields()),
            "skill_execution_card"@,
            field(restore@, "skill_execution_card"@),
            "skill_execution_card"@,
        );
    }
    let id = match get(restore, "state_lineage") {
        Some(lineage) => get_str(lineage, "authoritative_event_id"),
        None => None,
    };
    match id {
        Some(i) => {
            if i.unicode_len() > 0 {
                let mut l = ObjectBuilder::new();
                l.push("authoritative_event_id", Json::Str(i.to_string()));
                let lin = l.build();
                t = set_field(t, "state_lineage", lin);
            }
        },
        None => {},
    }
    t
}

/// The chat-start restore for startup output: marked as a summary, with its prompt text.
pub open spec fn chat_start_output_view(restore: JsonView) -> JsonView {
    if !(restore is Object) {
        JsonView::Null
    } else {
        copy_present(summary_only_object(), restore, seq!["prompt_text"@])
    }
}

pub fn compact_chat_start_restore_for_startup_output(restore: &Json) -> (r: Json)
    ensures
        r@ == chat_start_output_view(restore@),
{
    if !is_object(restore) {
        return Json::Null;
    }
    let mut head = ObjectBuilder::new();
    head.push("summary_only", Json::Bool(true));
    let mut t = head.build();
    assert(t@ == summary_only_object());
    let fields: [&str; 1] = ["prompt_text"];
    assert(key_views(fields@) =~= seq!["prompt_text"@]);
    copy_if_present(&mut t, restore, fields.as_slice());
    t
}

pub open spec fn startup_public_fields() -> Seq<Seq<char>> {
    seq![
        "project"@,
        "namespace"@,
        "imported_at_epoch_ms"@,
        "documents_imported"@,
        "rendered_transcript_files"@,
        "continuity_source"@,
        "handoff_summary"@,
        "canonical_eval"@,
    ]
}

/// The public startup payload: the continuity startup node reduced to its summary fields,
/// the chat-start restore compacted (and also published under the neutral
/// `delivery_surface_restore` name), the working-state restore compacted, and the
/// degradation policy dropped; a payload that is not an object is returned as it is.
pub open spec fn public_payload_view(p: JsonView) -> JsonView {
    if !(p is Object) {
        p
    } else {
        let r1 = if field(p, "continuity_startup"@) is Object {
            with_field(
                p,
                "continuity_startup"@,
                copy_present(summary_only_object(), field(p, "continuity_startup"@), startup_public_fields()),
            )
        } else {
            p
        };
        let r2 = if field(p, "chat_start_restore"@) is Object {
            with_field(
                with_field(r1, "chat_start_restore"@, chat_start_output_view(field(p, "chat_start_restore"@))),
                "delivery_surface_restore"@,
                chat_start_output_view(field(p, "chat_start_restore"@)),
            )
        } else {
            r1
        };
        let r3 = if field(p, "working_state_restore"@) is Object {
            with_field(
                r2,
                "working_state_restore"@,
                working_state_output_view(field(p, "working_state_restore"@)),
            )
        } else {
            r2
        };
        without_key(r3, "degradation_policy"@)
    }
}

pub fn compact_continuity_startup_public_payload(payload: &Json) -> (r: Json)
    ensures
        r@ == public_payload_view(payload@),
{
    if !is_object(payload) {
        return clone_json(payload);
    }
    let mut root = clone_json(payload);
    let ghost p = payload@;
    match get(payload, "continuity_startup") {
        Some(startup) => {
            if is_object(startup) {
                let mut head = ObjectBuilder::new();
                head.push("summary_only", Json::Bool(true));
                let mut t = head.build();
                assert(t@ == summary_only_object());
                let fields: [&str; 8] = [
                    "project",
                    "namespace",
                    "imported_at_epoch_ms",
                    "documents_imported",
                    "rendered_transcript_files",
                    "continuity_source",
                    "handoff_summary",
                    "canonical_eval",
                ];
                assert(key_views(fields@) =~= startup_public_fields());
                copy_if_present(&mut t, startup, fields.as_slice());
                root = set_field(root, "continuity_startup", t);
            }
        },
        None => {},
    }
    match get(payload, "chat_start_restore") {
        Some(node) => {
            if is_object(node) {
                let c = compact_chat_start_restore_for_startup_output(node);
                let alias = compact_chat_start_restore_for_startup_output(node);
                root = set_field(root, "chat_start_restore", c);
                root = set_field(root, "delivery_surface_restore", alias);
            }
        },
        None => {},
    }
    match get(payload, "working_state_restore") {
        Some(node) => {
            if is_object(node) {
                let c = compact_working_state_restore_for_startup_output(node);
                root = set_field(root, "working_state_restore", c);
            }
        },
        None => {},
    }
    remove_key(&root, "degradation_policy")
}


pub open spec fn chat_start_restore_fields() -> Seq<Seq<char>> {
    seq![
        "headline"@,
        "next_step"@,
        "restore_confidence"@,
        "prompt_text"@,
        "execctl_resume_state"@,
        "pending_return_summary"@,
        "project_task_tree_summary"@,
        "project_task_ledger_summary"@,
        "required_task_set"@,
        "required_task_set_summary"@,
    ]
}

/// The chat-start restore as the compact-chat payload carries it: its summary fields, the
/// pending-return preview with the queue's size, and the task tree and ledger as counts.
pub open spec fn compact_chat_start_restore_view(node: JsonView) -> JsonView {
    if !(node is Object) {
        JsonView::Null
    } else {
        let (queue, total, whole) = pending_queue_view(field(node, "pending_return_queue"@));
        let t1 = picked(node, chat_start_restore_fields());
        let t2 = if queue != JsonView::Null {
            with_field(
                with_field(
                    with_field(t1, "pending_return_queue"@, queue),
                    "pending_return_queue_total"@,
                    JsonView::Number(total as int),
                ),
                "pending_return_queue_full_shape_preserved_in_working_state_restore"@,
                JsonView::Bool(whole),
            )
        } else {
            t1
        };
        let tree = task_tree_view(field(node, "project_task_tree"@));
        let t3 = if tree != JsonView::Null {
            with_field(t2, "project_task_tree"@, tree)
        } else {
            t2
        };
        let ledger = task_ledger_view(field(node, "project_task_ledger"@));
        if ledger != JsonView::Null {
            with_field(t3, "project_task_ledger"@, ledger)
        } else {
            t3
        }
    }
}

pub fn compact_compact_chat_chat_start_restore(node: &Json) -> (r: Json)
    ensures
        r@ == compact_chat_start_restore_view(node@),
{
    if !is_object(node) {
        return Json::Null;
    }
    let queue_src = get_cloned(node, "pending_return_queue");
    let (queue, total, whole) = compact_pending_return_queue_for_compact_chat(&queue_src);
    let fields: [&str; 10] = [
        "headline",
        "next_step",
        "restore_confidence",
        "prompt_text",
        "execctl_resume_state",
        "pending_return_summary",
        "project_task_tree_summary",
        "project_task_ledger_summary",
        "required_task_set",
        "required_task_set_summary",
    ];
    assert(key_views(fields@) =~= chat_start_restore_fields());
    let mut t = pick_fields(node, fields.as_slice());
    proof {
        lemma_picked_is_object(node@, chat_start_restore_fields());
    }
    if !matches!(queue, Json::Null) {
        t = set_field(t, "pending_return_queue", queue);
        t = set_field(t, "pending_return_queue_total", Json::Number(total as i128));
        t = set_field(
            t,
            "pending_return_queue_full_shape_preserved_in_working_state_restore",
            Json::Bool(whole),
        );
    }
    let tree_src = get_cloned(node, "project_task_tree");
    let tree = compact_project_task_tree_for_startup(&tree_src);
    if !matches!(tree, Json::Null) {
        t = set_field(t, "project_task_tree", tree);
    }
    let ledger_src = get_cloned(node, "project_task_ledger");
    let ledger = compact_project_task_ledger_for_startup(&ledger_src);
    if !matches!(ledger, Json::Null) {
        t = set_field(t, "project_task_ledger", ledger);
    }
    t
}

/// The runtime summary without the reason summaries that are `null` and without a zero
/// thread count.
pub open spec fn pruned_summary_view(s: JsonView) -> JsonView {
    let s1 = if has_key(s, "excluded_reasons_summary"@) && field(s, "excluded_reasons_summary"@)
        == JsonView::Null {
        without_key(s, "excluded_reasons_summary"@)
    } else {
        s
    };
    let s2 = if has_key(s1, "included_reasons_summary"@) && field(s1, "included_reasons_summary"@)
        == JsonView::Null {
        without_key(s1, "included_reasons_summary"@)
    } else {
        s1
    };
    if crate::json::as_u64(field(s2, "thread_count"@)) == Some(0u64) {
        without_key(s2, "thread_count"@)
    } else {
        s2
    }
}

fn remove_if_null(summary: &mut Json, key: &str)
    ensures
        final(summary)@ == if has_key(old(summary)@, key@) && field(old(summary)@, key@) == JsonView::Null {
            without_key(old(summary)@, key@)
        } else {
            old(summary)@
        },
{
    if contains_key(summary, key) && matches!(get_cloned(summary, key), Json::Null) {
        let pruned = remove_key(summary, key);
        *summary = pruned;
    }
}

/// Drops the reason summaries that are `null` and a zero thread count from a runtime
/// summary.
pub fn prune_startup_runtime_summary(summary: &mut Json)
    ensures
        final(summary)@ == pruned_summary_view(old(summary)@),
{
    remove_if_null(summary, "excluded_reasons_summary");
    remove_if_null(summary, "included_reasons_summary");
    if crate::json::get_u64(summary, "thread_count") == Some(0u64) {
        let pruned = remove_key(summary, "thread_count");
        *summary = pruned;
    }
}

} // verus!
