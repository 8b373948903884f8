//! The audit of a materialised startup runtime state artifact: which of the fields a
//! fresh session relies on are present, whether the recorded execution gate still agrees
//! with the startup contract, and whether the artifact has drifted.
use vstd::prelude::*;
use crate::gate::{
    evaluate_startup_execution_gate_consistency, field2, gate_consistency, gate_prompt_present,
    gate_prompt_present_exec,
};
use crate::json::{as_bool, as_str, contains_key, field, get, get_bool, get_str, has_key, is_object, Json, JsonView};
use crate::text::str_eq;

verus! {

/// The version of the startup runtime state artifact this audit accepts.
pub const STARTUP_RUNTIME_STATE_ARTIFACT_VERSION: &'static str = "workspace-startup-runtime-state-v4";

/// What the audit found.
pub struct StartupRuntimeStateAudit {
    pub status: String,
    pub output_path: String,
    pub artifact_exists: bool,
    pub startup_contract_sha_matches_current_contract: Option<bool>,
    pub source_summary_field_matches: Option<bool>,
    pub prompt_text_present: Option<bool>,
    pub startup_next_action_present: Option<bool>,
    pub startup_execution_gate_present: Option<bool>,
    pub required_return_task_field_present: Option<bool>,
    pub execctl_active_lease_field_present: Option<bool>,
    pub project_task_tree_field_present: Option<bool>,
    pub project_task_tree_summary_field_present: Option<bool>,
    pub project_task_ledger_field_present: Option<bool>,
    pub project_task_ledger_summary_field_present: Option<bool>,
    pub resume_state: Option<String>,
    pub action_kind: Option<String>,
    pub lease_owner_state: Option<String>,
    pub must_follow_startup_next_action: Option<bool>,
    pub unrelated_work_allowed: Option<bool>,
    pub must_read_prompt_text_before_reply: Option<bool>,
    pub required_action_kind_when_resume_required: Option<String>,
    pub no_silent_drop: Option<bool>,
    pub artifact_gate_semantics_consistent_present: Option<bool>,
    pub artifact_gate_semantics_consistent_matches_recomputed: Option<bool>,
    pub gate_semantics_consistent: Option<bool>,
}

pub open spec fn opt_string_view(o: Option<String>) -> Option<Seq<char>> {
    match o {
        Some(s) => Some(s@),
        None => None,
    }
}

pub open spec fn summary_of(p: JsonView) -> JsonView {
    field(p, "continuity_startup_summary"@)
}

pub open spec fn gate_of(p: JsonView) -> JsonView {
    field(p, "startup_execution_gate"@)
}

/// The recomputed consistency of the recorded gate.
pub open spec fn recomputed_consistency(p: JsonView, contract: JsonView) -> Option<bool> {
    gate_consistency(summary_of(p), gate_of(p), Some(gate_prompt_present(p)), contract)
}

/// Whether the recorded consistency verdict agrees with the recomputed one.
pub open spec fn recorded_matches(p: JsonView, contract: JsonView) -> Option<bool> {
    match (as_bool(field(p, "gate_semantics_consistent"@)), recomputed_consistency(p, contract)) {
        (Some(a), Some(b)) => Some(a == b),
        _ => None,
    }
}

/// An artifact is in order: current version and source, current contract, every field a
/// fresh session relies on present, and a recorded gate verdict that is consistent and
/// agrees with the recomputed one.
pub open spec fn artifact_in_order(p: JsonView, expected_contract_sha: Seq<char>, contract: JsonView) -> bool {
    let s = summary_of(p);
    let g = gate_of(p);
    &&& as_str(field(p, "artifact_version"@)) == Some("workspace-startup-runtime-state-v4"@)
    &&& as_str(field(p, "source_tool"@)) == Some("amai_continuity_startup"@)
    &&& as_str(field(p, "startup_contract_sha256"@)) == Some(expected_contract_sha)
    &&& as_str(field(p, "source_summary_field"@)) == Some("continuity_startup_summary"@)
    &&& gate_prompt_present(p)
    &&& field(s, "startup_next_action"@) is Object
    &&& g is Object
    &&& has_key(s, "required_return_task"@)
    &&& has_key(s, "execctl_active_lease"@)
    &&& has_key(s, "project_task_tree"@)
    &&& has_key(s, "project_task_tree_summary"@)
    &&& has_key(s, "project_task_ledger"@)
    &&& has_key(s, "project_task_ledger_summary"@)
    &&& as_bool(field(g, "must_follow_startup_next_action"@)) is Some
    &&& as_bool(field(g, "unrelated_work_allowed"@)) is Some
    &&& as_bool(field(g, "must_read_prompt_text_before_reply"@)) is Some
    &&& as_str(field(g, "required_action_kind_when_resume_required"@)) is Some
    &&& as_bool(field(g, "no_silent_drop"@)) is Some
    &&& as_bool(field(p, "gate_semantics_consistent"@)) is Some
    &&& recorded_matches(p, contract) == Some(true)
    &&& recomputed_consistency(p, contract) == Some(true)
}

/// The audit's findings on an artifact that exists.
pub open spec fn audit_of(
    a: StartupRuntimeStateAudit,
    p: JsonView,
    expected_contract_sha: Seq<char>,
    contract: JsonView,
) -> bool {
    let s = summary_of(p);
    let g = gate_of(p);
    &&& a.artifact_exists
    &&& a.status@ == if artifact_in_order(p, expected_contract_sha, contract) {
        "ok"@
    } else {
        "startup_runtime_state_drift"@
    }
    &&& a.startup_contract_sha_matches_current_contract == Some(
        as_str(field(p, "startup_contract_sha256"@)) == Some(expected_contract_sha),
    )
    &&& a.source_summary_field_matches == Some(
        as_str(field(p, "source_summary_field"@)) == Some("continuity_startup_summary"@),
    )
    &&& a.prompt_text_present == Some(gate_prompt_present(p))
    &&& a.startup_next_action_present == Some(field(s, "startup_next_action"@) is Object)
    &&& a.startup_execution_gate_present == Some(g is Object)
    &&& a.required_return_task_field_present == Some(has_key(s, "required_return_task"@))
    &&& a.execctl_active_lease_field_present == Some(has_key(s, "execctl_active_lease"@))
    &&& a.project_task_tree_field_present == Some(has_key(s, "project_task_tree"@))
    &&& a.project_task_tree_summary_field_present == Some(has_key(s, "project_task_tree_summary"@))
    &&& a.project_task_ledger_field_present == Some(has_key(s, "project_task_ledger"@))
    &&& a.project_task_ledger_summary_field_present == Some(has_key(s, "project_task_ledger_summary"@))
    &&& opt_string_view(a.resume_state) == as_str(field(s, "execctl_resume_state"@))
    &&& opt_string_view(a.action_kind) == as_str(field2(s, "startup_next_action"@, "action_kind"@))
    &&& opt_string_view(a.lease_owner_state) == as_str(field2(s, "execctl_active_lease"@, "lease_owner_state"@))
    &&& a.must_follow_startup_next_action == as_bool(field(g, "must_follow_startup_next_action"@))
    &&& a.unrelated_work_allowed == as_bool(field(g, "unrelated_work_allowed"@))
    &&& a.must_read_prompt_text_before_reply == as_bool(field(g, "must_read_prompt_text_before_reply"@))
    &&& opt_string_view(a.required_action_kind_when_resume_required) == as_str(
        field(g, "required_action_kind_when_resume_required"@),
    )
    &&& a.no_silent_drop == as_bool(field(g, "no_silent_drop"@))
    &&& a.artifact_gate_semantics_consistent_present == Some(
        as_bool(field(p, "gate_semantics_consistent"@)) is Some,
    )
    &&& a.artifact_gate_semantics_consistent_matches_recomputed == recorded_matches(p, contract)
    &&& a.gate_semantics_consistent == recomputed_consistency(p, contract)
}

/// The audit when no artifact has been materialised yet.
pub open spec fn audit_missing(a: StartupRuntimeStateAudit) -> bool {
    &&& a.status@ == "not_materialized"@
    &&& !a.artifact_exists
    &&& a.startup_contract_sha_matches_current_contract is None
    &&& a.source_summary_field_matches is None
    &&& a.prompt_text_present is None
    &&& a.startup_next_action_present is None
    &&& a.startup_execution_gate_present is None
    &&& a.required_return_task_field_present is None
    &&& a.execctl_active_lease_field_present is None
    &&& a.project_task_tree_field_present is None
    &&& a.project_task_tree_summary_field_present is None
    &&& a.project_task_ledger_field_present is None
    &&& a.project_task_ledger_summary_field_present is None
    &&& a.resume_state is None
    &&& a.action_kind is None
    &&& a.lease_owner_state is None
    &&& a.must_follow_startup_next_action is None
    &&& a.unrelated_work_allowed is None
    &&& a.must_read_prompt_text_before_reply is None
    &&& a.required_action_kind_when_resume_required is None
    &&& a.no_silent_drop is None
    &&& a.artifact_gate_semantics_consistent_present is None
    &&& a.artifact_gate_semantics_consistent_matches_recomputed is None
    &&& a.gate_semantics_consistent is None
}

fn owned(o: Option<&str>) -> (r: Option<String>)
    ensures
        opt_string_view(r) == crate::gate::opt_seq(o),
{
    match o {
        Some(t) => Some(t.to_string()),
        None => None,
    }
}

fn str_is(o: Option<&str>, expected: &str) -> (b: bool)
    ensures
        b == (crate::gate::opt_seq(o) == Some(expected@)),
{
    match o {
        Some(t) => str_eq(t, expected),
        None => false,
    }
}

/// Audits the startup runtime state artifact at `output_path`, as read (`None` when no
/// artifact has been materialised), against the hash of the current startup contract and
/// the contract itself.
pub fn audit_startup_runtime_state(
    output_path: &str,
    payload: Option<&Json>,
    expected_contract_sha: &str,
    contract: &Json,
) -> (a: StartupRuntimeStateAudit)
    ensures
        a.output_path@ == output_path@,
        match payload {
            Some(p) => audit_of(a, p@, expected_contract_sha@, contract@),
            None => audit_missing(a),
        },
{
    let p = match payload {
        Some(p) => p,
        None => {
            return StartupRuntimeStateAudit {
                status: "not_materialized".to_string(),
                output_path: output_path.to_string(),
                artifact_exists: false,
                startup_contract_sha_matches_current_contract: None,
                source_summary_field_matches: None,
                prompt_text_present: None,
                startup_next_action_present: None,
                startup_execution_gate_present: None,
                required_return_task_field_present: None,
                execctl_active_lease_field_present: None,
                project_task_tree_field_present: None,
                project_task_tree_summary_field_present: None,
                project_task_ledger_field_present: None,
                project_task_ledger_summary_field_present: None,
                resume_state: None,
                action_kind: None,
                lease_owner_state: None,
                must_follow_startup_next_action: None,
                unrelated_work_allowed: None,
                must_read_prompt_text_before_reply: None,
                required_action_kind_when_resume_required: None,
                no_silent_drop: None,
                artifact_gate_semantics_consistent_present: None,
                artifact_gate_semantics_consistent_matches_recomputed: None,
                gate_semantics_consistent: None,
            };
        },
    };
    let summary = match get(p, "continuity_startup_summary") {
        Some(s) => s,
        None => &Json::Null,
    };
    let gate = match get(p, "startup_execution_gate") {
        Some(g) => g,
        None => &Json::Null,
    };
    let sha_matches = str_is(get_str(p, "startup_contract_sha256"), expected_contract_sha);
    let source_matches = str_is(get_str(p, "source_summary_field"), "continuity_startup_summary");
    let prompt_present = gate_prompt_present_exec(p);
    let next_action_present = match get(summary, "startup_next_action") {
        Some(x) => is_object(x),
        None => false,
    };
    let gate_present = is_object(gate);
    let rrt = contains_key(summary, "required_return_task");
    let lease = contains_key(summary, "execctl_active_lease");
    let tree = contains_key(summary, "project_task_tree");
    let tree_summary = contains_key(summary, "project_task_tree_summary");
    let ledger = contains_key(summary, "project_task_ledger");
    let ledger_summary = contains_key(summary, "project_task_ledger_summary");
    let resume_state = owned(get_str(summary, "execctl_resume_state"));
    let action_kind = owned(match get(summary, "startup_next_action") {
        Some(x) => get_str(x, "action_kind"),
        None => None,
    });
    let lease_owner_state = owned(match get(summary, "execctl_active_lease") {
        Some(x) => get_str(x, "lease_owner_state"),
        None => None,
    });
    let must_follow = get_bool(gate, "must_follow_startup_next_action");
    let unrelated = get_bool(gate, "unrelated_work_allowed");
    let must_read = get_bool(gate, "must_read_prompt_text_before_reply");
    let required_kind = owned(get_str(gate, "required_action_kind_when_resume_required"));
    let no_silent_drop = get_bool(gate, "no_silent_drop");
    let consistent = evaluate_startup_execution_gate_consistency(summary, gate, Some(prompt_present), contract);
    let recorded = get_bool(p, "gate_semantics_consistent");
    let recorded_present = recorded.is_some();
    let matches = match (recorded, consistent) {
        (Some(x), Some(y)) => Some(x == y),
        _ => None,
    };
    let in_order = str_is(get_str(p, "artifact_version"), STARTUP_RUNTIME_STATE_ARTIFACT_VERSION)
        && str_is(get_str(p, "source_tool"), "amai_continuity_startup") && sha_matches && source_matches
        && prompt_present && next_action_present && gate_present && rrt && lease && tree && tree_summary
        && ledger && ledger_summary && must_follow.is_some() && unrelated.is_some() && must_read.is_some()
        && required_kind.is_some() && no_silent_drop.is_some() && recorded_present && matches == Some(true)
        && consistent == Some(true);
    proof {
        reveal_strlit("workspace-startup-runtime-state-v4");
    }
    let status = if in_order {
        "ok".to_string()
    } else {
        "startup_runtime_state_drift".to_string()
    };
    StartupRuntimeStateAudit {
        status,
        output_path: output_path.to_string(),
        artifact_exists: true,
        startup_contract_sha_matches_current_contract: Some(sha_matches),
        source_summary_field_matches: Some(source_matches),
        prompt_text_present: Some(prompt_present),
        startup_next_action_present: Some(next_action_present),
        startup_execution_gate_present: Some(gate_present),
        required_return_task_field_present: Some(rrt),
        execctl_active_lease_field_present: Some(lease),
        project_task_tree_field_present: Some(tree),
        project_task_tree_summary_field_present: Some(tree_summary),
        project_task_ledger_field_present: Some(ledger),
        project_task_ledger_summary_field_present: Some(ledger_summary),
        resume_state,
        action_kind,
        lease_owner_state,
        must_follow_startup_next_action: must_follow,
        unrelated_work_allowed: unrelated,
        must_read_prompt_text_before_reply: must_read,
        required_action_kind_when_resume_required: required_kind,
        no_silent_drop,
        artifact_gate_semantics_consistent_present: Some(recorded_present),
        artifact_gate_semantics_consistent_matches_recomputed: matches,
        gate_semantics_consistent: consistent,
    }
}

} // verus!
