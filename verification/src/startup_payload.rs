//! The continuity startup payload: what a fresh session is handed, with the probes that
//! check the restore recovered something useful.
use vstd::prelude::*;
use crate::answer::{collapse_answer_text, collapsed_answer, normalize_next_step_value, normalized_next_step, opt_string, opt_view};
use crate::chat_start::{namespace_view, project_view, NamespaceRecord, ProjectRecord};
use crate::direct_answer::{opt_json, project_headline, project_next_step, str_or_empty};
use crate::json::{
    as_array, as_bool, as_str, as_u64, clone_json, field, get, get_str, get_u64, has_key, opt_str_view,
    str_json, Json, JsonView, ObjectBuilder,
};
use crate::labels::{no_data, opt_text, text_or};
use crate::projections::{
    normalized_handoff_summary_json, normalized_optional_text_json, normalized_restore_confidence_value,
    normalized_working_state_restore_projection, normalized_workspace_restore_pack_projection, text_json,
    working_state_projection, workspace_pack_projection,
};
use crate::text::{chars_of, contains, contains_exec, str_eq};

verus! {

/// A probe of the startup restore before it is judged: its name, the verdict class it
/// expects, and the evidence it gathered.
pub struct StartupProbe {
    pub name: String,
    pub expected_verdict_class: String,
    pub details: Json,
}

/// The mathematical form of a probe.
pub struct ProbeView {
    pub name: Seq<char>,
    pub expected: Seq<char>,
    pub details: JsonView,
}

pub open spec fn probe_view(p: StartupProbe) -> ProbeView {
    ProbeView { name: p.name@, expected: p.expected_verdict_class@, details: p.details@ }
}

pub open spec fn probes_view(ps: Seq<StartupProbe>) -> Seq<ProbeView> {
    ps.map_values(|p: StartupProbe| probe_view(p))
}

/// `value.get(key)`: the value under `key` of an object that holds it.
pub open spec fn get_view(v: JsonView, key: Seq<char>) -> Option<JsonView> {
    if has_key(v, key) {
        Some(field(v, key))
    } else {
        None
    }
}

/// The working-state restore of a restore payload.
pub open spec fn working_node(restore: Option<JsonView>) -> Option<JsonView> {
    match restore {
        Some(r) => get_view(r, "working_state_restore"@),
        None => None,
    }
}

/// The workspace restore pack: the payload's own, else the working-state restore's.
pub open spec fn pack_node(restore: Option<JsonView>) -> Option<JsonView> {
    let own = match restore {
        Some(r) => get_view(r, "workspace_restore_pack"@),
        None => None,
    };
    if own is Some {
        own
    } else {
        match working_node(restore) {
            Some(n) => get_view(n, "workspace_restore_pack"@),
            None => None,
        }
    }
}

pub open spec fn nonempty_str(v: JsonView) -> bool {
    match as_str(v) {
        Some(s) => s.len() > 0,
        None => false,
    }
}

/// Whether the working-state restore names a goal, a next step and the event it rests on.
pub open spec fn working_state_expected(node: Option<JsonView>) -> bool {
    match node {
        Some(n) => nonempty_str(field(n, "current_goal"@)) && nonempty_str(field(n, "next_step"@)) && nonempty_str(
            field(field(n, "state_lineage"@), "authoritative_event_id"@),
        ),
        None => false,
    }
}

/// A next step field, normalised, or the placeholder.
pub open spec fn step_or_no_data(v: JsonView) -> Seq<char> {
    text_or(
        match as_str(v) {
            Some(s) => normalized_next_step(s),
            None => None,
        },
        no_data(),
    )
}

pub open spec fn u64_or_zero(v: JsonView) -> nat {
    match as_u64(v) {
        Some(n) => n as nat,
        None => 0,
    }
}

/// The continuity source mode, and its namespace when there is a mode.
pub open spec fn source_mode(continuity: JsonView) -> Option<Seq<char>> {
    as_str(field(continuity, "continuity_source_mode"@))
}

pub open spec fn source_namespace(continuity: JsonView) -> Option<Seq<char>> {
    if source_mode(continuity) is Some {
        as_str(field(continuity, "continuity_source_namespace_code"@))
    } else {
        None
    }
}

pub open spec fn node_str(node: Option<JsonView>, key: Seq<char>) -> Option<Seq<char>> {
    match node {
        Some(n) => as_str(field(n, key)),
        None => None,
    }
}

/// The evidence that the startup summary was recovered.
pub open spec fn summary_probe_details(continuity: JsonView, handoff: JsonView, restore: Option<JsonView>) -> JsonView {
    let step = step_or_no_data(field(handoff, "next_step"@));
    let expected = (u64_or_zero(field(continuity, "imported_at_epoch_ms"@)) > 0 && u64_or_zero(
        field(continuity, "documents_imported"@),
    ) > 0) || (source_mode(continuity) == Some("working_state_fallback"@) && nonempty_str(
        field(handoff, "headline"@),
    ) && step.len() > 0 && working_state_expected(working_node(restore)));
    JsonView::Object(
        seq![
            ("expected_present"@, JsonView::Bool(expected)),
            ("unexpected_present"@, JsonView::Bool(false)),
            ("imported_at_epoch_ms"@, field(continuity, "imported_at_epoch_ms"@)),
            ("documents_imported"@, field(continuity, "documents_imported"@)),
            ("continuity_source_mode"@, text_json(non_blank(source_mode(continuity)))),
            ("continuity_source_namespace_code"@, text_json(non_blank(source_namespace(continuity)))),
            ("headline"@, text_json(non_blank(as_str(field(handoff, "headline"@))))),
            ("next_step"@, JsonView::Str(step)),
        ],
    )
}

/// An optional text, trimmed, when that leaves text.
pub open spec fn non_blank(o: Option<Seq<char>>) -> Option<Seq<char>> {
    match o {
        Some(s) => crate::text::non_empty_trimmed(s),
        None => None,
    }
}

/// The evidence that the chat-start prompt recovered the line and its next step.
pub open spec fn prompt_probe_details(chat_start_node: JsonView) -> JsonView {
    let prompt = str_or_empty(field(chat_start_node, "prompt_text"@));
    let headline = text_or(as_str(field(chat_start_node, "headline"@)), no_data());
    let step = step_or_no_data(field(chat_start_node, "next_step"@));
    let expected = prompt.len() > 0 && contains(prompt, "CHAT_START_RESTORE"@) && contains(
        prompt,
        collapsed_answer(headline, 64),
    ) && contains(prompt, collapsed_answer(step, 80));
    JsonView::Object(
        seq![
            ("expected_present"@, JsonView::Bool(expected)),
            ("unexpected_present"@, JsonView::Bool(false)),
            ("headline"@, JsonView::Str(headline)),
            ("next_step"@, JsonView::Str(step)),
            ("prompt_text"@, JsonView::Str(prompt)),
        ],
    )
}

/// The evidence that the working-state restore was recovered.
pub open spec fn working_probe_details(node: Option<JsonView>) -> JsonView {
    JsonView::Object(
        seq![
            ("expected_present"@, JsonView::Bool(working_state_expected(node))),
            ("unexpected_present"@, JsonView::Bool(false)),
            ("current_goal"@, text_json(non_blank(node_str(node, "current_goal"@)))),
            ("next_step"@, text_json(non_blank(node_str(node, "next_step"@)))),
            (
                "restore_confidence"@,
                match node {
                    Some(n) => field(n, "restore_confidence"@),
                    None => JsonView::Null,
                },
            ),
            (
                "authoritative_event_id"@,
                text_json(
                    non_blank(
                        match node {
                            Some(n) => as_str(field(field(n, "state_lineage"@), "authoritative_event_id"@)),
                            None => None,
                        },
                    ),
                ),
            ),
        ],
    )
}

/// Whether the workspace restore pack holds its lists and forbids the raw procedural
/// archive.
pub open spec fn pack_expected(node: Option<JsonView>) -> bool {
    match node {
        Some(n) => as_array(field(n, "active_commitments"@)) is Some && as_array(field(n, "active_constraints"@))
            is Some && as_array(field(n, "important_artifacts"@)) is Some && as_bool(
            field(field(n, "procedural_restore_policy"@), "raw_procedural_archive_forbidden"@),
        ) == Some(true),
        None => false,
    }
}

/// The evidence that the workspace restore pack was recovered.
pub open spec fn pack_probe_details(node: Option<JsonView>) -> JsonView {
    JsonView::Object(
        seq![
            ("expected_present"@, JsonView::Bool(pack_expected(node))),
            ("unexpected_present"@, JsonView::Bool(false)),
            ("summary"@, text_json(non_blank(node_str(node, "summary"@)))),
            (
                "procedural_surface"@,
                text_json(
                    non_blank(
                        match node {
                            Some(n) => as_str(field(field(n, "procedural_restore_policy"@), "materialized_surface"@)),
                            None => None,
                        },
                    ),
                ),
            ),
        ],
    )
}

pub open spec fn recovered_or_under(present: bool) -> Seq<char> {
    if present {
        "recovered_useful"@
    } else {
        "under_retrieved"@
    }
}

/// The four startup probes: the startup summary, the chat-start prompt, the
/// working-state restore and the workspace restore pack.
pub open spec fn startup_probes(
    continuity: JsonView,
    handoff: JsonView,
    restore: Option<JsonView>,
    chat_start_restore: JsonView,
) -> Seq<ProbeView> {
    seq![
        ProbeView {
            name: "startup_summary_recovered_useful"@,
            expected: "recovered_useful"@,
            details: summary_probe_details(continuity, handoff, restore),
        },
        ProbeView {
            name: "chat_start_restore_recovered_useful"@,
            expected: "recovered_useful"@,
            details: prompt_probe_details(field(chat_start_restore, "chat_start_restore"@)),
        },
        ProbeView {
            name: "working_state_restore_recovered_useful"@,
            expected: recovered_or_under(working_node(restore) is Some),
            details: working_probe_details(working_node(restore)),
        },
        ProbeView {
            name: "workspace_restore_pack_recovered_useful"@,
            expected: recovered_or_under(pack_node(restore) is Some),
            details: pack_probe_details(pack_node(restore)),
        },
    ]
}

fn get_opt<'a>(v: &'a Json, key: &str) -> (r: Option<&'a Json>)
    ensures
        match r {
            Some(x) => get_view(v@, key@) == Some(x@),
            None => get_view(v@, key@) is None,
        },
{
    if crate::json::contains_key(v, key) {
        match get(v, key) {
            Some(x) => Some(x),
            None => Some(&Json::Null),
        }
    } else {
        None
    }
}

fn working_node_exec<'a>(restore: Option<&'a Json>) -> (r: Option<&'a Json>)
    ensures
        opt_json(r) == working_node(opt_json(restore)),
{
    match restore {
        Some(x) => get_opt(x, "working_state_restore"),
        None => None,
    }
}

fn pack_node_exec<'a>(restore: Option<&'a Json>) -> (r: Option<&'a Json>)
    ensures
        opt_json(r) == pack_node(opt_json(restore)),
{
    let own = match restore {
        Some(x) => get_opt(x, "workspace_restore_pack"),
        None => None,
    };
    if own.is_some() {
        return own;
    }
    match working_node_exec(restore) {
        Some(n) => get_opt(n, "workspace_restore_pack"),
        None => None,
    }
}

fn field_ref<'a>(v: &'a Json, key: &str) -> (r: &'a Json)
    ensures
        r@ == field(v@, key@),
{
    match get(v, key) {
        Some(x) => x,
        None => &Json::Null,
    }
}

fn nonempty_str_exec(v: &Json) -> (b: bool)
    ensures
        b == nonempty_str(v@),
{
    match v {
        Json::Str(s) => s.as_str().unicode_len() > 0,
        _ => false,
    }
}

fn working_state_expected_exec(node: Option<&Json>) -> (b: bool)
    ensures
        b == working_state_expected(opt_json(node)),
{
    match node {
        Some(n) => nonempty_str_exec(field_ref(n, "current_goal")) && nonempty_str_exec(field_ref(n, "next_step"))
            && nonempty_str_exec(field_ref(field_ref(n, "state_lineage"), "authoritative_event_id")),
        None => false,
    }
}

fn step_or_no_data_exec(v: &Json) -> (r: String)
    ensures
        r@ == step_or_no_data(v@),
{
    let n = match v {
        Json::Str(s) => normalize_next_step_value(s.as_str()),
        _ => None,
    };
    match n {
        Some(t) => t,
        None => "ещё нет данных".to_string(),
    }
}

fn u64_or_zero_exec(v: &Json) -> (r: u64)
    ensures
        r as nat == u64_or_zero(v@),
{
    match v {
        Json::Number(n) => {
            if 0 <= *n && *n <= u64::MAX as i128 {
                *n as u64
            } else {
                0
            }
        },
        _ => 0,
    }
}

fn node_str_exec<'a>(node: Option<&'a Json>, key: &str) -> (r: Option<&'a str>)
    ensures
        opt_view(r) == node_str(opt_json(node), key@),
{
    match node {
        Some(n) => get_str(n, key),
        None => None,
    }
}

fn summary_probe_exec(continuity: &Json, handoff: &Json, restore: Option<&Json>) -> (r: Json)
    ensures
        r@ == summary_probe_details(continuity@, handoff@, opt_json(restore)),
{
    let step = step_or_no_data_exec(field_ref(handoff, "next_step"));
    let mode = get_str(continuity, "continuity_source_mode");
    let ns = match mode {
        Some(_) => get_str(continuity, "continuity_source_namespace_code"),
        None => None,
    };
    let imported = u64_or_zero_exec(field_ref(continuity, "imported_at_epoch_ms"));
    let documents = u64_or_zero_exec(field_ref(continuity, "documents_imported"));
    let fallback = match mode {
        Some(m) => str_eq(m, "working_state_fallback"),
        None => false,
    };
    let expected = (imported > 0 && documents > 0) || (fallback && nonempty_str_exec(field_ref(handoff, "headline"))
        && step.as_str().unicode_len() > 0 && working_state_expected_exec(working_node_exec(restore)));
    let ghost c = continuity@;
    let ghost h = handoff@;
    let mut b = ObjectBuilder::new();
    b.push("expected_present", Json::Bool(expected));
    b.push("unexpected_present", Json::Bool(false));
    b.push("imported_at_epoch_ms", clone_json(field_ref(continuity, "imported_at_epoch_ms")));
    b.push("documents_imported", clone_json(field_ref(continuity, "documents_imported")));
    b.push("continuity_source_mode", normalized_optional_text_json(mode));
    b.push("continuity_source_namespace_code", normalized_optional_text_json(ns));
    b.push("headline", normalized_optional_text_json(get_str(handoff, "headline")));
    b.push("next_step", str_json(step.as_str()));
    assert(b.view_entries() =~= summary_probe_details(c, h, opt_json(restore))->Object_0);
    b.build()
}

fn prompt_probe_exec(chat_start_node: &Json) -> (r: Json)
    ensures
        r@ == prompt_probe_details(chat_start_node@),
{
    let prompt = match get_str(chat_start_node, "prompt_text") {
        Some(t) => t,
        None => "",
    };
    proof {
        reveal_strlit("");
    }
    let headline = match get_str(chat_start_node, "headline") {
        Some(t) => t,
        None => "ещё нет данных",
    };
    let step = step_or_no_data_exec(field_ref(chat_start_node, "next_step"));
    let pv = chars_of(prompt);
    let marker = chars_of("CHAT_START_RESTORE");
    let compact_headline = chars_of(collapse_answer_text(headline, 64).as_str());
    let compact_step = chars_of(collapse_answer_text(step.as_str(), 80).as_str());
    let expected = pv.len() > 0 && contains_exec(pv.as_slice(), marker.as_slice()) && contains_exec(
        pv.as_slice(),
        compact_headline.as_slice(),
    ) && contains_exec(pv.as_slice(), compact_step.as_slice());
    let ghost n = chat_start_node@;
    assert(prompt@ == str_or_empty(field(n, "prompt_text"@)));
    assert(headline@ == text_or(as_str(field(n, "headline"@)), no_data()));
    assert(expected == (prompt@.len() > 0 && contains(prompt@, "CHAT_START_RESTORE"@) && contains(
        prompt@,
        collapsed_answer(headline@, 64),
    ) && contains(prompt@, collapsed_answer(step@, 80))));
    let mut b = ObjectBuilder::new();
    b.push("expected_present", Json::Bool(expected));
    b.push("unexpected_present", Json::Bool(false));
    b.push("headline", str_json(headline));
    b.push("next_step", str_json(step.as_str()));
    b.push("prompt_text", str_json(prompt));
    assert(b.view_entries() =~= prompt_probe_details(n)->Object_0);
    b.build()
}

fn working_probe_exec(node: Option<&Json>) -> (r: Json)
    ensures
        r@ == working_probe_details(opt_json(node)),
{
    let lineage_event = match node {
        Some(n) => get_str(field_ref(n, "state_lineage"), "authoritative_event_id"),
        None => None,
    };
    let mut b = ObjectBuilder::new();
    b.push("expected_present", Json::Bool(working_state_expected_exec(node)));
    b.push("unexpected_present", Json::Bool(false));
    b.push("current_goal", normalized_optional_text_json(node_str_exec(node, "current_goal")));
    b.push("next_step", normalized_optional_text_json(node_str_exec(node, "next_step")));
    b.push("restore_confidence", normalized_restore_confidence_value(node));
    b.push("authoritative_event_id", normalized_optional_text_json(lineage_event));
    assert(b.view_entries() =~= working_probe_details(opt_json(node))->Object_0);
    b.build()
}

fn pack_expected_exec(node: Option<&Json>) -> (b: bool)
    ensures
        b == pack_expected(opt_json(node)),
{
    match node {
        Some(n) => crate::json::is_array(field_ref(n, "active_commitments")) && crate::json::is_array(
            field_ref(n, "active_constraints"),
        ) && crate::json::is_array(field_ref(n, "important_artifacts")) && crate::json::get_bool(
            field_ref(n, "procedural_restore_policy"),
            "raw_procedural_archive_forbidden",
        ) == Some(true),
        None => false,
    }
}

fn pack_probe_exec(node: Option<&Json>) -> (r: Json)
    ensures
        r@ == pack_probe_details(opt_json(node)),
{
    let surface = match node {
        Some(n) => get_str(field_ref(n, "procedural_restore_policy"), "materialized_surface"),
        None => None,
    };
    let mut b = ObjectBuilder::new();
    b.push("expected_present", Json::Bool(pack_expected_exec(node)));
    b.push("unexpected_present", Json::Bool(false));
    b.push("summary", normalized_optional_text_json(node_str_exec(node, "summary")));
    b.push("procedural_surface", normalized_optional_text_json(surface));
    assert(b.view_entries() =~= pack_probe_details(opt_json(node))->Object_0);
    b.build()
}

fn class_of(present: bool) -> (r: String)
    ensures
        r@ == recovered_or_under(present),
{
    if present {
        "recovered_useful".to_string()
    } else {
        "under_retrieved".to_string()
    }
}

/// The four startup probes, before they are judged.
pub fn continuity_startup_probes(
    continuity: &Json,
    handoff_summary: &Json,
    restore: Option<&Json>,
    chat_start_restore: &Json,
) -> (r: Vec<StartupProbe>)
    ensures
        probes_view(r@) == startup_probes(continuity@, handoff_summary@, opt_json(restore), chat_start_restore@),
{
    let working = working_node_exec(restore);
    let pack = pack_node_exec(restore);
    let mut probes: Vec<StartupProbe> = Vec::new();
    probes.push(
        StartupProbe {
            name: "startup_summary_recovered_useful".to_string(),
            expected_verdict_class: "recovered_useful".to_string(),
            details: summary_probe_exec(continuity, handoff_summary, restore),
        },
    );
    probes.push(
        StartupProbe {
            name: "chat_start_restore_recovered_useful".to_string(),
            expected_verdict_class: "recovered_useful".to_string(),
            details: prompt_probe_exec(field_ref(chat_start_restore, "chat_start_restore")),
        },
    );
    probes.push(
        StartupProbe {
            name: "working_state_restore_recovered_useful".to_string(),
            expected_verdict_class: class_of(working.is_some()),
            details: working_probe_exec(working),
        },
    );
    probes.push(
        StartupProbe {
            name: "workspace_restore_pack_recovered_useful".to_string(),
            expected_verdict_class: class_of(pack.is_some()),
            details: pack_probe_exec(pack),
        },
    );
    assert(probes_view(probes@) =~= startup_probes(
        continuity@,
        handoff_summary@,
        opt_json(restore),
        chat_start_restore@,
    ));
    probes
}

/// Whether the eval-layer rule may judge `probes` as `out`.
pub open spec fn evaluated_as<E: Fn(&Vec<StartupProbe>) -> Json>(judge: E, probes: Seq<ProbeView>, out: JsonView) -> bool {
    exists|ps: &Vec<StartupProbe>, o: Json| probes_view(ps@) == probes && o@ == out && #[trigger] judge.ensures((ps,), o)
}

/// The handoff summary a session is handed: the headline and normalised next step, each
/// the placeholder when missing.
pub open spec fn handoff_view(handoff: JsonView) -> JsonView {
    JsonView::Object(
        seq![
            ("headline"@, JsonView::Str(project_headline(handoff))),
            ("next_step"@, JsonView::Str(project_next_step(handoff))),
        ],
    )
}

/// The `continuity_startup` part of the payload; `eval` is the judged probes.
pub open spec fn startup_section(
    project: ProjectRecord,
    namespace: NamespaceRecord,
    continuity: JsonView,
    handoff: JsonView,
    eval: JsonView,
) -> JsonView {
    JsonView::Object(
        seq![
            ("project"@, project_view(project)),
            ("namespace"@, namespace_view(namespace)),
            ("imported_at_epoch_ms"@, field(continuity, "imported_at_epoch_ms"@)),
            ("documents_imported"@, field(continuity, "documents_imported"@)),
            ("rendered_transcript_files"@, field(continuity, "rendered_transcript_files"@)),
            (
                "continuity_source"@,
                JsonView::Object(
                    seq![
                        ("mode"@, text_json(non_blank(source_mode(continuity)))),
                        ("source_namespace_code"@, text_json(non_blank(source_namespace(continuity)))),
                    ],
                ),
            ),
            ("handoff_summary"@, handoff_view(handoff)),
            ("canonical_eval"@, eval),
        ],
    )
}

/// The continuity startup payload: the startup section, the chat-start restore (also as
/// the delivery-surface restore), the working-state restore and the workspace restore
/// pack when there are any, and the retrieval-science metadata and degradation policy.
pub open spec fn startup_payload_view(
    project: ProjectRecord,
    namespace: NamespaceRecord,
    continuity: JsonView,
    handoff: JsonView,
    restore: Option<JsonView>,
    chat_start_restore: JsonView,
    eval: JsonView,
    retrieval_science: JsonView,
    degradation_policy: JsonView,
) -> JsonView {
    let csn = field(chat_start_restore, "chat_start_restore"@);
    let base = seq![
        ("continuity_startup"@, startup_section(project, namespace, continuity, handoff, eval)),
        ("chat_start_restore"@, csn),
        ("delivery_surface_restore"@, csn),
    ];
    let with_working = match working_node(restore) {
        Some(n) => base.push(("working_state_restore"@, working_state_projection(n))),
        None => base,
    };
    let with_pack = match pack_node(restore) {
        Some(n) => with_working.push(("workspace_restore_pack"@, workspace_pack_projection(n))),
        None => with_working,
    };
    JsonView::Object(
        with_pack.push(("retrieval_science"@, retrieval_science)).push(("degradation_policy"@, degradation_policy)),
    )
}

pub(crate) fn handoff_json(handoff: &Json) -> (r: Json)
    ensures
        r@ == handoff_view(handoff@),
{
    let h = get_str(handoff, "headline");
    let n = get_str(handoff, "next_step");
    assert(opt_text(h) == as_text_of(handoff@, "headline"@));
    assert(crate::projections::text_or_empty(n) == str_or_empty(field(handoff@, "next_step"@)));
    normalized_handoff_summary_json(h, n)
}

pub open spec fn as_text_of(v: JsonView, key: Seq<char>) -> Option<Seq<char>> {
    crate::json::as_text(field(v, key))
}

fn startup_section_exec(
    project: &ProjectRecord,
    namespace: &NamespaceRecord,
    continuity: &Json,
    handoff: &Json,
    eval: Json,
) -> (r: Json)
    ensures
        r@ == startup_section(*project, *namespace, continuity@, handoff@, eval@),
{
    let mode = get_str(continuity, "continuity_source_mode");
    let ns = match mode {
        Some(_) => get_str(continuity, "continuity_source_namespace_code"),
        None => None,
    };
    let mut source = ObjectBuilder::new();
    source.push("mode", normalized_optional_text_json(mode));
    source.push("source_namespace_code", normalized_optional_text_json(ns));
    let ghost c = continuity@;
    assert(source.view_entries() =~= seq![
        ("mode"@, text_json(non_blank(source_mode(c)))),
        ("source_namespace_code"@, text_json(non_blank(source_namespace(c)))),
    ]);
    let mut pb = ObjectBuilder::new();
    pb.push("code", str_json(project.code.as_str()));
    pb.push("display_name", str_json(project.display_name.as_str()));
    pb.push("repo_root", str_json(project.repo_root.as_str()));
    assert(pb.view_entries() =~= project_view(*project)->Object_0);
    let mut nb = ObjectBuilder::new();
    nb.push("code", str_json(namespace.code.as_str()));
    nb.push("display_name", str_json(namespace.display_name.as_str()));
    assert(nb.view_entries() =~= namespace_view(*namespace)->Object_0);
    let ghost ev = eval@;
    let mut b = ObjectBuilder::new();
    b.push("project", pb.build());
    b.push("namespace", nb.build());
    b.push("imported_at_epoch_ms", clone_json(field_ref(continuity, "imported_at_epoch_ms")));
    b.push("documents_imported", clone_json(field_ref(continuity, "documents_imported")));
    b.push("rendered_transcript_files", clone_json(field_ref(continuity, "rendered_transcript_files")));
    b.push("continuity_source", source.build());
    b.push("handoff_summary", handoff_json(handoff));
    b.push("canonical_eval", eval);
    assert(b.view_entries() =~= startup_section(*project, *namespace, c, handoff@, ev)->Object_0);
    b.build()
}

/// The continuity startup payload. `canonical_eval` is the eval layer's rule that judges
/// the startup probes and summarises the verdicts; `retrieval_science` and
/// `degradation_policy` are the suite metadata and degradation policy of the retrieval
/// science it reports under.
pub fn build_continuity_startup_payload<E: Fn(&Vec<StartupProbe>) -> Json>(
    project: &ProjectRecord,
    namespace: &NamespaceRecord,
    continuity: &Json,
    handoff_summary: &Json,
    restore: Option<&Json>,
    chat_start_restore: &Json,
    canonical_eval: &E,
    retrieval_science: Json,
    degradation_policy: Json,
) -> (r: Json)
    requires
        forall|ps: &Vec<StartupProbe>| #[trigger] canonical_eval.requires((ps,)),
    ensures
        exists|eval: JsonView|
            #[trigger] evaluated_as(
                *canonical_eval,
                startup_probes(continuity@, handoff_summary@, opt_json(restore), chat_start_restore@),
                eval,
            ) && r@ == startup_payload_view(
                *project,
                *namespace,
                continuity@,
                handoff_summary@,
                opt_json(restore),
                chat_start_restore@,
                eval,
                retrieval_science@,
                degradation_policy@,
            ),
{
    let probes = continuity_startup_probes(continuity, handoff_summary, restore, chat_start_restore);
    let eval = canonical_eval(&probes);
    assert(canonical_eval.ensures((&probes,), eval));
    let ghost ev = eval@;
    assert(evaluated_as(
        *canonical_eval,
        startup_probes(continuity@, handoff_summary@, opt_json(restore), chat_start_restore@),
        ev,
    ));
    let csn = field_ref(chat_start_restore, "chat_start_restore");
    let working = working_node_exec(restore);
    let pack = pack_node_exec(restore);
    let mut b = ObjectBuilder::new();
    b.push("continuity_startup", startup_section_exec(project, namespace, continuity, handoff_summary, eval));
    b.push("chat_start_restore", clone_json(csn));
    b.push("delivery_surface_restore", clone_json(csn));
    let ghost base = seq![
        ("continuity_startup"@, startup_section(*project, *namespace, continuity@, handoff_summary@, ev)),
        ("chat_start_restore"@, csn@),
        ("delivery_surface_restore"@, csn@),
    ];
    assert(b.view_entries() =~= base);
    let ghost with_working = match working_node(opt_json(restore)) {
        Some(n) => base.push(("working_state_restore"@, working_state_projection(n))),
        None => base,
    };
    match working {
        Some(n) => b.push("working_state_restore", normalized_working_state_restore_projection(Some(n))),
        None => {},
    }
    assert(b.view_entries() == with_working);
    let ghost with_pack = match pack_node(opt_json(restore)) {
        Some(n) => with_working.push(("workspace_restore_pack"@, workspace_pack_projection(n))),
        None => with_working,
    };
    match pack {
        Some(n) => b.push("workspace_restore_pack", normalized_workspace_restore_pack_projection(Some(n))),
        None => {},
    }
    assert(b.view_entries() == with_pack);
    let ghost sv = retrieval_science@;
    let ghost dv = degradation_policy@;
    b.push("retrieval_science", retrieval_science);
    b.push("degradation_policy", degradation_policy);
    let r = b.build();
    assert(r@ == startup_payload_view(
        *project,
        *namespace,
        continuity@,
        handoff_summary@,
        opt_json(restore),
        chat_start_restore@,
        ev,
        sv,
        dv,
    ));
    r
}

/// The evidence that the chat-start prompt recovered the line and next step, as the
/// restore payload gathers it: the pack's headline trimmed.
pub open spec fn restore_prompt_probe_details(chat_start_node: JsonView) -> JsonView {
    let prompt = str_or_empty(field(chat_start_node, "prompt_text"@));
    let headline = text_or(crate::json::as_text(field(chat_start_node, "headline"@)), no_data());
    let step = text_or(normalized_next_step(str_or_empty(field(chat_start_node, "next_step"@))), no_data());
    let expected = prompt.len() > 0 && contains(prompt, "CHAT_START_RESTORE"@) && contains(
        prompt,
        collapsed_answer(headline, 64),
    ) && contains(prompt, collapsed_answer(step, 80));
    JsonView::Object(
        seq![
            ("expected_present"@, JsonView::Bool(expected)),
            ("unexpected_present"@, JsonView::Bool(false)),
            ("headline"@, JsonView::Str(headline)),
            ("next_step"@, JsonView::Str(step)),
            ("prompt_text"@, JsonView::Str(prompt)),
        ],
    )
}

/// The evidence that the working-state restore was recovered, as the restore payload
/// gathers it.
pub open spec fn restore_working_probe_details(node: JsonView) -> JsonView {
    let goal = str_or_empty(field(node, "current_goal"@));
    let step = str_or_empty(field(node, "next_step"@));
    let event = str_or_empty(field(field(node, "state_lineage"@), "authoritative_event_id"@));
    JsonView::Object(
        seq![
            ("expected_present"@, JsonView::Bool(goal.len() > 0 && step.len() > 0 && event.len() > 0)),
            ("unexpected_present"@, JsonView::Bool(false)),
            ("current_goal"@, text_json(crate::text::non_empty_trimmed(goal))),
            ("next_step"@, text_json(crate::text::non_empty_trimmed(step))),
            ("restore_confidence"@, field(node, "restore_confidence"@)),
            ("authoritative_event_id"@, text_json(crate::text::non_empty_trimmed(event))),
        ],
    )
}

/// The workspace restore pack of a restore payload: its own when it is an object, else
/// the working-state restore's.
pub open spec fn restore_pack_node(restore: JsonView) -> JsonView {
    if field(restore, "workspace_restore_pack"@) is Object {
        field(restore, "workspace_restore_pack"@)
    } else {
        field(field(restore, "working_state_restore"@), "workspace_restore_pack"@)
    }
}

/// The three probes of a continuity restore: the chat-start prompt, the working-state
/// restore and the workspace restore pack.
pub open spec fn restore_probes(restore: JsonView, chat_start_restore: JsonView) -> Seq<ProbeView> {
    seq![
        ProbeView {
            name: "chat_start_restore_recovered_useful"@,
            expected: "recovered_useful"@,
            details: restore_prompt_probe_details(field(chat_start_restore, "chat_start_restore"@)),
        },
        ProbeView {
            name: "working_state_restore_recovered_useful"@,
            expected: "recovered_useful"@,
            details: restore_working_probe_details(field(restore, "working_state_restore"@)),
        },
        ProbeView {
            name: "workspace_restore_pack_recovered_useful"@,
            expected: "recovered_useful"@,
            details: pack_probe_details(Some(restore_pack_node(restore))),
        },
    ]
}

/// The continuity restore payload; `eval` is the judged probes.
pub open spec fn restore_payload_view(
    project: ProjectRecord,
    namespace: NamespaceRecord,
    continuity: JsonView,
    handoff: JsonView,
    restore: JsonView,
    chat_start_restore: JsonView,
    eval: JsonView,
    retrieval_science: JsonView,
    degradation_policy: JsonView,
) -> JsonView {
    JsonView::Object(
        seq![
            (
                "continuity_restore"@,
                JsonView::Object(
                    seq![
                        ("project"@, project_view(project)),
                        ("namespace"@, namespace_view(namespace)),
                        ("imported_at_epoch_ms"@, field(continuity, "imported_at_epoch_ms"@)),
                        ("handoff_summary"@, handoff_view(handoff)),
                        ("canonical_eval"@, eval),
                    ],
                ),
            ),
            ("chat_start_restore"@, field(chat_start_restore, "chat_start_restore"@)),
            ("working_state_restore"@, working_state_projection(field(restore, "working_state_restore"@))),
            ("workspace_restore_pack"@, workspace_pack_projection(restore_pack_node(restore))),
            ("retrieval_science"@, retrieval_science),
            ("degradation_policy"@, degradation_policy),
        ],
    )
}

fn str_or_empty_exec<'a>(v: &'a Json) -> (r: &'a str)
    ensures
        r@ == str_or_empty(v@),
{
    proof {
        reveal_strlit("");
    }
    match v {
        Json::Str(s) => s.as_str(),
        _ => "",
    }
}

fn restore_prompt_probe_exec(chat_start_node: &Json) -> (r: Json)
    ensures
        r@ == restore_prompt_probe_details(chat_start_node@),
{
    let prompt = str_or_empty_exec(field_ref(chat_start_node, "prompt_text"));
    let raw_headline = get_str(chat_start_node, "headline");
    let headline = crate::labels::format_optional_text_for_human(raw_headline);
    assert(opt_text(raw_headline) == crate::json::as_text(field(chat_start_node@, "headline"@)));
    let raw_step = str_or_empty_exec(field_ref(chat_start_node, "next_step"));
    let step = match normalize_next_step_value(raw_step) {
        Some(t) => t,
        None => "ещё нет данных".to_string(),
    };
    let pv = chars_of(prompt);
    let marker = chars_of("CHAT_START_RESTORE");
    let compact_headline = chars_of(collapse_answer_text(headline.as_str(), 64).as_str());
    let compact_step = chars_of(collapse_answer_text(step.as_str(), 80).as_str());
    let expected = pv.len() > 0 && contains_exec(pv.as_slice(), marker.as_slice()) && contains_exec(
        pv.as_slice(),
        compact_headline.as_slice(),
    ) && contains_exec(pv.as_slice(), compact_step.as_slice());
    let ghost n = chat_start_node@;
    assert(expected == (prompt@.len() > 0 && contains(prompt@, "CHAT_START_RESTORE"@) && contains(
        prompt@,
        collapsed_answer(headline@, 64),
    ) && contains(prompt@, collapsed_answer(step@, 80))));
    let mut b = ObjectBuilder::new();
    b.push("expected_present", Json::Bool(expected));
    b.push("unexpected_present", Json::Bool(false));
    b.push("headline", str_json(headline.as_str()));
    b.push("next_step", str_json(step.as_str()));
    b.push("prompt_text", str_json(prompt));
    assert(b.view_entries() =~= restore_prompt_probe_details(n)->Object_0);
    b.build()
}

fn restore_working_probe_exec(node: &Json) -> (r: Json)
    ensures
        r@ == restore_working_probe_details(node@),
{
    let goal = str_or_empty_exec(field_ref(node, "current_goal"));
    let step = str_or_empty_exec(field_ref(node, "next_step"));
    let event = str_or_empty_exec(field_ref(field_ref(node, "state_lineage"), "authoritative_event_id"));
    let expected = goal.unicode_len() > 0 && step.unicode_len() > 0 && event.unicode_len() > 0;
    let mut b = ObjectBuilder::new();
    b.push("expected_present", Json::Bool(expected));
    b.push("unexpected_present", Json::Bool(false));
    b.push("current_goal", normalized_optional_text_json(Some(goal)));
    b.push("next_step", normalized_optional_text_json(Some(step)));
    b.push("restore_confidence", clone_json(field_ref(node, "restore_confidence")));
    b.push("authoritative_event_id", normalized_optional_text_json(Some(event)));
    assert(b.view_entries() =~= restore_working_probe_details(node@)->Object_0);
    b.build()
}

fn restore_pack_node_exec(restore: &Json) -> (r: &Json)
    ensures
        r@ == restore_pack_node(restore@),
{
    let own = field_ref(restore, "workspace_restore_pack");
    if crate::json::is_object(own) {
        own
    } else {
        field_ref(field_ref(restore, "working_state_restore"), "workspace_restore_pack")
    }
}

/// The three probes of a continuity restore, before they are judged.
pub fn continuity_restore_probes(restore: &Json, chat_start_restore: &Json) -> (r: Vec<StartupProbe>)
    ensures
        probes_view(r@) == restore_probes(restore@, chat_start_restore@),
{
    let mut probes: Vec<StartupProbe> = Vec::new();
    probes.push(
        StartupProbe {
            name: "chat_start_restore_recovered_useful".to_string(),
            expected_verdict_class: "recovered_useful".to_string(),
            details: restore_prompt_probe_exec(field_ref(chat_start_restore, "chat_start_restore")),
        },
    );
    probes.push(
        StartupProbe {
            name: "working_state_restore_recovered_useful".to_string(),
            expected_verdict_class: "recovered_useful".to_string(),
            details: restore_working_probe_exec(field_ref(restore, "working_state_restore")),
        },
    );
    probes.push(
        StartupProbe {
            name: "workspace_restore_pack_recovered_useful".to_string(),
            expected_verdict_class: "recovered_useful".to_string(),
            details: pack_probe_exec(Some(restore_pack_node_exec(restore))),
        },
    );
    assert(probes_view(probes@) =~= restore_probes(restore@, chat_start_restore@));
    probes
}

/// The continuity restore payload. `canonical_eval` is the eval layer's rule that judges
/// the restore probes; `retrieval_science` and `degradation_policy` are the suite
/// metadata and degradation policy of the retrieval science it reports under.
pub fn build_continuity_restore_payload<E: Fn(&Vec<StartupProbe>) -> Json>(
    project: &ProjectRecord,
    namespace: &NamespaceRecord,
    continuity: &Json,
    handoff_summary: &Json,
    restore: &Json,
    chat_start_restore: &Json,
    canonical_eval: &E,
    retrieval_science: Json,
    degradation_policy: Json,
) -> (r: Json)
    requires
        forall|ps: &Vec<StartupProbe>| #[trigger] canonical_eval.requires((ps,)),
    ensures
        exists|eval: JsonView|
            #[trigger] evaluated_as(*canonical_eval, restore_probes(restore@, chat_start_restore@), eval) && r@
                == restore_payload_view(
                *project,
                *namespace,
                continuity@,
                handoff_summary@,
                restore@,
                chat_start_restore@,
                eval,
                retrieval_science@,
                degradation_policy@,
            ),
{
    let probes = continuity_restore_probes(restore, chat_start_restore);
    let eval = canonical_eval(&probes);
    assert(canonical_eval.ensures((&probes,), eval));
    let ghost ev = eval@;
    assert(evaluated_as(*canonical_eval, restore_probes(restore@, chat_start_restore@), ev));
    let mut pb = ObjectBuilder::new();
    pb.push("code", str_json(project.code.as_str()));
    pb.push("display_name", str_json(project.display_name.as_str()));
    pb.push("repo_root", str_json(project.repo_root.as_str()));
    assert(pb.view_entries() =~= project_view(*project)->Object_0);
    let mut nb = ObjectBuilder::new();
    nb.push("code", str_json(namespace.code.as_str()));
    nb.push("display_name", str_json(namespace.display_name.as_str()));
    assert(nb.view_entries() =~= namespace_view(*namespace)->Object_0);
    let mut section = ObjectBuilder::new();
    section.push("project", pb.build());
    section.push("namespace", nb.build());
    section.push("imported_at_epoch_ms", clone_json(field_ref(continuity, "imported_at_epoch_ms")));
    section.push("handoff_summary", handoff_json(handoff_summary));
    section.push("canonical_eval", eval);
    let ghost section_entries = section.view_entries();
    let section_json = section.build();
    let ghost section_v = section_json@;
    let working = field_ref(restore, "working_state_restore");
    let ghost sv = retrieval_science@;
    let ghost dv = degradation_policy@;
    let mut b = ObjectBuilder::new();
    b.push("continuity_restore", section_json);
    b.push("chat_start_restore", clone_json(field_ref(chat_start_restore, "chat_start_restore")));
    b.push("working_state_restore", normalized_working_state_restore_projection(Some(working)));
    b.push(
        "workspace_restore_pack",
        normalized_workspace_restore_pack_projection(Some(restore_pack_node_exec(restore))),
    );
    b.push("retrieval_science", retrieval_science);
    b.push("degradation_policy", degradation_policy);
    let r = b.build();
    assert(section_v == restore_payload_view(
        *project,
        *namespace,
        continuity@,
        handoff_summary@,
        restore@,
        chat_start_restore@,
        ev,
        sv,
        dv,
    )->Object_0[0].1) by {
        assert(section_entries =~= seq![
            ("project"@, project_view(*project)),
            ("namespace"@, namespace_view(*namespace)),
            ("imported_at_epoch_ms"@, field(continuity@, "imported_at_epoch_ms"@)),
            ("handoff_summary"@, handoff_view(handoff_summary@)),
            ("canonical_eval"@, ev),
        ]);
    }
    assert(b.view_entries() =~= restore_payload_view(
        *project,
        *namespace,
        continuity@,
        handoff_summary@,
        restore@,
        chat_start_restore@,
        ev,
        sv,
        dv,
    )->Object_0);
    r
}

/// A law of startup payloads: the chat-start restore is carried both as the chat-start
/// and as the delivery-surface restore, the startup section holds the normalised handoff
/// summary, and the working-state restore is there exactly when the restore has one, as
/// its projection.
pub proof fn lemma_startup_payload_reads(
    project: ProjectRecord,
    namespace: NamespaceRecord,
    continuity: JsonView,
    handoff: JsonView,
    restore: Option<JsonView>,
    chat_start_restore: JsonView,
    eval: JsonView,
    retrieval_science: JsonView,
    degradation_policy: JsonView,
)
    ensures
        ({
            let p = startup_payload_view(
                project,
                namespace,
                continuity,
                handoff,
                restore,
                chat_start_restore,
                eval,
                retrieval_science,
                degradation_policy,
            );
            let csn = field(chat_start_restore, "chat_start_restore"@);
            &&& field(p, "chat_start_restore"@) == csn
            &&& field(p, "delivery_surface_restore"@) == csn
            &&& field(field(p, "continuity_startup"@), "handoff_summary"@) == handoff_view(handoff)
            &&& crate::json::has_field(p, "working_state_restore"@) <==> working_node(restore) is Some
            &&& working_node(restore) matches Some(n) ==> field(p, "working_state_restore"@)
                == working_state_projection(n)
        }),
{
    reveal_strlit("continuity_startup");
    reveal_strlit("chat_start_restore");
    reveal_strlit("delivery_surface_restore");
    reveal_strlit("working_state_restore");
    reveal_strlit("workspace_restore_pack");
    reveal_strlit("retrieval_science");
    reveal_strlit("degradation_policy");
    reveal_strlit("project");
    reveal_strlit("namespace");
    reveal_strlit("imported_at_epoch_ms");
    reveal_strlit("documents_imported");
    reveal_strlit("rendered_transcript_files");
    reveal_strlit("continuity_source");
    reveal_strlit("handoff_summary");
    assert("continuity_startup"@.len() == 18 && "chat_start_restore"@.len() == 18);
    assert("delivery_surface_restore"@.len() == 24 && "working_state_restore"@.len() == 21);
    assert("workspace_restore_pack"@.len() == 22 && "retrieval_science"@.len() == 17);
    assert("degradation_policy"@.len() == 18);
    assert("continuity_startup"@[1] != "chat_start_restore"@[1]);
    assert("project"@.len() == 7 && "namespace"@.len() == 9 && "imported_at_epoch_ms"@.len() == 20);
    assert("documents_imported"@.len() == 18 && "rendered_transcript_files"@.len() == 25);
    assert("continuity_source"@.len() == 17 && "handoff_summary"@.len() == 15);
    let p = startup_payload_view(
        project,
        namespace,
        continuity,
        handoff,
        restore,
        chat_start_restore,
        eval,
        retrieval_science,
        degradation_policy,
    );
    let es = p->Object_0;
    let n = es.len() as int;
    crate::json::lemma_position_lookup_first(es, "continuity_startup"@, n, 0);
    crate::json::lemma_position_lookup_first(es, "chat_start_restore"@, n, 1);
    crate::json::lemma_position_lookup_first(es, "delivery_surface_restore"@, n, 2);
    let ss = startup_section(project, namespace, continuity, handoff, eval)->Object_0;
    crate::json::lemma_position_lookup_first(ss, "handoff_summary"@, ss.len() as int, 6);
    if working_node(restore) is Some {
        crate::json::lemma_position_lookup_first(es, "working_state_restore"@, n, 3);
    } else {
        crate::json::lemma_lookup_absent(es, "working_state_restore"@, n);
    }
}

} // verus!
