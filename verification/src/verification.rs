//! The continuity verification run: the probes of what a fresh session restores, and
//! what the run concludes once the eval layer has judged them.
use vstd::prelude::*;
use crate::json::{as_str, as_text, field, get, get_str, str_json, Json, JsonView, ObjectBuilder};
use crate::chat_start::{namespace_json, namespace_view, project_json, project_view, NamespaceRecord, ProjectRecord};
use crate::direct_answer::opt_json;
use crate::startup_payload::{handoff_json, handoff_view};
use crate::labels::opt_text;
use crate::projections::{
    normalized_optional_char_count_json, normalized_optional_text_json, normalized_restore_confidence_value,
    normalized_working_state_restore_projection, text_json, working_state_projection,
};
use crate::startup_payload::{probe_view, probes_view, ProbeView, StartupProbe};
use crate::text::{chars_of, decimal, join, join_chars, push_str, string_of, trim, views};

verus! {

/// Whether a stored handoff names a headline of its own: not blank and not the
/// placeholder.
pub open spec fn handoff_named(direct: Option<JsonView>) -> bool {
    match direct {
        Some(h) => match as_str(field(h, "headline"@)) {
            Some(t) => trim(t).len() > 0 && t != "ещё нет данных"@,
            None => false,
        },
        None => false,
    }
}

/// Where the handoff summary came from.
pub open spec fn handoff_source(direct: Option<JsonView>) -> Seq<char> {
    if direct is Some {
        "continuity_handoff"@
    } else {
        "continuity_import_fallback"@
    }
}

/// The probes of a verification run: that a handoff summary was stored, that the
/// working state restored, and that the chat-start prompt is there.
/// `handoff_summary` is the summary the session starts from and `direct_handoff` the
/// handoff stored for the scope, when there is one.
pub open spec fn verification_probes(
    handoff_summary: JsonView,
    direct_handoff: Option<JsonView>,
    working_state: Option<JsonView>,
    chat_start_node: JsonView,
) -> Seq<ProbeView> {
    let prompt = as_text(field(chat_start_node, "prompt_text"@));
    seq![
        ProbeView {
            name: "handoff_summary_present"@,
            expected: "recovered_useful"@,
            details: JsonView::Object(
                seq![
                    ("expected_present"@, JsonView::Bool(handoff_named(direct_handoff))),
                    ("unexpected_present"@, JsonView::Bool(false)),
                    ("source"@, JsonView::Str(handoff_source(direct_handoff))),
                    ("headline"@, text_json(as_text(field(handoff_summary, "headline"@)))),
                ],
            ),
        },
        ProbeView {
            name: "working_state_restore_present"@,
            expected: "recovered_useful"@,
            details: JsonView::Object(
                seq![
                    ("expected_present"@, JsonView::Bool(working_state is Some)),
                    ("unexpected_present"@, JsonView::Bool(false)),
                    (
                        "restore_confidence"@,
                        match working_state {
                            Some(w) => field(w, "restore_confidence"@),
                            None => JsonView::Null,
                        },
                    ),
                    (
                        "current_goal"@,
                        text_json(
                            match working_state {
                                Some(w) => as_text(field(w, "current_goal"@)),
                                None => None,
                            },
                        ),
                    ),
                ],
            ),
        },
        ProbeView {
            name: "chat_start_prompt_present"@,
            expected: "recovered_useful"@,
            details: JsonView::Object(
                seq![
                    ("expected_present"@, JsonView::Bool(prompt is Some)),
                    ("unexpected_present"@, JsonView::Bool(false)),
                    (
                        "prompt_length"@,
                        match prompt {
                            Some(t) => JsonView::Number(t.len() as int),
                            None => JsonView::Null,
                        },
                    ),
                ],
            ),
        },
    ]
}

fn handoff_named_exec(direct: Option<&Json>) -> (b: bool)
    ensures
        b == handoff_named(crate::direct_answer::opt_json(direct)),
{
    match direct {
        Some(h) => match get_str(h, "headline") {
            Some(t) => crate::text::trim_str(t).unicode_len() > 0 && !crate::text::str_eq(t, "ещё нет данных"),
            None => false,
        },
        None => false,
    }
}

fn field_ref<'a>(v: &'a Json, key: &str) -> (r: &'a Json)
    ensures
        r@ == field(v@, key@),
{
    match get(v, key) {
        Some(x) => x,
        None => &Json::Null,
    }
}

/// The probes of a continuity verification run (see `verification_probes`), before the
/// eval layer judges them; `chat_start_restore` is the chat-start restore pack built for
/// the session.
pub fn continuity_verification_probes(
    handoff_summary: &Json,
    direct_handoff: Option<&Json>,
    working_state: Option<&Json>,
    chat_start_restore: &Json,
) -> (r: Vec<StartupProbe>)
    ensures
        probes_view(r@) == verification_probes(
            handoff_summary@,
            crate::direct_answer::opt_json(direct_handoff),
            crate::direct_answer::opt_json(working_state),
            field(chat_start_restore@, "chat_start_restore"@),
        ),
{
    let node = field_ref(chat_start_restore, "chat_start_restore");
    let prompt = get_str(node, "prompt_text");
    let prompt_present = match crate::json::get_text(node, "prompt_text") {
        Some(_) => true,
        None => false,
    };
    let mut h = ObjectBuilder::new();
    h.push("expected_present", Json::Bool(handoff_named_exec(direct_handoff)));
    h.push("unexpected_present", Json::Bool(false));
    h.push(
        "source",
        Json::Str(if direct_handoff.is_some() {
            "continuity_handoff".to_string()
        } else {
            "continuity_import_fallback".to_string()
        }),
    );
    h.push("headline", normalized_optional_text_json(get_str(handoff_summary, "headline")));
    let mut w = ObjectBuilder::new();
    w.push("expected_present", Json::Bool(working_state.is_some()));
    w.push("unexpected_present", Json::Bool(false));
    w.push("restore_confidence", normalized_restore_confidence_value(working_state));
    let goal = match working_state {
        Some(n) => get_str(n, "current_goal"),
        None => None,
    };
    w.push("current_goal", normalized_optional_text_json(goal));
    let mut p = ObjectBuilder::new();
    p.push("expected_present", Json::Bool(prompt_present));
    p.push("unexpected_present", Json::Bool(false));
    p.push("prompt_length", normalized_optional_char_count_json(prompt));
    let ghost spec = verification_probes(
        handoff_summary@,
        crate::direct_answer::opt_json(direct_handoff),
        crate::direct_answer::opt_json(working_state),
        node@,
    );
    assert(h.view_entries() =~= spec[0].details->Object_0);
    assert(w.view_entries() =~= spec[1].details->Object_0);
    assert(p.view_entries() =~= spec[2].details->Object_0);
    let mut probes: Vec<StartupProbe> = Vec::new();
    probes.push(
        StartupProbe {
            name: "handoff_summary_present".to_string(),
            expected_verdict_class: "recovered_useful".to_string(),
            details: h.build(),
        },
    );
    probes.push(
        StartupProbe {
            name: "working_state_restore_present".to_string(),
            expected_verdict_class: "recovered_useful".to_string(),
            details: w.build(),
        },
    );
    probes.push(
        StartupProbe {
            name: "chat_start_prompt_present".to_string(),
            expected_verdict_class: "recovered_useful".to_string(),
            details: p.build(),
        },
    );
    assert(probes_view(probes@) =~= spec);
    probes
}

/// A probe as the eval layer judged it.
pub struct JudgedProbe {
    pub name: String,
    pub verdict_class: String,
    pub expected_verdict_class: String,
}

/// `name=verdict (expected class)`.
pub open spec fn failure_line(p: JudgedProbe) -> Seq<char> {
    p.name@ + "="@ + p.verdict_class@ + " (expected "@ + p.expected_verdict_class@ + ")"@
}

/// The failure lines of the probes whose verdict is not the one they expect, in order.
pub open spec fn failures(ps: Seq<JudgedProbe>) -> Seq<Seq<char>>
    decreases ps.len(),
{
    if ps.len() == 0 {
        Seq::empty()
    } else if ps.last().verdict_class@ == ps.last().expected_verdict_class@ {
        failures(ps.drop_last())
    } else {
        failures(ps.drop_last()).push(failure_line(ps.last()))
    }
}

proof fn lemma_failures_bounded(ps: Seq<JudgedProbe>)
    ensures
        failures(ps).len() <= ps.len(),
    decreases ps.len(),
{
    if ps.len() > 0 {
        lemma_failures_bounded(ps.drop_last());
    }
}

/// What a verification run concludes: the failing probes, whether it passed (none
/// failed) and how many probes held.
pub fn continuity_verification_outcome(probes: &Vec<JudgedProbe>) -> (r: (Vec<String>, bool, u64))
    ensures
        r.0@.map_values(|s: String| s@) == failures(probes@),
        r.1 == (failures(probes@).len() == 0),
        r.2 == probes@.len() - failures(probes@).len(),
{
    let mut failed: Vec<String> = Vec::new();
    let mut i: usize = 0;
    while i < probes.len()
        invariant
            i <= probes@.len(),
            failed@.map_values(|s: String| s@) == failures(probes@.take(i as int)),
        decreases probes@.len() - i,
    {
        let p = &probes[i];
        proof {
            assert(probes@.take(i + 1).drop_last() =~= probes@.take(i as int));
        }
        if !crate::text::str_eq(p.verdict_class.as_str(), p.expected_verdict_class.as_str()) {
            let mut out: Vec<char> = Vec::new();
            push_str(&mut out, p.name.as_str());
            push_str(&mut out, "=");
            push_str(&mut out, p.verdict_class.as_str());
            push_str(&mut out, " (expected ");
            push_str(&mut out, p.expected_verdict_class.as_str());
            push_str(&mut out, ")");
            let line = string_of(out.as_slice());
            let ghost before = failed@.map_values(|s: String| s@);
            failed.push(line);
            assert(failed@.map_values(|s: String| s@) =~= before.push(failure_line(probes@[i as int])));
        }
        i = i + 1;
    }
    assert(probes@.take(probes@.len() as int) =~= probes@);
    proof {
        lemma_failures_bounded(probes@);
    }
    let n = failed.len();
    let pass = n == 0;
    let verified = (probes.len() - n) as u64;
    (failed, pass, verified)
}

/// The error a failed verification run ends with.
pub fn continuity_verification_failure_message(failed: &Vec<String>) -> (r: String)
    ensures
        r@ == "continuity verification failed: "@ + join(failed@.map_values(|s: String| s@), ", "@),
{
    let mut parts: Vec<Vec<char>> = Vec::new();
    let mut i: usize = 0;
    while i < failed.len()
        invariant
            i <= failed@.len(),
            views(parts@) == failed@.map_values(|s: String| s@).take(i as int),
        decreases failed@.len() - i,
    {
        let c = chars_of(failed[i].as_str());
        let ghost before = views(parts@);
        parts.push(c);
        assert(views(parts@) =~= before.push(failed@[i as int]@));
        assert(failed@.map_values(|s: String| s@).take(i + 1) =~= failed@.map_values(|s: String| s@).take(
            i as int,
        ).push(failed@[i as int]@));
        i = i + 1;
    }
    assert(failed@.map_values(|s: String| s@).take(failed@.len() as int) =~= failed@.map_values(|s: String| s@));
    let sep = chars_of(", ");
    let joined = join_chars(&parts, sep.as_slice());
    let mut out: Vec<char> = Vec::new();
    push_str(&mut out, "continuity verification failed: ");
    crate::text::push_all(&mut out, joined.as_slice());
    string_of(out.as_slice())
}

/// `pass` when no probe failed, `critical` otherwise.
pub open spec fn verification_status_of(failed_count: nat) -> Seq<char> {
    if failed_count == 0 {
        "pass"@
    } else {
        "critical"@
    }
}

/// The failing probe lines as a JSON array of strings.
pub open spec fn failed_probes_view(failed: Seq<Seq<char>>) -> JsonView {
    JsonView::Array(failed.map_values(|f: Seq<char>| JsonView::Str(f)))
}

/// The body of the verification snapshot.
pub open spec fn verification_body(
    run_id: Seq<char>,
    captured_at_epoch_ms: nat,
    project: ProjectRecord,
    namespace: NamespaceRecord,
    direct_handoff: Option<JsonView>,
    handoff_summary: JsonView,
    working_state_restore: Option<JsonView>,
    chat_start_node: JsonView,
    probe_count: nat,
    failed: Seq<Seq<char>>,
    canonical_eval: JsonView,
) -> JsonView {
    JsonView::Object(
        seq![
            ("verification_run_id"@, JsonView::Str(run_id)),
            ("captured_at_epoch_ms"@, JsonView::Number(captured_at_epoch_ms as int)),
            ("project"@, project_view(project)),
            ("namespace"@, namespace_view(namespace)),
            ("handoff_summary_source"@, JsonView::Str(handoff_source(direct_handoff))),
            ("handoff_summary"@, handoff_view(handoff_summary)),
            ("working_state_restore_present"@, JsonView::Bool(working_state_restore is Some)),
            (
                "working_state_restore"@,
                match working_state_restore {
                    Some(n) => working_state_projection(n),
                    None => JsonView::Null,
                },
            ),
            ("chat_start_restore"@, chat_start_node),
            ("verification_status"@, JsonView::Str(verification_status_of(failed.len()))),
            ("probe_count"@, JsonView::Number(probe_count as int)),
            (
                "verified_probes"@,
                JsonView::Number(if failed.len() <= probe_count { probe_count - failed.len() } else { 0 }),
            ),
            ("failed_probes"@, failed_probes_view(failed)),
            ("canonical_eval"@, canonical_eval),
        ],
    )
}

/// The snapshot a verification run records before it reports: where it was taken, the
/// project and namespace, where the handoff came from, the restored working state, the
/// chat-start restore, the verdict (`pass` or `critical`), the probe counts, the failing
/// probe lines and the canonical eval.
pub open spec fn verification_snapshot_view(
    run_id: Seq<char>,
    captured_at_epoch_ms: nat,
    project: ProjectRecord,
    namespace: NamespaceRecord,
    direct_handoff: Option<JsonView>,
    handoff_summary: JsonView,
    working_state_restore: Option<JsonView>,
    chat_start_node: JsonView,
    probe_count: nat,
    failed: Seq<Seq<char>>,
    canonical_eval: JsonView,
    retrieval_science: JsonView,
    degradation_policy: JsonView,
) -> JsonView {
    JsonView::Object(
        seq![
            (
                "_observability"@,
                JsonView::Object(
                    seq![
                        ("source_event_id"@, JsonView::Str(run_id)),
                        ("source_kind"@, JsonView::Str("continuity_verification_run"@)),
                        ("scope_project_code"@, JsonView::Str(project.code@)),
                        ("scope_namespace_code"@, JsonView::Str(namespace.code@)),
                        ("captured_at_epoch_ms"@, JsonView::Number(captured_at_epoch_ms as int)),
                    ],
                ),
            ),
            (
                "continuity_verification"@,
                verification_body(
                    run_id,
                    captured_at_epoch_ms,
                    project,
                    namespace,
                    direct_handoff,
                    handoff_summary,
                    working_state_restore,
                    chat_start_node,
                    probe_count,
                    failed,
                    canonical_eval,
                ),
            ),
            ("retrieval_science"@, retrieval_science),
            ("degradation_policy"@, degradation_policy),
        ],
    )
}

fn failed_probes_json(failed: &Vec<String>) -> (r: Json)
    ensures
        r@ == failed_probes_view(failed@.map_values(|s: String| s@)),
{
    let mut items: Vec<Json> = Vec::new();
    let mut i: usize = 0;
    while i < failed.len()
        invariant
            i <= failed@.len(),
            crate::json::items_view(items@) == failed@.map_values(|s: String| s@).take(i as int).map_values(
                |f: Seq<char>| JsonView::Str(f),
            ),
        decreases failed@.len() - i,
    {
        let x = str_json(failed[i].as_str());
        proof {
            crate::json::lemma_items_push(items@, x);
        }
        items.push(x);
        assert(failed@.map_values(|s: String| s@).take(i + 1).map_values(|f: Seq<char>| JsonView::Str(f))
            =~= failed@.map_values(|s: String| s@).take(i as int).map_values(|f: Seq<char>| JsonView::Str(f)).push(
            JsonView::Str(failed@[i as int]@),
        ));
        i = i + 1;
    }
    assert(failed@.map_values(|s: String| s@).take(failed@.len() as int) =~= failed@.map_values(|s: String| s@));
    Json::Array(items)
}

/// The snapshot of a verification run, taken under the run's id and capture time.
/// `failed` holds the failing probe lines that `continuity_verification_outcome` gives,
/// `probe_count` the number of probes that were judged.
pub fn build_continuity_verification_snapshot(
    run_id: &str,
    captured_at_epoch_ms: u64,
    project: &ProjectRecord,
    namespace: &NamespaceRecord,
    direct_handoff: Option<&Json>,
    handoff_summary: &Json,
    working_state_restore: Option<&Json>,
    chat_start_node: Json,
    probe_count: usize,
    failed: &Vec<String>,
    canonical_eval: Json,
    retrieval_science: Json,
    degradation_policy: Json,
) -> (r: Json)
    ensures
        r@ == verification_snapshot_view(
            run_id@,
            captured_at_epoch_ms as nat,
            *project,
            *namespace,
            opt_json(direct_handoff),
            handoff_summary@,
            opt_json(working_state_restore),
            chat_start_node@,
            probe_count as nat,
            failed@.map_values(|s: String| s@),
            canonical_eval@,
            retrieval_science@,
            degradation_policy@,
        ),
{
    let ghost cv = chat_start_node@;
    let ghost ev = canonical_eval@;
    let ghost rv = retrieval_science@;
    let ghost dv = degradation_policy@;
    let mut obs = ObjectBuilder::new();
    obs.push("source_event_id", str_json(run_id));
    obs.push("source_kind", str_json("continuity_verification_run"));
    obs.push("scope_project_code", str_json(project.code.as_str()));
    obs.push("scope_namespace_code", str_json(namespace.code.as_str()));
    obs.push("captured_at_epoch_ms", Json::Number(captured_at_epoch_ms as i128));
    let n = failed.len();
    let verified: usize = if n <= probe_count { probe_count - n } else { 0 };
    let mut body = ObjectBuilder::new();
    body.push("verification_run_id", str_json(run_id));
    body.push("captured_at_epoch_ms", Json::Number(captured_at_epoch_ms as i128));
    body.push("project", project_json(project));
    body.push("namespace", namespace_json(namespace));
    let source = if direct_handoff.is_some() { "continuity_handoff" } else { "continuity_import_fallback" };
    body.push("handoff_summary_source", str_json(source));
    body.push("handoff_summary", handoff_json(handoff_summary));
    body.push("working_state_restore_present", Json::Bool(working_state_restore.is_some()));
    body.push("working_state_restore", normalized_working_state_restore_projection(working_state_restore));
    body.push("chat_start_restore", chat_start_node);
    body.push("verification_status", str_json(if n == 0 { "pass" } else { "critical" }));
    body.push("probe_count", Json::Number(probe_count as i128));
    body.push("verified_probes", Json::Number(verified as i128));
    body.push("failed_probes", failed_probes_json(failed));
    body.push("canonical_eval", canonical_eval);
    let ghost fv = failed@.map_values(|s: String| s@);
    assert(obs.view_entries() =~= seq![
        ("source_event_id"@, JsonView::Str(run_id@)),
        ("source_kind"@, JsonView::Str("continuity_verification_run"@)),
        ("scope_project_code"@, JsonView::Str(project.code@)),
        ("scope_namespace_code"@, JsonView::Str(namespace.code@)),
        ("captured_at_epoch_ms"@, JsonView::Number(captured_at_epoch_ms as int)),
    ]);
    assert(JsonView::Object(body.view_entries()) =~~= verification_body(
        run_id@,
        captured_at_epoch_ms as nat,
        *project,
        *namespace,
        opt_json(direct_handoff),
        handoff_summary@,
        opt_json(working_state_restore),
        cv,
        probe_count as nat,
        fv,
        ev,
    )) by {
        assert(fv.len() == n);
        let ghost want = seq![
            ("verification_run_id"@, JsonView::Str(run_id@)),
            ("captured_at_epoch_ms"@, JsonView::Number(captured_at_epoch_ms as int)),
            ("project"@, project_view(*project)),
            ("namespace"@, namespace_view(*namespace)),
            ("handoff_summary_source"@, JsonView::Str(handoff_source(opt_json(direct_handoff)))),
            ("handoff_summary"@, handoff_view(handoff_summary@)),
            ("working_state_restore_present"@, JsonView::Bool(opt_json(working_state_restore) is Some)),
            (
                "working_state_restore"@,
                match opt_json(working_state_restore) {
                    Some(x) => working_state_projection(x),
                    None => JsonView::Null,
                },
            ),
            ("chat_start_restore"@, cv),
            ("verification_status"@, JsonView::Str(verification_status_of(fv.len()))),
            ("probe_count"@, JsonView::Number(probe_count as int)),
            (
                "verified_probes"@,
                JsonView::Number(if fv.len() <= probe_count { probe_count - fv.len() } else { 0 }),
            ),
            ("failed_probes"@, failed_probes_view(fv)),
            ("canonical_eval"@, ev),
        ];
        assert(body.view_entries() =~= want);
        assert(verification_body(
            run_id@,
            captured_at_epoch_ms as nat,
            *project,
            *namespace,
            opt_json(direct_handoff),
            handoff_summary@,
            opt_json(working_state_restore),
            cv,
            probe_count as nat,
            fv,
            ev,
        )->Object_0 =~= want);
    }
    let ob = obs.build();
    let bb = body.build();
    let mut top = ObjectBuilder::new();
    top.push("_observability", ob);
    top.push("continuity_verification", bb);
    top.push("retrieval_science", retrieval_science);
    top.push("degradation_policy", degradation_policy);
    let r = top.build();
    assert(top.view_entries() =~= seq![
        ("_observability"@, ob@),
        ("continuity_verification"@, bb@),
        ("retrieval_science"@, rv),
        ("degradation_policy"@, dv),
    ]);
    assert(r@ =~~= verification_snapshot_view(
        run_id@,
        captured_at_epoch_ms as nat,
        *project,
        *namespace,
        opt_json(direct_handoff),
        handoff_summary@,
        opt_json(working_state_restore),
        cv,
        probe_count as nat,
        failed@.map_values(|s: String| s@),
        ev,
        rv,
        dv,
    ));
    r
}

/// What a verification run ends with once its probes are judged: the snapshot it records
/// (over the failing probe lines of `probes`), and `Ok` when every probe held, else the
/// failure message that names each failing probe.
pub fn conclude_continuity_verification(
    run_id: &str,
    captured_at_epoch_ms: u64,
    project: &ProjectRecord,
    namespace: &NamespaceRecord,
    direct_handoff: Option<&Json>,
    handoff_summary: &Json,
    working_state_restore: Option<&Json>,
    chat_start_node: Json,
    probes: &Vec<JudgedProbe>,
    canonical_eval: Json,
    retrieval_science: Json,
    degradation_policy: Json,
) -> (r: (Json, Result<(), String>))
    ensures
        r.0@ == verification_snapshot_view(
            run_id@,
            captured_at_epoch_ms as nat,
            *project,
            *namespace,
            opt_json(direct_handoff),
            handoff_summary@,
            opt_json(working_state_restore),
            chat_start_node@,
            probes@.len(),
            failures(probes@),
            canonical_eval@,
            retrieval_science@,
            degradation_policy@,
        ),
        failures(probes@).len() == 0 <==> r.1 is Ok,
        r.1 matches Err(e) ==> e@ == "continuity verification failed: "@ + join(failures(probes@), ", "@),
{
    let (failed, pass, _verified) = continuity_verification_outcome(probes);
    let snapshot = build_continuity_verification_snapshot(
        run_id,
        captured_at_epoch_ms,
        project,
        namespace,
        direct_handoff,
        handoff_summary,
        working_state_restore,
        chat_start_node,
        probes.len(),
        &failed,
        canonical_eval,
        retrieval_science,
        degradation_policy,
    );
    if pass {
        (snapshot, Ok(()))
    } else {
        (snapshot, Err(continuity_verification_failure_message(&failed)))
    }
}

} // verus!
