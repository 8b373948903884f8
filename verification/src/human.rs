//! The human-readable command-line views of a chat-start restore and of the startup
//! runtime state, as text lines.
use vstd::prelude::*;
use crate::audit::{opt_string_view, StartupRuntimeStateAudit};
use crate::chat_start::{NamespaceRecord, ProjectRecord};
use crate::direct_answer::project_next_step;
use crate::launch::{shell_quote, shell_quoted};
use crate::json::{as_text, as_u64, field, get, get_text, get_u64, Json, JsonView};
use crate::labels::{format_optional_u64_for_human, no_data, text_or};
use crate::prompt_summaries::{summarize_required_task_set_for_human_surface, task_set_for_human};
use crate::text::{
    chars_of, decimal, join, join_chars, lines, lines_of, push_all, push_str, replace_all, replace_exec, string_of,
    str_eq, trim, trim_str, views,
};

verus! {

/// `prefix text` as a line when there is text.
pub open spec fn line_if(o: Option<Seq<char>>, prefix: Seq<char>) -> Seq<Seq<char>> {
    match o {
        Some(t) => seq![prefix + t],
        None => Seq::empty(),
    }
}

/// `prefix` followed by the optional summary lines of a chat-start restore, in the order
/// they are shown.
pub open spec fn with_summary_lines(prefix: Seq<Seq<char>>, node: JsonView) -> Seq<Seq<char>> {
    prefix + line_if(as_text(field(node, "materialized_summary"@)), "- Что уже materialized: "@)
        + line_if(as_text(field(node, "skill_execution_card_summary"@)), "- Исполнимая procedural-карточка: "@)
        + line_if(as_text(field(node, "recent_actions_summary"@)), "- Недавние действия: "@)
        + line_if(as_text(field(node, "active_files_summary"@)), "- Активные файлы: "@)
        + line_if(as_text(field(node, "workspace_graph_summary"@)), "- Структурный граф рабочей области: "@)
        + line_if(as_text(field(node, "workspace_restore_pack_summary"@)), "- Workspace restore pack: "@)
        + line_if(as_text(field(node, "pending_return_summary"@)), "- Незавершённые линии к возврату: "@)
        + line_if(as_text(field(node, "execctl_resume_contract_summary"@)), "- Контракт возврата ExecCtl: "@)
        + line_if(task_set_for_human(node), "- Обязательный набор задач из machine-readable restore: "@)
        + line_if(
        as_text(field(node, "startup_next_action_summary"@)),
        "- Первое обязательное действие после startup: "@,
    ) + line_if(as_text(field(node, "execctl_active_lease_summary"@)), "- Активный lease ExecCtl: "@)
        + line_if(as_text(field(node, "included_reasons_summary"@)), "- Почему вошёл последний контекст: "@)
        + line_if(as_text(field(node, "excluded_reasons_summary"@)), "- Почему часть не вошла: "@)
        + line_if(as_text(field(node, "open_questions_summary"@)), "- Открытые вопросы: "@)
}

/// A count, or `n/a`.
pub open spec fn count_or_na(o: Option<u64>) -> Seq<char> {
    match o {
        Some(n) => decimal(n as nat),
        None => "n/a"@,
    }
}

/// The prompt text, indented, under the line that announces it.
pub open spec fn prompt_lines(node: JsonView) -> Seq<Seq<char>> {
    match as_text(field(node, "prompt_text"@)) {
        Some(t) => seq!["- Prompt-text restore уже готов для первого содержательного ответа:"@]
            + lines(t).map_values(|l: Seq<char>| "  "@ + l),
        None => Seq::empty(),
    }
}

/// The human view of a chat-start restore pack.
pub open spec fn chat_start_human_lines(value: JsonView) -> Seq<Seq<char>> {
    let node = field(value, "chat_start_restore"@);
    let head = seq![
        "Chat-start restore pack:"@,
        "- Этот блок уже нужно считать восстановленным рабочим контекстом для первого содержательного ответа."@,
        "- Продолжаем с линии: "@ + text_or(as_text(field(node, "headline"@)), no_data()),
        "- Обязательный следующий шаг: "@ + text_or(as_text(field(node, "next_step"@)), no_data()),
    ];
    with_summary_lines(head, node).push(
        "- Thread count в temporal index: "@ + count_or_na(as_u64(field(node, "thread_count"@))),
    ) + prompt_lines(node)
}

fn field_ref<'a>(v: &'a Json, key: &str) -> (r: &'a Json)
    ensures
        r@ == field(v@, key@),
{
    match get(v, key) {
        Some(x) => x,
        None => &Json::Null,
    }
}

pub(crate) fn push_line(lines: &mut Vec<Vec<char>>, line: Vec<char>)
    ensures
        views(final(lines)@) == views(old(lines)@).push(line@),
{
    let ghost before = views(lines@);
    let ghost lv = line@;
    lines.push(line);
    assert(views(lines@) =~= before.push(lv));
}

pub(crate) fn prefixed(prefix: &str, body: &str) -> (r: Vec<char>)
    ensures
        r@ == prefix@ + body@,
{
    let mut l: Vec<char> = Vec::new();
    push_str(&mut l, prefix);
    push_str(&mut l, body);
    l
}

fn push_text_line(lines: &mut Vec<Vec<char>>, node: &Json, key: &str, prefix: &str)
    ensures
        views(final(lines)@) == views(old(lines)@) + line_if(as_text(field(node@, key@)), prefix@),
{
    let ghost start = views(lines@);
    match get_text(node, key) {
        Some(t) => push_line(lines, prefixed(prefix, t)),
        None => {},
    }
    assert(views(lines@) =~= start + line_if(as_text(field(node@, key@)), prefix@));
}

fn push_summary_lines(lines: &mut Vec<Vec<char>>, node: &Json)
    ensures
        views(final(lines)@) == with_summary_lines(views(old(lines)@), node@),
{
    let ghost start = views(lines@);
    push_text_line(lines, node, "materialized_summary", "- Что уже materialized: ");
    push_text_line(lines, node, "skill_execution_card_summary", "- Исполнимая procedural-карточка: ");
    push_text_line(lines, node, "recent_actions_summary", "- Недавние действия: ");
    push_text_line(lines, node, "active_files_summary", "- Активные файлы: ");
    push_text_line(lines, node, "workspace_graph_summary", "- Структурный граф рабочей области: ");
    push_text_line(lines, node, "workspace_restore_pack_summary", "- Workspace restore pack: ");
    push_text_line(lines, node, "pending_return_summary", "- Незавершённые линии к возврату: ");
    push_text_line(lines, node, "execctl_resume_contract_summary", "- Контракт возврата ExecCtl: ");
    let ghost mid = views(lines@);
    match summarize_required_task_set_for_human_surface(node) {
        Some(t) => push_line(lines, prefixed("- Обязательный набор задач из machine-readable restore: ", t.as_str())),
        None => {},
    }
    let ghost mid2 = views(lines@);
    assert(mid2 == mid + line_if(task_set_for_human(node@), "- Обязательный набор задач из machine-readable restore: "@)) by {
        assert(mid2 =~= mid + line_if(task_set_for_human(node@), "- Обязательный набор задач из machine-readable restore: "@));
    }
    push_text_line(lines, node, "startup_next_action_summary", "- Первое обязательное действие после startup: ");
    push_text_line(lines, node, "execctl_active_lease_summary", "- Активный lease ExecCtl: ");
    push_text_line(lines, node, "included_reasons_summary", "- Почему вошёл последний контекст: ");
    push_text_line(lines, node, "excluded_reasons_summary", "- Почему часть не вошла: ");
    push_text_line(lines, node, "open_questions_summary", "- Открытые вопросы: ");
    assert(views(lines@) == with_summary_lines(start, node@));
}

fn push_prompt_lines(lines: &mut Vec<Vec<char>>, node: &Json)
    ensures
        views(final(lines)@) == views(old(lines)@) + prompt_lines(node@),
{
    let ghost start = views(lines@);
    match get_text(node, "prompt_text") {
        Some(t) => {
            push_line(lines, chars_of("- Prompt-text restore уже готов для первого содержательного ответа:"));
            let ghost head = views(lines@);
            let tv = chars_of(t);
            let ls = lines_of(tv.as_slice());
            let ghost indented = views(ls@).map_values(|l: Seq<char>| "  "@ + l);
            let mut i: usize = 0;
            while i < ls.len()
                invariant
                    i <= ls@.len(),
                    indented == views(ls@).map_values(|l: Seq<char>| "  "@ + l),
                    views(lines@) == head + indented.take(i as int),
                decreases ls@.len() - i,
            {
                let mut l: Vec<char> = Vec::new();
                push_str(&mut l, "  ");
                push_all(&mut l, ls[i].as_slice());
                assert(l@ == indented[i as int]);
                push_line(lines, l);
                assert(indented.take(i + 1) =~= indented.take(i as int).push(indented[i as int]));
                i = i + 1;
            }
            assert(indented.take(ls@.len() as int) =~= indented);
            assert(views(lines@) =~= start + prompt_lines(node@));
        },
        None => {
            assert(views(lines@) =~= start + prompt_lines(node@));
        },
    }
}

pub(crate) fn join_lines(lines: &Vec<Vec<char>>) -> (r: String)
    ensures
        r@ == join(views(lines@), "\n"@),
{
    let nl = chars_of("\n");
    let joined = join_chars(lines, nl.as_slice());
    string_of(joined.as_slice())
}

/// The human view of a chat-start restore pack, one line per entry.
pub fn render_chat_start_restore_human(value: &Json) -> (r: String)
    ensures
        r@ == join(chat_start_human_lines(value@), "\n"@),
{
    let node = field_ref(value, "chat_start_restore");
    let mut lines: Vec<Vec<char>> = Vec::new();
    push_line(&mut lines, chars_of("Chat-start restore pack:"));
    push_line(
        &mut lines,
        chars_of("- Этот блок уже нужно считать восстановленным рабочим контекстом для первого содержательного ответа."),
    );
    let headline = match get_text(node, "headline") {
        Some(t) => t,
        None => "ещё нет данных",
    };
    push_line(&mut lines, prefixed("- Продолжаем с линии: ", headline));
    let next_step = match get_text(node, "next_step") {
        Some(t) => t,
        None => "ещё нет данных",
    };
    push_line(&mut lines, prefixed("- Обязательный следующий шаг: ", next_step));
    let ghost head = views(lines@);
    push_summary_lines(&mut lines, node);
    let count = format_optional_u64_for_human(get_u64(node, "thread_count"));
    push_line(&mut lines, prefixed("- Thread count в temporal index: ", count.as_str()));
    let ghost mid = views(lines@);
    push_prompt_lines(&mut lines, node);
    proof {
        assert(head =~= seq![
            "Chat-start restore pack:"@,
            "- Этот блок уже нужно считать восстановленным рабочим контекстом для первого содержательного ответа."@,
            "- Продолжаем с линии: "@ + text_or(as_text(field(node@, "headline"@)), no_data()),
            "- Обязательный следующий шаг: "@ + text_or(as_text(field(node@, "next_step"@)), no_data()),
        ]);
        assert(views(lines@) == chat_start_human_lines(value@));
    }
    join_lines(&lines)
}

pub open spec fn bool_word(b: bool) -> Seq<char> {
    if b {
        "true"@
    } else {
        "false"@
    }
}

/// A finding shown as `true` only when it is known to hold.
pub open spec fn flag_word(o: Option<bool>) -> Seq<char> {
    match o {
        Some(b) => bool_word(b),
        None => "false"@,
    }
}

/// A text finding, or `n/a`.
pub open spec fn text_or_na(o: Option<String>) -> Seq<char> {
    text_or(opt_string_view(o), "n/a"@)
}

/// The human view of the startup runtime state of the workspace at `repo_root`.
pub open spec fn runtime_state_human_lines(repo_root: Seq<char>, a: StartupRuntimeStateAudit) -> Seq<Seq<char>> {
    seq![
        "Amai continuity startup runtime state"@,
        "Workspace repo root: "@ + repo_root,
        "Artifact path: "@ + a.output_path@,
        "Status: "@ + a.status@,
        "Artifact present: "@ + bool_word(a.artifact_exists),
        "Contract hash matches current startup contract: "@ + flag_word(a.startup_contract_sha_matches_current_contract),
        "Source summary field matches continuity_startup_summary: "@ + flag_word(a.source_summary_field_matches),
        "Prompt text present: "@ + flag_word(a.prompt_text_present),
        "startup_next_action present: "@ + flag_word(a.startup_next_action_present),
        "startup_execution_gate present: "@ + flag_word(a.startup_execution_gate_present),
        "required_return_task field present: "@ + flag_word(a.required_return_task_field_present),
        "execctl_active_lease field present: "@ + flag_word(a.execctl_active_lease_field_present),
        "project_task_tree field present: "@ + flag_word(a.project_task_tree_field_present),
        "project_task_tree summary field present: "@ + flag_word(a.project_task_tree_summary_field_present),
        "project_task_ledger field present: "@ + flag_word(a.project_task_ledger_field_present),
        "project_task_ledger summary field present: "@ + flag_word(a.project_task_ledger_summary_field_present),
        "resume_state: "@ + text_or_na(a.resume_state),
        "action_kind: "@ + text_or_na(a.action_kind),
        "lease_owner_state: "@ + text_or_na(a.lease_owner_state),
        "must_follow_startup_next_action: "@ + flag_word(a.must_follow_startup_next_action),
        "unrelated_work_allowed: "@ + flag_word(a.unrelated_work_allowed),
        "must_read_prompt_text_before_reply: "@ + flag_word(a.must_read_prompt_text_before_reply),
        "required_action_kind_when_resume_required: "@ + text_or_na(a.required_action_kind_when_resume_required),
        "no_silent_drop: "@ + flag_word(a.no_silent_drop),
        "artifact_gate_semantics_consistent_present: "@ + flag_word(a.artifact_gate_semantics_consistent_present),
        "artifact_gate_semantics_consistent_matches_recomputed: "@ + flag_word(
            a.artifact_gate_semantics_consistent_matches_recomputed,
        ),
        "gate_semantics_consistent: "@ + flag_word(a.gate_semantics_consistent),
    ]
}

fn flag_line(lines: &mut Vec<Vec<char>>, label: &str, o: Option<bool>)
    ensures
        views(final(lines)@) == views(old(lines)@).push(label@ + flag_word(o)),
{
    let word = match o {
        Some(true) => "true",
        _ => "false",
    };
    push_line(lines, prefixed(label, word));
}

fn text_line(lines: &mut Vec<Vec<char>>, label: &str, o: &Option<String>)
    ensures
        views(final(lines)@) == views(old(lines)@).push(label@ + text_or_na(*o)),
{
    let word = match o {
        Some(t) => t.as_str(),
        None => "n/a",
    };
    push_line(lines, prefixed(label, word));
}

/// The human view of the startup runtime state, one line per finding.
pub fn render_startup_runtime_state_human(repo_root: &str, audit: &StartupRuntimeStateAudit) -> (r: String)
    ensures
        r@ == join(runtime_state_human_lines(repo_root@, *audit), "\n"@),
{
    let a = audit;
    let mut lines: Vec<Vec<char>> = Vec::new();
    push_line(&mut lines, chars_of("Amai continuity startup runtime state"));
    push_line(&mut lines, prefixed("Workspace repo root: ", repo_root));
    push_line(&mut lines, prefixed("Artifact path: ", a.output_path.as_str()));
    push_line(&mut lines, prefixed("Status: ", a.status.as_str()));
    flag_line(&mut lines, "Artifact present: ", Some(a.artifact_exists));
    flag_line(&mut lines, "Contract hash matches current startup contract: ", a.startup_contract_sha_matches_current_contract);
    flag_line(&mut lines, "Source summary field matches continuity_startup_summary: ", a.source_summary_field_matches);
    flag_line(&mut lines, "Prompt text present: ", a.prompt_text_present);
    flag_line(&mut lines, "startup_next_action present: ", a.startup_next_action_present);
    flag_line(&mut lines, "startup_execution_gate present: ", a.startup_execution_gate_present);
    flag_line(&mut lines, "required_return_task field present: ", a.required_return_task_field_present);
    flag_line(&mut lines, "execctl_active_lease field present: ", a.execctl_active_lease_field_present);
    flag_line(&mut lines, "project_task_tree field present: ", a.project_task_tree_field_present);
    flag_line(&mut lines, "project_task_tree summary field present: ", a.project_task_tree_summary_field_present);
    flag_line(&mut lines, "project_task_ledger field present: ", a.project_task_ledger_field_present);
    flag_line(&mut lines, "project_task_ledger summary field present: ", a.project_task_ledger_summary_field_present);
    text_line(&mut lines, "resume_state: ", &a.resume_state);
    text_line(&mut lines, "action_kind: ", &a.action_kind);
    text_line(&mut lines, "lease_owner_state: ", &a.lease_owner_state);
    flag_line(&mut lines, "must_follow_startup_next_action: ", a.must_follow_startup_next_action);
    flag_line(&mut lines, "unrelated_work_allowed: ", a.unrelated_work_allowed);
    flag_line(&mut lines, "must_read_prompt_text_before_reply: ", a.must_read_prompt_text_before_reply);
    text_line(&mut lines, "required_action_kind_when_resume_required: ", &a.required_action_kind_when_resume_required);
    flag_line(&mut lines, "no_silent_drop: ", a.no_silent_drop);
    flag_line(&mut lines, "artifact_gate_semantics_consistent_present: ", a.artifact_gate_semantics_consistent_present);
    flag_line(
        &mut lines,
        "artifact_gate_semantics_consistent_matches_recomputed: ",
        a.artifact_gate_semantics_consistent_matches_recomputed,
    );
    flag_line(&mut lines, "gate_semantics_consistent: ", a.gate_semantics_consistent);
    assert(views(lines@) =~= runtime_state_human_lines(repo_root@, *audit));
    join_lines(&lines)
}

/// Where the continuity record came from, in words.
pub open spec fn source_summary(continuity: JsonView) -> Seq<char> {
    let mode = crate::json::as_str(field(continuity, "continuity_source_mode"@));
    let ns = if mode is Some {
        crate::json::as_str(field(continuity, "continuity_source_namespace_code"@))
    } else {
        None
    };
    match mode {
        Some(m) => if m == "continuity_namespace_fallback_import"@ {
            "fallback import из namespace "@ + text_or(ns, no_data())
        } else if m == "working_state_fallback"@ {
            "runtime fallback из working_state + handoff"@
        } else {
            "scoped import из namespace "@ + text_or(ns, no_data())
        },
        None => no_data(),
    }
}

/// An import time in words, or the placeholder.
pub open spec fn import_time(o: Option<u64>) -> Seq<char> {
    match o {
        Some(v) => if v > 0 {
            "epoch "@ + decimal((v / 1000) as nat)
        } else {
            no_data()
        },
        None => no_data(),
    }
}

/// The bridge-notes line: the count when there are any, the placeholder when unknown.
pub open spec fn bridge_lines(o: Option<u64>) -> Seq<Seq<char>> {
    match o {
        Some(c) => if c > 0 {
            seq!["Дополнительные bridge-notes: "@ + decimal(c as nat)]
        } else {
            Seq::empty()
        },
        None => seq!["Дополнительные bridge-notes: ещё нет данных"@],
    }
}

pub open spec fn bootstrap_of(continuity: JsonView) -> JsonView {
    field(continuity, "bootstrap_summary"@)
}

/// The opening of the startup view: the project, where continuity came from and the
/// current line.
pub open spec fn startup_overview_lines(
    project: ProjectRecord,
    namespace: NamespaceRecord,
    continuity: JsonView,
    handoff: JsonView,
) -> Seq<Seq<char>> {
    seq![
        "Amai continuity startup"@,
        Seq::empty(),
        "Проект: "@ + project.display_name@ + " ("@ + project.code@ + ")"@,
        "Корень проекта: "@ + project.repo_root@,
        "Namespace continuity: "@ + namespace.code@,
        "Continuity source: "@ + source_summary(continuity),
        "Последний импорт continuity: "@ + import_time(as_u64(field(continuity, "imported_at_epoch_ms"@))),
        "Импортировано документов: "@ + count_or_na(as_u64(field(continuity, "documents_imported"@))),
        "Continuity snapshot: "@ + text_or(as_text(field(bootstrap_of(continuity), "bootstrap_file"@)), no_data()),
    ] + bridge_lines(as_u64(field(continuity, "session_memory_files"@))) + seq![
        "Rendered transcripts: "@ + count_or_na(as_u64(field(continuity, "rendered_transcript_files"@))),
        Seq::empty(),
        "Текущая активная линия:"@,
        "- "@ + text_or(as_text(field(handoff, "headline"@)), no_data()),
        "- Ближайший обязательный следующий шаг: "@ + project_next_step(handoff),
    ]
}

/// The command that refreshes continuity from its bootstrap file.
pub open spec fn import_command(
    project: ProjectRecord,
    namespace: NamespaceRecord,
    bootstrap_file: Seq<char>,
    active_workline: Option<Seq<char>>,
) -> Seq<char> {
    "./scripts/amai_exec.sh continuity import --project "@ + project.code@ + " --display-name '"@ + replace_all(
        project.display_name@,
        "'"@,
        "\\'"@,
    ) + "' --repo-root "@ + shell_quoted(project.repo_root@) + " --namespace "@ + namespace.code@
        + " --bootstrap-file "@ + shell_quoted(bootstrap_file) + match active_workline {
        Some(a) => " --active-workline-file "@ + shell_quoted(a),
        None => Seq::empty(),
    }
}

/// The close of the startup view: the bootstrap figures and how to go on.
pub open spec fn startup_usage_lines(project: ProjectRecord, namespace: NamespaceRecord, continuity: JsonView) -> Seq<
    Seq<char>,
> {
    let b = bootstrap_of(continuity);
    let file = crate::json::as_str(field(b, "bootstrap_file"@));
    seq![
        "Bootstrap continuity:"@,
        "- Thread count: "@ + count_or_na(as_u64(field(field(b, "details"@), "thread_count"@))),
        "- Последний rendered transcript: "@ + text_or(
            as_text(field(field(b, "details"@), "latest_rendered_transcript"@)),
            no_data(),
        ),
        Seq::empty(),
        "Как использовать дальше:"@,
        "- Для project-scoped retrieval: ./scripts/amai_exec.sh context pack --project "@ + project.code@
            + " --namespace "@ + namespace.code@ + " --query 'ваш вопрос'"@,
        match file {
            Some(f) => if trim(f).len() > 0 {
                "- Для обновления continuity после новых изменений: "@ + import_command(
                    project,
                    namespace,
                    f,
                    as_text(field(field(continuity, "active_workline_summary"@), "active_workline_file"@)),
                )
            } else {
                "- Для materialize continuity import сначала дай bootstrap/active workline source; текущий startup уже восстановлен из runtime fallback."@
            },
            None => "- Для materialize continuity import сначала дай bootstrap/active workline source; текущий startup уже восстановлен из runtime fallback."@,
        },
    ]
}

fn source_summary_exec(continuity: &Json) -> (r: String)
    ensures
        r@ == source_summary(continuity@),
{
    let mode = crate::json::get_str(continuity, "continuity_source_mode");
    let ns = match mode {
        Some(_) => crate::json::get_str(continuity, "continuity_source_namespace_code"),
        None => None,
    };
    let ns_text = match ns {
        Some(t) => t,
        None => "ещё нет данных",
    };
    match mode {
        Some(m) => {
            if str_eq(m, "continuity_namespace_fallback_import") {
                string_of(prefixed("fallback import из namespace ", ns_text).as_slice())
            } else if str_eq(m, "working_state_fallback") {
                "runtime fallback из working_state + handoff".to_string()
            } else {
                string_of(prefixed("scoped import из namespace ", ns_text).as_slice())
            }
        },
        None => "ещё нет данных".to_string(),
    }
}

fn join_strings_lines(lines: &mut Vec<Vec<char>>, text: &str)
    ensures
        views(final(lines)@) == views(old(lines)@).push(text@),
{
    push_line(lines, chars_of(text));
}

/// The opening of the startup view.
pub fn render_startup_overview(
    project: &ProjectRecord,
    namespace: &NamespaceRecord,
    continuity: &Json,
    handoff_summary: &Json,
) -> (r: String)
    ensures
        r@ == join(startup_overview_lines(*project, *namespace, continuity@, handoff_summary@), "\n"@),
{
    let mut lines: Vec<Vec<char>> = Vec::new();
    join_strings_lines(&mut lines, "Amai continuity startup");
    push_line(&mut lines, Vec::new());
    let mut l: Vec<char> = Vec::new();
    push_str(&mut l, "Проект: ");
    push_str(&mut l, project.display_name.as_str());
    push_str(&mut l, " (");
    push_str(&mut l, project.code.as_str());
    push_str(&mut l, ")");
    push_line(&mut lines, l);
    push_line(&mut lines, prefixed("Корень проекта: ", project.repo_root.as_str()));
    push_line(&mut lines, prefixed("Namespace continuity: ", namespace.code.as_str()));
    let source = source_summary_exec(continuity);
    push_line(&mut lines, prefixed("Continuity source: ", source.as_str()));
    let imported = crate::labels::human_epoch_ms(get_u64(continuity, "imported_at_epoch_ms"));
    push_line(&mut lines, prefixed("Последний импорт continuity: ", imported.as_str()));
    let documents = format_optional_u64_for_human(get_u64(continuity, "documents_imported"));
    push_line(&mut lines, prefixed("Импортировано документов: ", documents.as_str()));
    let bootstrap = field_ref(continuity, "bootstrap_summary");
    let snapshot = match get_text(bootstrap, "bootstrap_file") {
        Some(t) => t,
        None => "ещё нет данных",
    };
    push_line(&mut lines, prefixed("Continuity snapshot: ", snapshot));
    let ghost head = views(lines@);
    match get_u64(continuity, "session_memory_files") {
        Some(c) => {
            if c > 0 {
                let n = crate::text::u64_to_string(c);
                push_line(&mut lines, prefixed("Дополнительные bridge-notes: ", n.as_str()));
            }
        },
        None => join_strings_lines(&mut lines, "Дополнительные bridge-notes: ещё нет данных"),
    }
    let ghost with_bridge = views(lines@);
    assert(with_bridge =~= head + bridge_lines(as_u64(field(continuity@, "session_memory_files"@))));
    let rendered = format_optional_u64_for_human(get_u64(continuity, "rendered_transcript_files"));
    push_line(&mut lines, prefixed("Rendered transcripts: ", rendered.as_str()));
    push_line(&mut lines, Vec::new());
    join_strings_lines(&mut lines, "Текущая активная линия:");
    let headline = match get_text(handoff_summary, "headline") {
        Some(t) => t,
        None => "ещё нет данных",
    };
    push_line(&mut lines, prefixed("- ", headline));
    let raw_step = match crate::json::get_str(handoff_summary, "next_step") {
        Some(t) => t,
        None => "",
    };
    proof {
        reveal_strlit("");
        assert(raw_step@ == crate::direct_answer::str_or_empty(field(handoff_summary@, "next_step"@)));
    }
    let step = match crate::answer::normalize_next_step_value(raw_step) {
        Some(t) => t,
        None => "ещё нет данных".to_string(),
    };
    push_line(&mut lines, prefixed("- Ближайший обязательный следующий шаг: ", step.as_str()));
    proof {
        assert(views(lines@) =~= startup_overview_lines(*project, *namespace, continuity@, handoff_summary@));
    }
    join_lines(&lines)
}

fn import_command_exec(
    project: &ProjectRecord,
    namespace: &NamespaceRecord,
    bootstrap_file: &str,
    active_workline: Option<&str>,
) -> (r: Vec<char>)
    ensures
        r@ == import_command(*project, *namespace, bootstrap_file@, crate::answer::opt_view(active_workline)),
{
    let mut c: Vec<char> = Vec::new();
    push_str(&mut c, "./scripts/amai_exec.sh continuity import --project ");
    push_str(&mut c, project.code.as_str());
    push_str(&mut c, " --display-name '");
    let name = chars_of(project.display_name.as_str());
    let quote = chars_of("'");
    let escaped_quote = chars_of("\\'");
    proof {
        reveal_strlit("'");
    }
    let escaped = replace_exec(name.as_slice(), quote.as_slice(), escaped_quote.as_slice());
    push_all(&mut c, escaped.as_slice());
    push_str(&mut c, "' --repo-root ");
    let root = shell_quote(project.repo_root.as_str());
    push_str(&mut c, root.as_str());
    push_str(&mut c, " --namespace ");
    push_str(&mut c, namespace.code.as_str());
    push_str(&mut c, " --bootstrap-file ");
    let file = shell_quote(bootstrap_file);
    push_str(&mut c, file.as_str());
    match active_workline {
        Some(a) => {
            push_str(&mut c, " --active-workline-file ");
            let q = shell_quote(a);
            push_str(&mut c, q.as_str());
        },
        None => {},
    }
    c
}

/// The close of the startup view.
pub fn render_startup_usage(project: &ProjectRecord, namespace: &NamespaceRecord, continuity: &Json) -> (r: String)
    ensures
        r@ == join(startup_usage_lines(*project, *namespace, continuity@), "\n"@),
{
    let b = field_ref(continuity, "bootstrap_summary");
    let details = field_ref(b, "details");
    let mut lines: Vec<Vec<char>> = Vec::new();
    join_strings_lines(&mut lines, "Bootstrap continuity:");
    let count = format_optional_u64_for_human(get_u64(details, "thread_count"));
    push_line(&mut lines, prefixed("- Thread count: ", count.as_str()));
    let latest = match get_text(details, "latest_rendered_transcript") {
        Some(t) => t,
        None => "ещё нет данных",
    };
    push_line(&mut lines, prefixed("- Последний rendered transcript: ", latest));
    push_line(&mut lines, Vec::new());
    join_strings_lines(&mut lines, "Как использовать дальше:");
    let mut retrieval: Vec<char> = Vec::new();
    push_str(&mut retrieval, "- Для project-scoped retrieval: ./scripts/amai_exec.sh context pack --project ");
    push_str(&mut retrieval, project.code.as_str());
    push_str(&mut retrieval, " --namespace ");
    push_str(&mut retrieval, namespace.code.as_str());
    push_str(&mut retrieval, " --query 'ваш вопрос'");
    push_line(&mut lines, retrieval);
    let fallback = "- Для materialize continuity import сначала дай bootstrap/active workline source; текущий startup уже восстановлен из runtime fallback.";
    let last = match crate::json::get_str(b, "bootstrap_file") {
        Some(f) => {
            if trim_str(f).unicode_len() > 0 {
                let active = get_text(field_ref(continuity, "active_workline_summary"), "active_workline_file");
                let cmd = import_command_exec(project, namespace, f, active);
                let mut l: Vec<char> = Vec::new();
                push_str(&mut l, "- Для обновления continuity после новых изменений: ");
                push_all(&mut l, cmd.as_slice());
                l
            } else {
                chars_of(fallback)
            }
        },
        None => chars_of(fallback),
    };
    push_line(&mut lines, last);
    proof {
        assert(views(lines@) =~= startup_usage_lines(*project, *namespace, continuity@));
    }
    join_lines(&lines)
}

} // verus!
