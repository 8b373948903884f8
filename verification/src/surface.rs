//! The clean-surface launch contract of compact chat: which command, if any, opens a new
//! clean work surface for a client, and the manual fallback shown when none can.
use vstd::prelude::*;
use crate::json::{
    as_text, entries_lookup, field, get_text, opt_str_view, str_json, Json, JsonView, ObjectBuilder,
};
use crate::labels::text_or;
use crate::launch::{
    bridge_launch_command, build_vscode_code_chat_launch_command_with_binary,
    build_vscode_public_bridge_launch_command, code_chat_launch_command,
    compact_chat_bridge_live_state_path, compact_chat_bridge_result_path, path_join,
};
use crate::text::{lemma_trim_idempotent, non_empty_trimmed, push_str, string_of, str_eq, trim};

verus! {

/// The client key of a client surface, `unknown` when missing.
pub open spec fn client_key(cs: JsonView) -> Seq<char> {
    text_or(as_text(field(cs, "client_key"@)), "unknown"@)
}

/// The display name of a client surface, `Unknown client` when missing.
pub open spec fn display_name(cs: JsonView) -> Seq<char> {
    text_or(as_text(field(cs, "display_name"@)), "Unknown client"@)
}

pub open spec fn live_state_path(root: Seq<char>) -> Seq<char> {
    path_join(root, ".amai/onboarding/vscode-public-bridge-live-state.json"@)
}

pub open spec fn result_path(root: Seq<char>) -> Seq<char> {
    path_join(root, ".amai/continuity/compact-chat-launch-result.json"@)
}

pub open spec fn s(t: Seq<char>) -> JsonView {
    JsonView::Str(t)
}

pub open spec fn ux_verdict() -> Seq<char> {
    "not_seamless_until_live_client_proof"@
}

/// A surface without any launch command.
pub open spec fn unavailable_entries(
    cs: JsonView,
    root: Seq<char>,
    status: Seq<char>,
    supported: bool,
    command_kind: JsonView,
    reason: Seq<char>,
    proof_boundary: Seq<char>,
    state: Seq<char>,
) -> Seq<(Seq<char>, JsonView)> {
    seq![
        ("client_key"@, s(client_key(cs))),
        ("display_name"@, s(display_name(cs))),
        ("status"@, s(status)),
        ("supported_auto_launch"@, JsonView::Bool(supported)),
        ("command_kind"@, command_kind),
        ("launch_clean_chat_command"@, JsonView::Null),
        ("launch_clean_chat_fallback_command"@, JsonView::Null),
        ("unavailable_reason"@, s(reason)),
        ("proof_boundary"@, s(proof_boundary)),
        ("ux_verdict"@, s(ux_verdict())),
        ("bridge_live_verification_state"@, s(state)),
        ("bridge_live_verification_artifact"@, s(live_state_path(root))),
    ]
}

pub open spec fn unavailable_surface(
    cs: JsonView,
    root: Seq<char>,
    status: Seq<char>,
    supported: bool,
    command_kind: JsonView,
    reason: Seq<char>,
    proof_boundary: Seq<char>,
    state: Seq<char>,
) -> JsonView {
    JsonView::Object(unavailable_entries(cs, root, status, supported, command_kind, reason, proof_boundary, state))
}

/// A surface that opens the clean chat through the verified public URI bridge.
pub open spec fn bridge_entries(cs: JsonView, root: Seq<char>, command: Seq<char>, fallback: JsonView) -> Seq<(Seq<char>, JsonView)> {
    seq![
        ("client_key"@, s(client_key(cs))),
        ("display_name"@, s(display_name(cs))),
        ("status"@, s("launch_command_available"@)),
        ("supported_auto_launch"@, JsonView::Bool(true)),
        ("command_kind"@, s("vscode_uri_amai_bridge"@)),
        ("launch_clean_chat_command"@, s(command)),
        ("launch_clean_chat_fallback_command"@, fallback),
        ("unavailable_reason"@, JsonView::Null),
        ("proof_boundary"@, s("public_bridge_live_contract_only"@)),
        ("ux_verdict"@, s(ux_verdict())),
        ("bridge_result_file"@, s(result_path(root))),
        ("bridge_live_verification_state"@, s("verified"@)),
        ("bridge_live_verification_artifact"@, s(live_state_path(root))),
    ]
}

pub open spec fn bridge_surface(cs: JsonView, root: Seq<char>, command: Seq<char>, fallback: JsonView) -> JsonView {
    JsonView::Object(bridge_entries(cs, root, command, fallback))
}

/// A surface that opens the clean chat through `code chat`.
pub open spec fn code_chat_entries(
    cs: JsonView,
    root: Seq<char>,
    command: Seq<char>,
    fallback: Seq<char>,
    verified: bool,
) -> Seq<(Seq<char>, JsonView)> {
    seq![
        ("client_key"@, s(client_key(cs))),
        ("display_name"@, s(display_name(cs))),
        ("status"@, s("launch_command_available"@)),
        ("supported_auto_launch"@, JsonView::Bool(true)),
        ("command_kind"@, s("vscode_code_chat_cli"@)),
        ("launch_clean_chat_command"@, s(command)),
        ("launch_clean_chat_fallback_command"@, s(fallback)),
        ("unavailable_reason"@, JsonView::Null),
        ("proof_boundary"@, s("command_contract_only"@)),
        ("ux_verdict"@, s(ux_verdict())),
        ("bridge_live_verification_state"@, s(if verified { "verified"@ } else { "missing"@ })),
        ("bridge_live_verification_artifact"@, s(live_state_path(root))),
    ]
}

pub open spec fn code_chat_surface(
    cs: JsonView,
    root: Seq<char>,
    command: Seq<char>,
    fallback: Seq<char>,
    verified: bool,
) -> JsonView {
    JsonView::Object(code_chat_entries(cs, root, command, fallback, verified))
}

/// The clean-surface launch contract. Without a prompt artifact nothing can be launched;
/// clients other than VS Code are manual only; for VS Code the public URI bridge is used
/// only when an opener exists and the bridge is both installed and live-verified, and
/// otherwise `code chat` is used when the `code` binary is known.
pub open spec fn launch_surface(
    cs: JsonView,
    root: Seq<char>,
    prompt: Option<Seq<char>>,
    vscode_binary: Option<Seq<char>>,
    uri_open_command: Option<Seq<char>>,
    installed: bool,
    verified: bool,
) -> JsonView {
    match prompt {
        None => unavailable_surface(
            cs,
            root,
            "bridge_unavailable"@,
            false,
            JsonView::Null,
            "prompt_artifact_unavailable"@,
            "command_contract_only"@,
            "missing"@,
        ),
        Some(p) => if client_key(cs) != "vscode"@ {
            unavailable_surface(
                cs,
                root,
                "manual_only"@,
                false,
                JsonView::Null,
                "client_has_no_automatic_clean_chat_bridge"@,
                "manual_fallback_contract_only"@,
                "missing"@,
            )
        } else {
            let bridge_ready = uri_open_command is Some && installed && verified;
            match vscode_binary {
                None => if bridge_ready {
                    bridge_surface(
                        cs,
                        root,
                        bridge_launch_command(None, uri_open_command, root, p, result_path(root), "sidebar"@),
                        JsonView::Null,
                    )
                } else {
                    unavailable_surface(
                        cs,
                        root,
                        "bridge_unavailable"@,
                        true,
                        s("vscode_code_chat_cli"@),
                        if installed {
                            "vscode_public_bridge_live_verification_missing"@
                        } else {
                            "vscode_code_cli_unavailable"@
                        },
                        "command_contract_only"@,
                        if verified { "verified"@ } else { "missing"@ },
                    )
                },
                Some(b) => if bridge_ready {
                    bridge_surface(
                        cs,
                        root,
                        bridge_launch_command(Some(b), uri_open_command, root, p, result_path(root), "sidebar"@),
                        s(code_chat_launch_command(b, root, p, false)),
                    )
                } else {
                    code_chat_surface(
                        cs,
                        root,
                        code_chat_launch_command(b, root, p, true),
                        code_chat_launch_command(b, root, p, false),
                        verified,
                    )
                },
            }
        },
    }
}

proof fn lemma_surface_keys()
    ensures
        "launch_clean_chat_command"@ != "client_key"@,
        "launch_clean_chat_command"@ != "display_name"@,
        "launch_clean_chat_command"@ != "status"@,
        "launch_clean_chat_command"@ != "supported_auto_launch"@,
        "launch_clean_chat_command"@ != "command_kind"@,
        "command_kind"@ != "client_key"@,
        "command_kind"@ != "display_name"@,
        "command_kind"@ != "status"@,
        "command_kind"@ != "supported_auto_launch"@,
        "vscode_code_chat_cli"@ != "vscode_uri_amai_bridge"@,
{
    reveal_strlit("launch_clean_chat_command");
    reveal_strlit("client_key");
    reveal_strlit("display_name");
    reveal_strlit("status");
    reveal_strlit("supported_auto_launch");
    reveal_strlit("command_kind");
    reveal_strlit("vscode_code_chat_cli");
    reveal_strlit("vscode_uri_amai_bridge");
    assert("launch_clean_chat_command"@.len() == 25);
    assert("client_key"@.len() == 10);
    assert("display_name"@.len() == 12);
    assert("status"@.len() == 6);
    assert("supported_auto_launch"@.len() == 21);
    assert("command_kind"@.len() == 12);
    assert("vscode_code_chat_cli"@.len() == 20);
    assert("vscode_uri_amai_bridge"@.len() == 22);
    assert("command_kind"@[0] != "display_name"@[0]);
}

/// Without a prompt artifact, or for a client other than VS Code, the surface offers no
/// launch command and never claims that one is available.
pub proof fn lemma_launch_surface_fail_closed(
    cs: JsonView,
    root: Seq<char>,
    prompt: Option<Seq<char>>,
    vscode_binary: Option<Seq<char>>,
    uri_open_command: Option<Seq<char>>,
    installed: bool,
    verified: bool,
)
    requires
        prompt is None || client_key(cs) != "vscode"@,
    ensures
        field(
            launch_surface(cs, root, prompt, vscode_binary, uri_open_command, installed, verified),
            "launch_clean_chat_command"@,
        ) == JsonView::Null,
        field(
            launch_surface(cs, root, prompt, vscode_binary, uri_open_command, installed, verified),
            "command_kind"@,
        ) == JsonView::Null,
{
    lemma_surface_keys();
    let r = launch_surface(cs, root, prompt, vscode_binary, uri_open_command, installed, verified);
    let es = r->Object_0;
    assert(es[5].0 == "launch_clean_chat_command"@);
    crate::json::lemma_position_lookup_first(es, "launch_clean_chat_command"@, es.len() as int, 5);
    crate::json::lemma_position_lookup_first(es, "command_kind"@, es.len() as int, 4);
}

/// The public URI bridge is chosen only for VS Code with a prompt artifact, an opener, and
/// a bridge that is both installed and live-verified.
pub proof fn lemma_bridge_only_when_verified(
    cs: JsonView,
    root: Seq<char>,
    prompt: Option<Seq<char>>,
    vscode_binary: Option<Seq<char>>,
    uri_open_command: Option<Seq<char>>,
    installed: bool,
    verified: bool,
)
    ensures
        field(
            launch_surface(cs, root, prompt, vscode_binary, uri_open_command, installed, verified),
            "command_kind"@,
        ) == s("vscode_uri_amai_bridge"@) ==> {
            &&& prompt is Some
            &&& client_key(cs) == "vscode"@
            &&& uri_open_command is Some
            &&& installed
            &&& verified
        },
{
    if prompt is None || client_key(cs) != "vscode"@ {
        lemma_launch_surface_fail_closed(cs, root, prompt, vscode_binary, uri_open_command, installed, verified);
    } else if !(uri_open_command is Some && installed && verified) {
        lemma_surface_keys();
        let r = launch_surface(cs, root, prompt, vscode_binary, uri_open_command, installed, verified);
        let es = r->Object_0;
        assert(es[4] == ("command_kind"@, s("vscode_code_chat_cli"@)));
        crate::json::lemma_position_lookup_first(es, "command_kind"@, es.len() as int, 4);
    }
}

/// The fields a surface is read by, at their places in every surface.
proof fn lemma_surface_reads(es: Seq<(Seq<char>, JsonView)>)
    requires
        es.len() >= 8,
        es[0].0 == "client_key"@,
        es[1].0 == "display_name"@,
        es[2].0 == "status"@,
        es[3].0 == "supported_auto_launch"@,
        es[4].0 == "command_kind"@,
        es[5].0 == "launch_clean_chat_command"@,
        es[6].0 == "launch_clean_chat_fallback_command"@,
        es[7].0 == "unavailable_reason"@,
    ensures
        field(JsonView::Object(es), "status"@) == es[2].1,
        field(JsonView::Object(es), "launch_clean_chat_command"@) == es[5].1,
        field(JsonView::Object(es), "unavailable_reason"@) == es[7].1,
{
    lemma_surface_keys();
    reveal_strlit("status");
    reveal_strlit("client_key");
    reveal_strlit("display_name");
    reveal_strlit("supported_auto_launch");
    reveal_strlit("command_kind");
    reveal_strlit("launch_clean_chat_command");
    reveal_strlit("launch_clean_chat_fallback_command");
    reveal_strlit("unavailable_reason");
    assert("status"@.len() == 6 && "unavailable_reason"@.len() == 18);
    assert("client_key"@.len() == 10 && "display_name"@.len() == 12);
    assert("supported_auto_launch"@.len() == 21 && "command_kind"@.len() == 12);
    assert("launch_clean_chat_command"@.len() == 25);
    assert("launch_clean_chat_fallback_command"@.len() == 34);
    crate::json::lemma_position_lookup_first(es, "status"@, es.len() as int, 2);
    crate::json::lemma_position_lookup_first(es, "launch_clean_chat_command"@, es.len() as int, 5);
    crate::json::lemma_position_lookup_first(es, "unavailable_reason"@, es.len() as int, 7);
}

proof fn lemma_status_words()
    ensures
        "launch_command_available"@ != "bridge_unavailable"@,
        "launch_command_available"@ != "manual_only"@,
{
    reveal_strlit("launch_command_available");
    reveal_strlit("bridge_unavailable");
    reveal_strlit("manual_only");
    assert("launch_command_available"@.len() == 24);
    assert("bridge_unavailable"@.len() == 18);
    assert("manual_only"@.len() == 11);
}

/// A law of the launch surface: without a prompt artifact the bridge is unavailable for
/// that reason; a client other than VS Code is manual only; and a launch command is
/// offered exactly when the status says one is available.
pub proof fn lemma_launch_surface_status(
    cs: JsonView,
    root: Seq<char>,
    prompt: Option<Seq<char>>,
    vscode_binary: Option<Seq<char>>,
    uri_open_command: Option<Seq<char>>,
    installed: bool,
    verified: bool,
)
    ensures
        ({
            let r = launch_surface(
                cs,
                root,
                prompt,
                vscode_binary,
                uri_open_command,
                installed,
                verified,
            );
            &&& prompt is None ==> field(r, "status"@) == s("bridge_unavailable"@) && field(
                r,
                "unavailable_reason"@,
            ) == s("prompt_artifact_unavailable"@)
            &&& prompt is Some && client_key(cs) != "vscode"@ ==> field(r, "status"@) == s(
                "manual_only"@,
            )
            &&& (field(r, "launch_clean_chat_command"@) is Str <==> field(r, "status"@) == s(
                "launch_command_available"@,
            ))
        }),
{
    lemma_status_words();
    match prompt {
        None => {
            lemma_surface_reads(
                unavailable_entries(
                    cs,
                    root,
                    "bridge_unavailable"@,
                    false,
                    JsonView::Null,
                    "prompt_artifact_unavailable"@,
                    "command_contract_only"@,
                    "missing"@,
                ),
            );
        },
        Some(p) => {
            if client_key(cs) != "vscode"@ {
                lemma_surface_reads(
                    unavailable_entries(
                        cs,
                        root,
                        "manual_only"@,
                        false,
                        JsonView::Null,
                        "client_has_no_automatic_clean_chat_bridge"@,
                        "manual_fallback_contract_only"@,
                        "missing"@,
                    ),
                );
            } else {
                let bridge_ready = uri_open_command is Some && installed && verified;
                match vscode_binary {
                    None => {
                        if bridge_ready {
                            lemma_surface_reads(
                                bridge_entries(
                                    cs,
                                    root,
                                    bridge_launch_command(
                                        None,
                                        uri_open_command,
                                        root,
                                        p,
                                        result_path(root),
                                        "sidebar"@,
                                    ),
                                    JsonView::Null,
                                ),
                            );
                        } else {
                            lemma_surface_reads(
                                unavailable_entries(
                                    cs,
                                    root,
                                    "bridge_unavailable"@,
                                    true,
                                    s("vscode_code_chat_cli"@),
                                    if installed {
                                        "vscode_public_bridge_live_verification_missing"@
                                    } else {
                                        "vscode_code_cli_unavailable"@
                                    },
                                    "command_contract_only"@,
                                    if verified { "verified"@ } else { "missing"@ },
                                ),
                            );
                        }
                    },
                    Some(b) => {
                        if bridge_ready {
                            lemma_surface_reads(
                                bridge_entries(
                                    cs,
                                    root,
                                    bridge_launch_command(
                                        Some(b),
                                        uri_open_command,
                                        root,
                                        p,
                                        result_path(root),
                                        "sidebar"@,
                                    ),
                                    s(code_chat_launch_command(b, root, p, false)),
                                ),
                            );
                        } else {
                            lemma_surface_reads(
                                code_chat_entries(
                                    cs,
                                    root,
                                    code_chat_launch_command(b, root, p, true),
                                    code_chat_launch_command(b, root, p, false),
                                    verified,
                                ),
                            );
                        }
                    },
                }
            }
        },
    }
}

fn surface_head(b: &mut ObjectBuilder, client_key: &str, display_name: &str)
    ensures
        final(b).view_entries() == old(b).view_entries().push(("client_key"@, JsonView::Str(client_key@))).push(
            ("display_name"@, JsonView::Str(display_name@)),
        ),
{
    b.push("client_key", str_json(client_key));
    b.push("display_name", str_json(display_name));
}

fn unavailable_surface_exec(
    client_key: &str,
    display_name: &str,
    root: &str,
    status: &str,
    supported: bool,
    command_kind: Json,
    reason: &str,
    proof_boundary: &str,
    state: &str,
    cs: Ghost<JsonView>,
) -> (r: Json)
    requires
        client_key@ == crate::surface::client_key(cs@),
        display_name@ == crate::surface::display_name(cs@),
    ensures
        r@ == unavailable_surface(
            cs@,
            root@,
            status@,
            supported,
            command_kind@,
            reason@,
            proof_boundary@,
            state@,
        ),
{
    let mut b = ObjectBuilder::new();
    surface_head(&mut b, client_key, display_name);
    b.push("status", str_json(status));
    b.push("supported_auto_launch", Json::Bool(supported));
    b.push("command_kind", command_kind);
    b.push("launch_clean_chat_command", Json::Null);
    b.push("launch_clean_chat_fallback_command", Json::Null);
    b.push("unavailable_reason", str_json(reason));
    b.push("proof_boundary", str_json(proof_boundary));
    b.push("ux_verdict", str_json("not_seamless_until_live_client_proof"));
    b.push("bridge_live_verification_state", str_json(state));
    let artifact = compact_chat_bridge_live_state_path(root);
    b.push("bridge_live_verification_artifact", Json::Str(artifact));
    assert(b.view_entries() =~= unavailable_entries(
        cs@,
        root@,
        status@,
        supported,
        command_kind@,
        reason@,
        proof_boundary@,
        state@,
    ));
    b.build()
}

fn bridge_surface_exec(
    client_key: &str,
    display_name: &str,
    root: &str,
    command: String,
    fallback: Json,
    cs: Ghost<JsonView>,
) -> (r: Json)
    requires
        client_key@ == crate::surface::client_key(cs@),
        display_name@ == crate::surface::display_name(cs@),
    ensures
        r@ == bridge_surface(cs@, root@, command@, fallback@),
{
    let mut b = ObjectBuilder::new();
    surface_head(&mut b, client_key, display_name);
    b.push("status", str_json("launch_command_available"));
    b.push("supported_auto_launch", Json::Bool(true));
    b.push("command_kind", str_json("vscode_uri_amai_bridge"));
    let ghost cmd = command@;
    b.push("launch_clean_chat_command", Json::Str(command));
    b.push("launch_clean_chat_fallback_command", fallback);
    b.push("unavailable_reason", Json::Null);
    b.push("proof_boundary", str_json("public_bridge_live_contract_only"));
    b.push("ux_verdict", str_json("not_seamless_until_live_client_proof"));
    b.push("bridge_result_file", Json::Str(compact_chat_bridge_result_path(root)));
    b.push("bridge_live_verification_state", str_json("verified"));
    b.push("bridge_live_verification_artifact", Json::Str(compact_chat_bridge_live_state_path(root)));
    assert(b.view_entries() =~= bridge_entries(cs@, root@, cmd, fallback@));
    b.build()
}

fn code_chat_surface_exec(
    client_key: &str,
    display_name: &str,
    root: &str,
    command: String,
    fallback: String,
    verified: bool,
    cs: Ghost<JsonView>,
) -> (r: Json)
    requires
        client_key@ == crate::surface::client_key(cs@),
        display_name@ == crate::surface::display_name(cs@),
    ensures
        r@ == code_chat_surface(cs@, root@, command@, fallback@, verified),
{
    let mut b = ObjectBuilder::new();
    surface_head(&mut b, client_key, display_name);
    b.push("status", str_json("launch_command_available"));
    b.push("supported_auto_launch", Json::Bool(true));
    b.push("command_kind", str_json("vscode_code_chat_cli"));
    let ghost c = command@;
    let ghost f = fallback@;
    b.push("launch_clean_chat_command", Json::Str(command));
    b.push("launch_clean_chat_fallback_command", Json::Str(fallback));
    b.push("unavailable_reason", Json::Null);
    b.push("proof_boundary", str_json("command_contract_only"));
    b.push("ux_verdict", str_json("not_seamless_until_live_client_proof"));
    b.push(
        "bridge_live_verification_state",
        str_json(if verified { "verified" } else { "missing" }),
    );
    b.push("bridge_live_verification_artifact", Json::Str(compact_chat_bridge_live_state_path(root)));
    assert(b.view_entries() =~= code_chat_entries(cs@, root@, c, f, verified));
    b.build()
}

/// The trimmed text of an optional string and its trimming being idempotent.
fn trimmed_opt<'a>(o: Option<&'a str>) -> (r: Option<&'a str>)
    ensures
        match r {
            Some(t) => crate::labels::opt_text(o) == Some(t@) && crate::labels::opt_text(Some(t))
                == Some(t@),
            None => crate::labels::opt_text(o) is None,
        },
{
    let r = crate::labels::optional_non_empty_text(o);
    match r {
        Some(t) => {
            proof {
                lemma_trim_idempotent(o->0@);
            }
            Some(t)
        },
        None => None,
    }
}

pub fn build_compact_chat_clean_launch_surface_with_vscode_contracts(
    client_surface: &Json,
    repo_root: &str,
    prompt_path: Option<&str>,
    vscode_binary: Option<&str>,
    uri_open_command: Option<&str>,
    public_bridge_installed: bool,
    public_bridge_live_verified: bool,
) -> (r: Json)
    ensures
        r@ == launch_surface(
            client_surface@,
            repo_root@,
            match prompt_path {
                Some(p) => Some(p@),
                None => None,
            },
            crate::labels::opt_text(vscode_binary),
            crate::labels::opt_text(uri_open_command),
            public_bridge_installed,
            public_bridge_live_verified,
        ),
{
    let ghost cs = client_surface@;
    let key = match get_text(client_surface, "client_key") {
        Some(k) => k,
        None => "unknown",
    };
    let name = match get_text(client_surface, "display_name") {
        Some(n) => n,
        None => "Unknown client",
    };
    let prompt = match prompt_path {
        Some(p) => p,
        None => {
            return unavailable_surface_exec(
                key,
                name,
                repo_root,
                "bridge_unavailable",
                false,
                Json::Null,
                "prompt_artifact_unavailable",
                "command_contract_only",
                "missing",
                Ghost(cs),
            );
        },
    };
    if !str_eq(key, "vscode") {
        return unavailable_surface_exec(
            key,
            name,
            repo_root,
            "manual_only",
            false,
            Json::Null,
            "client_has_no_automatic_clean_chat_bridge",
            "manual_fallback_contract_only",
            "missing",
            Ghost(cs),
        );
    }
    let opener = trimmed_opt(uri_open_command);
    let bridge_ready = opener.is_some() && public_bridge_installed && public_bridge_live_verified;
    let result = compact_chat_bridge_result_path(repo_root);
    match trimmed_opt(vscode_binary) {
        None => {
            if bridge_ready {
                let command = build_vscode_public_bridge_launch_command(
                    None,
                    opener,
                    repo_root,
                    prompt,
                    result.as_str(),
                    "sidebar",
                );
                bridge_surface_exec(key, name, repo_root, command, Json::Null, Ghost(cs))
            } else {
                unavailable_surface_exec(
                    key,
                    name,
                    repo_root,
                    "bridge_unavailable",
                    true,
                    str_json("vscode_code_chat_cli"),
                    if public_bridge_installed {
                        "vscode_public_bridge_live_verification_missing"
                    } else {
                        "vscode_code_cli_unavailable"
                    },
                    "command_contract_only",
                    if public_bridge_live_verified { "verified" } else { "missing" },
                    Ghost(cs),
                )
            }
        },
        Some(binary) => {
            if bridge_ready {
                let command = build_vscode_public_bridge_launch_command(
                    Some(binary),
                    opener,
                    repo_root,
                    prompt,
                    result.as_str(),
                    "sidebar",
                );
                let fallback = build_vscode_code_chat_launch_command_with_binary(
                    binary,
                    repo_root,
                    prompt,
                    false,
                );
                bridge_surface_exec(key, name, repo_root, command, Json::Str(fallback), Ghost(cs))
            } else {
                let command = build_vscode_code_chat_launch_command_with_binary(
                    binary,
                    repo_root,
                    prompt,
                    true,
                );
                let fallback = build_vscode_code_chat_launch_command_with_binary(
                    binary,
                    repo_root,
                    prompt,
                    false,
                );
                code_chat_surface_exec(
                    key,
                    name,
                    repo_root,
                    command,
                    fallback,
                    public_bridge_live_verified,
                    Ghost(cs),
                )
            }
        },
    }
}

} // verus!
