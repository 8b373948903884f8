# amai_continuity

The continuity layer of the Amai agent memory index: how a new chat session is restored
from what earlier sessions left behind (handoffs, continuity imports, the working-state
restore), how that restore is packed into a chat-start prompt, how a chat is compacted
or rotated when the client budget runs low, and how the startup runtime state is
recorded and audited.

The library in `src/` is written in Verus. Its functions state what they return in
`requires`/`ensures` contracts over mathematical views (`JsonView`, `Seq<char>`), and
Verus proves the code against them. JSON payloads are modelled by the library's own
`Json` type.

Rules that belong to other parts of Amai (the dashboard's status wording, the working
state's host-control compaction, the eval layer's verdicts, the startup summary rule)
are handed in as closures, and the contracts hold for whatever those rules return.

`app/` holds what stays outside verification: conversion to and from `serde_json`,
workspace files, environment switches, running the clean-surface launch command and
printing. `tests/` runs the library on concrete inputs.

The commands that read or write the Amai database and object store (import, thread-index
capture, verification, answers, startup) have no flow in `app/`: the database, object
store and the other Amai modules they call are not part of this crate. What those
commands decide and record stands in `src/` as functions of plain values (for example
`continuity_import_sources`, `build_continuity_import_payload`,
`build_thread_index_entry_snapshot`, `conclude_continuity_verification`,
`compact_chat_source`, `plan_continuity_answer`), for such a flow to call with what it read.

`Json` holds integers only; `app/` maps a fractional JSON number to `null` when it
converts a `serde_json` value.

Layout of `src/`, by theme:

- text, labels, json: strings, human placeholders, the JSON model and its builders;
- answer, answer_probe, answer_payload, answer_plan, direct_answer: continuity answers;
- chat_start, startup_payload, startup_context, projections, prompt_summaries: restore packs;
- compaction, compact_payload, artifact_fallback, fallback, surface, host_launch, launch,
  bridge: compact chat and the clean-surface launch;
- rotate, target_update, budget, advisory: client-budget actions;
- gate, audit, runtime_state, human: the startup execution gate and runtime artifact;
- snapshots, handoff, documents, chunks, bootstrap, import_plan, import_sources, thread_index:
  stored continuity;
- self_checks, verification: the continuity self-checks and verification run.
