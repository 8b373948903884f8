//! Continuity restore, handoff and compact-chat logic of the Amai agent memory index.
pub mod text;
pub mod labels;
pub mod answer;
pub mod handoff;
pub mod launch;
pub mod budget;
pub mod documents;
pub mod json;
pub mod surface;
pub mod chunks;
pub mod fallback;
pub mod host_launch;
pub mod bootstrap;
pub mod projections;
pub mod startup;
pub mod prompt_summaries;
pub mod compaction;
pub mod gate;
pub mod audit;
pub mod snapshots;
pub mod runtime_summaries;
pub mod advisory;
pub mod direct_answer;
pub mod chat_start;
pub mod runtime_state;
pub mod human;
pub mod startup_payload;
pub mod artifact_fallback;
pub mod target_update;
pub mod answer_probe;
pub mod answer_payload;
pub mod bridge;
pub mod self_checks;
pub mod compact_payload;
pub mod rotate;
pub mod verification;
pub mod startup_context;
pub mod answer_plan;
pub mod import_plan;
pub mod import_sources;
pub mod thread_index;
