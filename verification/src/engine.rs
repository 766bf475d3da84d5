//! Core data model: the description of a model to load, per-request
//! generation options, and the discriminated error kinds the core surfaces.

use vstd::prelude::*;

verus! {

/// Description of a model to load. `base_path` is either a local filesystem
/// path or a namespaced remote identifier of the form `org/model`.
#[derive(Debug, Clone)]
pub struct ModelSpec {
    /// Human identifier, used for logging and name-based heuristics.
    pub name: String,
    /// Local path to a weights file/directory, or a remote identifier.
    pub base_path: String,
    /// Optional path to a low-rank adapter artifact.
    pub lora_path: Option<String>,
    /// Optional chat-template tag, opaque to the core.
    pub template: Option<String>,
    /// Maximum context window in tokens; positive.
    pub ctx_len: usize,
    /// Optional CPU thread count override.
    pub n_threads: Option<i32>,
}

/// Per-request sampling and stopping configuration. The sampling parameters
/// that the native runtime takes as fractions are carried here in thousandths
/// (for example a temperature of 0.7 is `temperature_milli == 700`), so the
/// caller at the native boundary divides by 1000.
#[derive(Debug, Clone)]
pub struct GenOptions {
    /// Hard cap on emitted tokens; positive.
    pub max_tokens: usize,
    /// Sampling temperature, in thousandths.
    pub temperature_milli: u32,
    /// Nucleus sampling threshold, in thousandths.
    pub top_p_milli: u32,
    /// Top-k sampling cutoff.
    pub top_k: i32,
    /// Repetition penalty, in thousandths.
    pub repeat_penalty_milli: u32,
    /// Ordered set of substrings; emission halts when the accumulated output
    /// contains any of them.
    pub stop_tokens: Vec<String>,
}

/// Discriminated error kinds surfaced by the core.
#[derive(Debug, Clone)]
pub enum CoreError {
    /// No compiled-in backend matches the selected choice.
    Configuration(String),
    /// The process-wide backend failed to initialize; cached and returned for
    /// every subsequent load.
    BackendInit(String),
    /// The native runtime reported a memory failure while loading; enriched
    /// with the file size (in tenths of a gigabyte), an estimate of the RAM
    /// needed (in gigabytes), and the original diagnostic.
    LoadAllocation { path: String, size_gb_tenths: u64, ram_needed_gb: u64, original: String },
    /// Weights unreadable or unsupported, including an adapter in a format
    /// that must be converted first.
    LoadFormat(String),
    /// Any other load failure from the native runtime, propagated verbatim.
    LoadOther(String),
    /// Failure while turning the prompt into tokens.
    GenTokenize(String),
    /// Failure while decoding a batch.
    GenDecode(String),
    /// Failure while sampling the next token.
    GenSample(String),
    /// The access lock guarding the native state is unusable; the handle must
    /// be discarded.
    LockPoisoned,
}

} // verus!
