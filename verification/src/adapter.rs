//! The engine adapter: owns the backend drivers and picks one for each model
//! spec by a fixed precedence ladder over file extension, identifier shape,
//! host platform, and name heuristics.

use vstd::prelude::*;
use crate::engine::ModelSpec;
use crate::llama::{GpuProbes, LlamaEngine};
use crate::strutil::{
    contains_seq, lower_seq, spec_ext_of, spec_last_index_of, lemma_last_index_of, extension_is,
    str_contains, str_contains_char, contains_lower,
};

verus! {

/// Which backend driver a spec is routed to.
#[derive(Debug, Clone, Copy, PartialEq, Eq, Structural)]
pub enum BackendChoice {
    /// Quantized-weights runtime.
    Llama,
    /// Framework-backed runtime for remote-identifier models.
    HuggingFace,
    /// Accelerator runtime for first-party silicon.
    MLX,
    /// Pure in-process tensor loader.
    SafeTensors,
}

/// The name heuristic used on Apple-silicon hosts: known model families that
/// the accelerator runtime handles well.
pub open spec fn spec_mlx_name_match(name: Seq<char>) -> bool {
    ||| contains_seq(lower_seq(name), "llama"@)
    ||| contains_seq(lower_seq(name), "mistral"@)
    ||| contains_seq(lower_seq(name), "phi"@)
    ||| contains_seq(lower_seq(name), "qwen"@)
}

/// The name heuristic for quantized models: family names that ship as
/// quantized weights. Applied to the name as given, without case folding.
pub open spec fn spec_gguf_name_match(name: Seq<char>) -> bool {
    ||| contains_seq(name, "llama"@)
    ||| contains_seq(name, "phi"@)
    ||| contains_seq(name, "qwen"@)
    ||| contains_seq(name, "gemma"@)
    ||| contains_seq(name, "mistral"@)
}

/// The selection ladder. Earlier rules win: explicit file extensions first,
/// then the remote-identifier shape, then the Apple-silicon name heuristic,
/// then blob-store and quantized-name patterns, and the framework runtime
/// as the default. All four drivers are present in this build, so the
/// fall-through for an absent driver never fires and the ladder is total.
pub open spec fn spec_select(name: Seq<char>, base: Seq<char>, apple_silicon: bool) -> BackendChoice {
    if spec_ext_of(base) == Some("safetensors"@) {
        BackendChoice::SafeTensors
    } else if spec_ext_of(base) == Some("gguf"@) {
        BackendChoice::Llama
    } else if spec_ext_of(base) == Some("npz"@) || spec_ext_of(base) == Some("mlx"@) {
        BackendChoice::MLX
    } else if base.contains('/') && !base.contains('\\') && !base.contains('.') {
        BackendChoice::HuggingFace
    } else if apple_silicon && spec_mlx_name_match(name) {
        BackendChoice::MLX
    } else if contains_seq(base, "ollama"@) && contains_seq(base, "blobs"@) && contains_seq(
        base,
        "sha256-"@,
    ) {
        BackendChoice::Llama
    } else if contains_seq(base, ".gguf"@) || spec_gguf_name_match(name) {
        BackendChoice::Llama
    } else {
        BackendChoice::HuggingFace
    }
}

/// Adapter that owns the initialized backend drivers and routes each load to
/// one of them. Only the quantized-weights driver carries configuration; the
/// host platform is recorded at construction so that selection is a pure
/// function of the adapter and the spec.
#[derive(Debug, Clone)]
pub struct InferenceEngineAdapter {
    /// The quantized-weights driver.
    pub llama_engine: LlamaEngine,
    /// The host is an Apple-silicon machine.
    pub apple_silicon: bool,
}

impl InferenceEngineAdapter {
    /// Adapter with an auto-detected GPU backend for the quantized driver.
    pub fn new(probes: GpuProbes, apple_silicon: bool) -> (a: Self)
        ensures
            a.llama_engine.gpu_backend == crate::llama::spec_detect_best(probes),
            a.llama_engine.moe_config.n_cpu_moe is None,
            !a.llama_engine.moe_config.cpu_moe_all,
            a.apple_silicon == apple_silicon,
    {
        InferenceEngineAdapter { llama_engine: LlamaEngine::new(probes), apple_silicon }
    }

    /// Adapter with a user-chosen GPU backend for the quantized driver.
    pub fn new_with_backend(gpu_backend: Option<&str>, probes: GpuProbes, apple_silicon: bool) -> (a:
        Self)
        ensures
            a.llama_engine.gpu_backend == (match gpu_backend {
                Some(s) => crate::llama::spec_backend_from_string(s@, probes),
                None => crate::llama::spec_detect_best(probes),
            }),
            a.llama_engine.moe_config.n_cpu_moe is None,
            !a.llama_engine.moe_config.cpu_moe_all,
            a.apple_silicon == apple_silicon,
    {
        InferenceEngineAdapter {
            llama_engine: LlamaEngine::new_with_backend(gpu_backend, probes),
            apple_silicon,
        }
    }

    /// Set the MoE CPU offloading policy on the quantized driver.
    pub fn with_moe_config(self, cpu_moe_all: bool, n_cpu_moe: Option<usize>) -> (a: Self)
        ensures
            a.llama_engine.gpu_backend == self.llama_engine.gpu_backend,
            a.llama_engine.moe_config.n_cpu_moe == n_cpu_moe,
            a.llama_engine.moe_config.cpu_moe_all == (cpu_moe_all && n_cpu_moe is None),
            crate::llama::moe_wf(a.llama_engine.moe_config),
            a.apple_silicon == self.apple_silicon,
    {
        InferenceEngineAdapter {
            llama_engine: self.llama_engine.with_moe_config(cpu_moe_all, n_cpu_moe),
            apple_silicon: self.apple_silicon,
        }
    }

    /// Route a spec to a backend by the precedence ladder.
    pub fn select_backend(&self, spec: &ModelSpec) -> (b: BackendChoice)
        ensures
            b == spec_select(spec.name@, spec.base_path@, self.apple_silicon),
    {
        let path = spec.base_path.as_str();
        let name = spec.name.as_str();
        if extension_is(path, "safetensors") {
            BackendChoice::SafeTensors
        } else if extension_is(path, "gguf") {
            BackendChoice::Llama
        } else if extension_is(path, "npz") || extension_is(path, "mlx") {
            BackendChoice::MLX
        } else if str_contains_char(path, '/') && !str_contains_char(path, '\\')
            && !str_contains_char(path, '.') {
            BackendChoice::HuggingFace
        } else if self.apple_silicon && (contains_lower(name, "llama") || contains_lower(
            name,
            "mistral",
        ) || contains_lower(name, "phi") || contains_lower(name, "qwen")) {
            BackendChoice::MLX
        } else if str_contains(path, "ollama") && str_contains(path, "blobs") && str_contains(
            path,
            "sha256-",
        ) {
            BackendChoice::Llama
        } else if str_contains(path, ".gguf") || str_contains(name, "llama") || str_contains(
            name,
            "phi",
        ) || str_contains(name, "qwen") || str_contains(name, "gemma") || str_contains(
            name,
            "mistral",
        ) {
            BackendChoice::Llama
        } else {
            BackendChoice::HuggingFace
        }
    }
}

/// Selection is deterministic and total: it is a pure function of the spec's
/// name, its base path, and the host platform, so equal inputs always select
/// the same backend, and every input selects some backend.
pub proof fn lemma_select_deterministic(
    name1: Seq<char>,
    base1: Seq<char>,
    apple1: bool,
    name2: Seq<char>,
    base2: Seq<char>,
    apple2: bool,
)
    requires
        name1 == name2,
        base1 == base2,
        apple1 == apple2,
    ensures
        spec_select(name1, base1, apple1) == spec_select(name2, base2, apple2),
{
}

/// The first rule is absolute: a path whose extension is `safetensors` is
/// routed to the in-process tensor loader whatever else the path or the name
/// looks like.
pub proof fn lemma_safetensors_dominates(name: Seq<char>, base: Seq<char>, apple_silicon: bool)
    requires
        spec_ext_of(base) == Some("safetensors"@),
    ensures
        spec_select(name, base, apple_silicon) == BackendChoice::SafeTensors,
{
}

/// A path with no `.` has no extension.
pub proof fn lemma_no_dot_no_extension(base: Seq<char>)
    requires
        !base.contains('.'),
    ensures
        spec_ext_of(base) is None,
{
    let fstart = spec_last_index_of(base, '/') + 1;
    lemma_last_index_of(base, '/');
    let f = base.subrange(fstart, base.len() as int);
    lemma_last_index_of(f, '.');
    let d = spec_last_index_of(f, '.');
    if d >= 0 {
        assert(f[d] == '.');
        assert(base[fstart + d] == '.');
        assert(base.contains('.'));
    }
}

/// A remote-identifier-shaped path (contains `/`, no `\`, no `.`) selects
/// the framework runtime.
pub proof fn lemma_remote_id_selects_framework(
    name: Seq<char>,
    base: Seq<char>,
    apple_silicon: bool,
)
    requires
        base.contains('/'),
        !base.contains('\\'),
        !base.contains('.'),
    ensures
        spec_select(name, base, apple_silicon) == BackendChoice::HuggingFace,
{
    lemma_no_dot_no_extension(base);
}

/// A path whose extension is `gguf` selects the quantized runtime — never
/// the framework runtime — whatever separators the path uses and whatever
/// the name looks like.
pub proof fn lemma_gguf_extension_selects_quantized(
    name: Seq<char>,
    base: Seq<char>,
    apple_silicon: bool,
)
    requires
        spec_ext_of(base) == Some("gguf"@),
    ensures
        spec_select(name, base, apple_silicon) == BackendChoice::Llama,
{
    reveal_strlit("gguf");
    reveal_strlit("safetensors");
    assert("gguf"@.len() != "safetensors"@.len());
}

} // verus!
