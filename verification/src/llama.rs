//! The quantized-weights backend driver: GPU backend choice, the thread-count
//! heuristic, and the load protocol, planned as plain data for the caller
//! that drives the native runtime.

use vstd::prelude::*;
use vstd::string::StringExecFns;
use crate::engine::{CoreError, ModelSpec};
use crate::strutil::{contains_seq, lower_seq, spec_ext_of, eq_ignore_ascii_upper, str_contains};

verus! {

/// Results of probing the host for GPU runtimes. The probes themselves run
/// vendor tools outside the core; the core only consumes their verdicts.
#[derive(Debug, Clone, Copy, PartialEq, Eq, Structural, Default)]
pub struct GpuProbes {
    /// The CUDA probe reported success.
    pub cuda: bool,
    /// The Vulkan probe reported success.
    pub vulkan: bool,
    /// The OpenCL probe reported success.
    pub opencl: bool,
}

/// The accelerator a quantized-weights driver is constructed with.
#[derive(Debug, Clone, Copy, PartialEq, Eq, Structural, Default)]
pub enum GpuBackend {
    #[default]
    Cpu,
    Cuda,
    Vulkan,
    OpenCL,
}

/// Mixture-of-experts CPU offloading policy. The two fields are never both
/// set; a present `n_cpu_moe` takes precedence over `cpu_moe_all`.
#[derive(Debug, Clone, Default)]
pub struct MoeConfig {
    /// Offload every expert tensor to CPU memory.
    pub cpu_moe_all: bool,
    /// Offload the first `n` expert layers to CPU memory.
    pub n_cpu_moe: Option<usize>,
}

/// The policy invariant: at most one of the two offloading modes is set.
pub open spec fn moe_wf(m: MoeConfig) -> bool {
    !(m.cpu_moe_all && m.n_cpu_moe is Some)
}

/// Detection precedence over the probe verdicts: CUDA, then Vulkan, then
/// OpenCL, then CPU.
pub open spec fn spec_detect_best(p: GpuProbes) -> GpuBackend {
    if p.cuda {
        GpuBackend::Cuda
    } else if p.vulkan {
        GpuBackend::Vulkan
    } else if p.opencl {
        GpuBackend::OpenCL
    } else {
        GpuBackend::Cpu
    }
}

/// How a user-supplied backend string resolves: a known name forces that
/// backend, while `auto` and anything unknown fall back to detection.
pub open spec fn spec_backend_from_string(s: Seq<char>, p: GpuProbes) -> GpuBackend {
    if lower_seq(s) == "cpu"@ {
        GpuBackend::Cpu
    } else if lower_seq(s) == "cuda"@ {
        GpuBackend::Cuda
    } else if lower_seq(s) == "vulkan"@ {
        GpuBackend::Vulkan
    } else if lower_seq(s) == "opencl"@ {
        GpuBackend::OpenCL
    } else {
        spec_detect_best(p)
    }
}

/// Number of model layers offloaded to the accelerator: none on CPU, all
/// (a large sentinel the native runtime understands) on any GPU.
pub open spec fn spec_gpu_layers(b: GpuBackend) -> u32 {
    if b is Cpu {
        0
    } else {
        999
    }
}

impl GpuBackend {
    /// Pick the best available backend from the probe verdicts, in the order
    /// CUDA, Vulkan, OpenCL, CPU.
    pub fn detect_best(probes: GpuProbes) -> (r: GpuBackend)
        ensures
            r == spec_detect_best(probes),
    {
        if probes.cuda {
            GpuBackend::Cuda
        } else if probes.vulkan {
            GpuBackend::Vulkan
        } else if probes.opencl {
            GpuBackend::OpenCL
        } else {
            GpuBackend::Cpu
        }
    }

    /// Parse a GPU backend from a user string, case-insensitively. `auto`
    /// and unknown strings fall back to detection over the probe verdicts.
    pub fn from_string(s: &str, probes: GpuProbes) -> (r: GpuBackend)
        ensures
            r == spec_backend_from_string(s@, probes),
    {
        if eq_ignore_ascii_upper(s, "cpu") {
            GpuBackend::Cpu
        } else if eq_ignore_ascii_upper(s, "cuda") {
            GpuBackend::Cuda
        } else if eq_ignore_ascii_upper(s, "vulkan") {
            GpuBackend::Vulkan
        } else if eq_ignore_ascii_upper(s, "opencl") {
            GpuBackend::OpenCL
        } else {
            Self::detect_best(probes)
        }
    }

    /// The number of layers to offload to the GPU: 0 for the CPU backend,
    /// the all-layers sentinel for every GPU backend.
    pub fn gpu_layers(&self) -> (n: u32)
        ensures
            n == spec_gpu_layers(*self),
            *self is Cpu ==> n == 0,
            !(*self is Cpu) ==> n == 999,
    {
        match self {
            GpuBackend::Cpu => 0,
            GpuBackend::Cuda => 999,
            GpuBackend::Vulkan => 999,
            GpuBackend::OpenCL => 999,
        }
    }
}

/// Estimate of the physical core count from the schedulable core count:
/// small machines use all cores, mid-size machines assume two-way
/// hyperthreading with a floor, and large machines are capped at eight.
pub open spec fn spec_physical_cores(t: int) -> int {
    if 1 <= t <= 4 {
        t
    } else if 5 <= t <= 8 {
        if t / 2 > 4 {
            t / 2
        } else {
            4
        }
    } else if 9 <= t <= 16 {
        if t / 2 > 6 {
            t / 2
        } else {
            6
        }
    } else {
        8
    }
}

/// Headroom left for the system on top of the physical-core estimate.
pub open spec fn spec_headroom(p: int) -> int {
    if 1 <= p <= 2 {
        p
    } else if 3 <= p <= 4 {
        p - 1
    } else if 5 <= p <= 8 {
        p - 2
    } else {
        p * 3 / 4
    }
}

/// The full thread-count heuristic, floored at one thread.
pub open spec fn spec_optimal_threads(t: int) -> int {
    if spec_headroom(spec_physical_cores(t)) > 1 {
        spec_headroom(spec_physical_cores(t))
    } else {
        1
    }
}

/// Thread count used when the spec carries no override: estimate physical
/// cores from the schedulable count, then leave headroom for the system.
pub fn get_optimal_thread_count(total_cores: i32) -> (r: i32)
    ensures
        r == spec_optimal_threads(total_cores as int),
        r >= 1,
{
    let physical_cores: i32 = if total_cores >= 1 && total_cores <= 4 {
        total_cores
    } else if total_cores >= 5 && total_cores <= 8 {
        if total_cores / 2 > 4 {
            total_cores / 2
        } else {
            4
        }
    } else if total_cores >= 9 && total_cores <= 16 {
        if total_cores / 2 > 6 {
            total_cores / 2
        } else {
            6
        }
    } else {
        8
    };
    let optimal: i32 = if physical_cores >= 1 && physical_cores <= 2 {
        physical_cores
    } else if physical_cores >= 3 && physical_cores <= 4 {
        physical_cores - 1
    } else if physical_cores >= 5 && physical_cores <= 8 {
        physical_cores - 2
    } else {
        physical_cores * 3 / 4
    };
    if optimal > 1 {
        optimal
    } else {
        1
    }
}

/// The quantized-weights engine: a GPU backend (auto-detected or forced)
/// plus a mixture-of-experts offloading policy.
#[derive(Debug, Clone, Default)]
pub struct LlamaEngine {
    pub gpu_backend: GpuBackend,
    pub moe_config: MoeConfig,
}

impl LlamaEngine {
    /// Engine with an auto-detected GPU backend and no MoE offloading.
    pub fn new(probes: GpuProbes) -> (e: Self)
        ensures
            e.gpu_backend == spec_detect_best(probes),
            !e.moe_config.cpu_moe_all,
            e.moe_config.n_cpu_moe is None,
            moe_wf(e.moe_config),
    {
        LlamaEngine {
            gpu_backend: GpuBackend::detect_best(probes),
            moe_config: MoeConfig { cpu_moe_all: false, n_cpu_moe: None },
        }
    }

    /// Engine with a GPU backend taken from a user string when one is given,
    /// and auto-detected otherwise.
    pub fn new_with_backend(backend_str: Option<&str>, probes: GpuProbes) -> (e: Self)
        ensures
            e.gpu_backend == (match backend_str {
                Some(s) => spec_backend_from_string(s@, probes),
                None => spec_detect_best(probes),
            }),
            !e.moe_config.cpu_moe_all,
            e.moe_config.n_cpu_moe is None,
            moe_wf(e.moe_config),
    {
        let gpu_backend = match backend_str {
            Some(s) => GpuBackend::from_string(s, probes),
            None => GpuBackend::detect_best(probes),
        };
        LlamaEngine { gpu_backend, moe_config: MoeConfig { cpu_moe_all: false, n_cpu_moe: None } }
    }

    /// Set the MoE CPU offloading policy. A present layer count takes
    /// precedence, so the all-experts flag is kept only when no count is
    /// given; this establishes the policy invariant.
    pub fn with_moe_config(self, cpu_moe_all: bool, n_cpu_moe: Option<usize>) -> (e: Self)
        ensures
            e.gpu_backend == self.gpu_backend,
            e.moe_config.n_cpu_moe == n_cpu_moe,
            e.moe_config.cpu_moe_all == (cpu_moe_all && n_cpu_moe is None),
            moe_wf(e.moe_config),
    {
        let all = cpu_moe_all && n_cpu_moe.is_none();
        LlamaEngine {
            gpu_backend: self.gpu_backend,
            moe_config: MoeConfig { cpu_moe_all: all, n_cpu_moe },
        }
    }

    /// Human-readable name of the configured GPU backend.
    pub fn get_backend_info(&self) -> (r: String)
        ensures
            r@ == spec_backend_info(self.gpu_backend),
    {
        match self.gpu_backend {
            GpuBackend::Cpu => String::from_str("CPU"),
            GpuBackend::Cuda => String::from_str("CUDA"),
            GpuBackend::Vulkan => String::from_str("Vulkan"),
            GpuBackend::OpenCL => String::from_str("OpenCL"),
        }
    }
}

/// Parameter record for constructing a decoding context.
#[derive(Debug, Clone, Copy, PartialEq, Eq, Structural)]
pub struct CtxPlan {
    /// Context window, from the model spec.
    pub n_ctx: u32,
    /// Batch size.
    pub n_batch: u32,
    /// Micro-batch size.
    pub n_ubatch: u32,
    /// Decode threads.
    pub n_threads: i32,
    /// Batch-decode threads.
    pub n_threads_batch: i32,
}

/// Mixture-of-experts offloading, resolved from the policy with `n_cpu_moe`
/// taking precedence.
#[derive(Debug, Clone, Copy, PartialEq, Eq, Structural)]
pub enum MoePlan {
    Off,
    AllExpertsOnCpu,
    FirstExpertsOnCpu(usize),
}

/// Parameter record for loading the model weights.
#[derive(Debug, Clone, Copy, PartialEq, Eq, Structural)]
pub struct ModelPlan {
    /// Layers offloaded to the accelerator.
    pub n_gpu_layers: u32,
    /// Expert-tensor offloading.
    pub moe: MoePlan,
}

/// What to do about a low-rank adapter: none requested, attach the given
/// artifact at scale one, or refuse an artifact that must be converted to
/// the quantized adapter format first.
#[derive(Debug, Clone)]
pub enum LoraPlan {
    NoAdapter,
    Attach(String),
    RejectUnconverted(String),
}

/// The whole load protocol as plain data: what to pass to the native
/// runtime for the weights, the decoding context, and the adapter.
#[derive(Debug, Clone)]
pub struct LoadPlan {
    pub model: ModelPlan,
    pub ctx: CtxPlan,
    pub lora: LoraPlan,
}

/// The resolved MoE offloading: a present layer count wins, then the
/// all-experts flag, then nothing.
pub open spec fn spec_moe_plan(m: MoeConfig) -> MoePlan {
    match m.n_cpu_moe {
        Some(n) => MoePlan::FirstExpertsOnCpu(n),
        None => if m.cpu_moe_all {
            MoePlan::AllExpertsOnCpu
        } else {
            MoePlan::Off
        },
    }
}

impl LlamaEngine {
    /// Resolve the whole load protocol for a spec: GPU layer count from the
    /// backend, MoE flags from the policy, context parameters with fixed
    /// batch sizes and the thread heuristic, and the adapter decision, which
    /// refuses an adapter whose extension shows it was not converted to the
    /// quantized adapter format.
    pub fn plan_load(&self, spec: &ModelSpec, total_cores: i32) -> (p: LoadPlan)
        requires
            1 <= spec.ctx_len <= u32::MAX,
        ensures
            p.model.n_gpu_layers == spec_gpu_layers(self.gpu_backend),
            p.model.moe == spec_moe_plan(self.moe_config),
            p.ctx.n_ctx == spec.ctx_len,
            p.ctx.n_batch == 2048,
            p.ctx.n_ubatch == 512,
            p.ctx.n_threads == (match spec.n_threads {
                Some(t) => t as int,
                None => spec_optimal_threads(total_cores as int),
            }),
            p.ctx.n_threads_batch == p.ctx.n_threads,
            (match spec.lora_path {
                None => p.lora is NoAdapter,
                Some(l) => if spec_ext_of(l@) == Some("safetensors"@) {
                    p.lora matches LoraPlan::RejectUnconverted(q) && q@ == l@
                } else {
                    p.lora matches LoraPlan::Attach(q) && q@ == l@
                },
            }),
    {
        let n_gpu_layers = self.gpu_backend.gpu_layers();
        let moe = match self.moe_config.n_cpu_moe {
            Some(n) => MoePlan::FirstExpertsOnCpu(n),
            None => if self.moe_config.cpu_moe_all {
                MoePlan::AllExpertsOnCpu
            } else {
                MoePlan::Off
            },
        };
        let n_threads = match spec.n_threads {
            Some(t) => t,
            None => get_optimal_thread_count(total_cores),
        };
        let lora = match &spec.lora_path {
            None => LoraPlan::NoAdapter,
            Some(l) => {
                if crate::strutil::extension_is(l.as_str(), "safetensors") {
                    LoraPlan::RejectUnconverted(l.clone())
                } else {
                    LoraPlan::Attach(l.clone())
                }
            },
        };
        LoadPlan {
            model: ModelPlan { n_gpu_layers, moe },
            ctx: CtxPlan {
                n_ctx: spec.ctx_len as u32,
                n_batch: 2048,
                n_ubatch: 512,
                n_threads,
                n_threads_batch: n_threads,
            },
            lora,
        }
    }
}

/// A native load diagnostic that points at memory exhaustion.
pub open spec fn spec_is_alloc_failure(msg: Seq<char>) -> bool {
    contains_seq(msg, "failed to allocate"@) || contains_seq(msg, "CPU_REPACK buffer"@)
}

/// File size in tenths of a gigabyte, rounded down.
pub open spec fn spec_gb_tenths(file_size: u64) -> int {
    file_size * 10 / 1_024_000_000
}

/// Estimated RAM needed to load the file: about one and a half times its
/// size, in whole gigabytes.
pub open spec fn spec_ram_needed_gb(file_size: u64) -> int {
    file_size * 15 / 10_240_000_000
}

/// Classify a failure reported by the native runtime while loading weights:
/// a memory-allocation diagnostic is enriched with the file size and a RAM
/// estimate, and anything else is propagated verbatim.
pub fn interpret_load_failure(base_path: &str, file_size: u64, msg: String) -> (e: CoreError)
    ensures
        spec_is_alloc_failure(msg@) ==> (e matches CoreError::LoadAllocation {
            path,
            size_gb_tenths,
            ram_needed_gb,
            original,
        } && path@ == base_path@ && size_gb_tenths == spec_gb_tenths(file_size)
            && ram_needed_gb == spec_ram_needed_gb(file_size) && original@ == msg@),
        !spec_is_alloc_failure(msg@) ==> (e matches CoreError::LoadOther(m) && m@ == msg@),
{
    if str_contains(msg.as_str(), "failed to allocate") || str_contains(
        msg.as_str(),
        "CPU_REPACK buffer",
    ) {
        let wide: u128 = (file_size as u128) * 10 / 1_024_000_000;
        let ram: u128 = (file_size as u128) * 15 / 10_240_000_000;
        proof {
            vstd::arithmetic::div_mod::lemma_div_is_ordered(
                file_size as int * 10,
                u64::MAX as int * 10,
                1_024_000_000,
            );
            vstd::arithmetic::div_mod::lemma_div_is_ordered(
                file_size as int * 15,
                u64::MAX as int * 15,
                10_240_000_000,
            );
        }
        CoreError::LoadAllocation {
            path: String::from_str(base_path),
            size_gb_tenths: wide as u64,
            ram_needed_gb: ram as u64,
            original: msg,
        }
    } else {
        CoreError::LoadOther(msg)
    }
}

/// Display name for each GPU backend.
pub open spec fn spec_backend_info(b: GpuBackend) -> Seq<char> {
    match b {
        GpuBackend::Cpu => "CPU"@,
        GpuBackend::Cuda => "CUDA"@,
        GpuBackend::Vulkan => "Vulkan"@,
        GpuBackend::OpenCL => "OpenCL"@,
    }
}

} // verus!
