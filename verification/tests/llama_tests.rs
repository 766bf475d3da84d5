use shimmy::engine::{CoreError, ModelSpec};
use shimmy::llama::{
    get_optimal_thread_count, interpret_load_failure, GpuBackend, GpuProbes, LlamaEngine, LoraPlan,
    MoePlan,
};

fn no_gpu() -> GpuProbes {
    GpuProbes { cuda: false, vulkan: false, opencl: false }
}

#[test]
fn test_llama_engine_initialization() {
    let engine = LlamaEngine::new(no_gpu());
    // The engine carries a GpuBackend field; just verify it can be created.
    let _ = engine;
}

#[test]
fn test_gpu_backend_layer_offloading_logic() {
    let cpu_backend = GpuBackend::Cpu;
    assert_eq!(
        cpu_backend.gpu_layers(),
        0,
        "CPU backend should offload 0 layers to GPU"
    );

    let cuda_backend = GpuBackend::Cuda;
    assert_eq!(
        cuda_backend.gpu_layers(),
        999,
        "CUDA backend should offload 999 layers to GPU"
    );

    let vulkan_backend = GpuBackend::Vulkan;
    assert_eq!(
        vulkan_backend.gpu_layers(),
        999,
        "Vulkan backend should offload 999 layers to GPU"
    );

    let opencl_backend = GpuBackend::OpenCL;
    assert_eq!(
        opencl_backend.gpu_layers(),
        999,
        "OpenCL backend should offload 999 layers to GPU"
    );
}

#[test]
fn test_model_spec_validation() {
    let spec = ModelSpec {
        name: "valid".to_string(),
        base_path: "test.gguf".to_string(),
        lora_path: None,
        template: Some("chatml".to_string()),
        ctx_len: 4096,
        n_threads: Some(4),
    };

    assert_eq!(spec.name, "valid");
    assert_eq!(spec.ctx_len, 4096);
    assert!(spec.template.is_some());
}

#[test]
fn test_backend_detection_precedence() {
    assert_eq!(
        GpuBackend::detect_best(GpuProbes { cuda: true, vulkan: true, opencl: true }),
        GpuBackend::Cuda
    );
    assert_eq!(
        GpuBackend::detect_best(GpuProbes { cuda: false, vulkan: true, opencl: true }),
        GpuBackend::Vulkan
    );
    assert_eq!(
        GpuBackend::detect_best(GpuProbes { cuda: false, vulkan: false, opencl: true }),
        GpuBackend::OpenCL
    );
    assert_eq!(GpuBackend::detect_best(no_gpu()), GpuBackend::Cpu);
}

#[test]
fn test_backend_from_string() {
    let all = GpuProbes { cuda: true, vulkan: true, opencl: true };
    // A known name forces the backend, whatever the probes say.
    assert_eq!(GpuBackend::from_string("cpu", all), GpuBackend::Cpu);
    assert_eq!(GpuBackend::from_string("CUDA", no_gpu()), GpuBackend::Cuda);
    assert_eq!(GpuBackend::from_string("Vulkan", no_gpu()), GpuBackend::Vulkan);
    assert_eq!(GpuBackend::from_string("opencl", no_gpu()), GpuBackend::OpenCL);
    // `auto` and unknown names fall back to detection.
    assert_eq!(GpuBackend::from_string("auto", all), GpuBackend::Cuda);
    assert_eq!(GpuBackend::from_string("auto", no_gpu()), GpuBackend::Cpu);
    assert_eq!(GpuBackend::from_string("warp-drive", no_gpu()), GpuBackend::Cpu);
}

#[test]
fn test_get_backend_info() {
    assert_eq!(LlamaEngine::new(no_gpu()).get_backend_info(), "CPU");
    let cuda = LlamaEngine::new(GpuProbes { cuda: true, vulkan: false, opencl: false });
    assert_eq!(cuda.get_backend_info(), "CUDA");
}

#[test]
fn test_thread_count_heuristic_boundaries() {
    // Estimate physical cores, then leave headroom, never below one thread.
    assert_eq!(get_optimal_thread_count(1), 1);
    assert_eq!(get_optimal_thread_count(2), 2);
    assert_eq!(get_optimal_thread_count(4), 3);
    assert_eq!(get_optimal_thread_count(8), 3);
    assert_eq!(get_optimal_thread_count(16), 6);
    assert_eq!(get_optimal_thread_count(32), 6);
}

#[test]
fn test_moe_config_precedence() {
    let engine = LlamaEngine::new(no_gpu()).with_moe_config(true, Some(7));
    // A present layer count takes precedence over the all-experts flag.
    assert_eq!(engine.moe_config.n_cpu_moe, Some(7));
    assert!(!engine.moe_config.cpu_moe_all);

    let all = LlamaEngine::new(no_gpu()).with_moe_config(true, None);
    assert!(all.moe_config.cpu_moe_all);
    assert_eq!(all.moe_config.n_cpu_moe, None);
}

#[test]
fn test_plan_load_parameters() {
    let engine = LlamaEngine::new(no_gpu()).with_moe_config(false, Some(3));
    let spec = ModelSpec {
        name: "m".to_string(),
        base_path: "m.gguf".to_string(),
        lora_path: None,
        template: None,
        ctx_len: 2048,
        n_threads: None,
    };
    let plan = engine.plan_load(&spec, 16);
    assert_eq!(plan.model.n_gpu_layers, 0);
    assert_eq!(plan.model.moe, MoePlan::FirstExpertsOnCpu(3));
    assert_eq!(plan.ctx.n_ctx, 2048);
    assert_eq!(plan.ctx.n_batch, 2048);
    assert_eq!(plan.ctx.n_ubatch, 512);
    assert_eq!(plan.ctx.n_threads, 6);
    assert_eq!(plan.ctx.n_threads_batch, 6);
    assert!(matches!(plan.lora, LoraPlan::NoAdapter));
}

#[test]
fn test_plan_load_thread_override_and_gpu() {
    let engine = LlamaEngine::new(GpuProbes { cuda: true, vulkan: false, opencl: false });
    let spec = ModelSpec {
        name: "m".to_string(),
        base_path: "m.gguf".to_string(),
        lora_path: None,
        template: None,
        ctx_len: 512,
        n_threads: Some(11),
    };
    let plan = engine.plan_load(&spec, 4);
    assert_eq!(plan.model.n_gpu_layers, 999);
    assert_eq!(plan.model.moe, MoePlan::Off);
    assert_eq!(plan.ctx.n_threads, 11);
}

#[test]
fn test_plan_load_rejects_unconverted_adapter() {
    let engine = LlamaEngine::new(no_gpu());
    let spec = ModelSpec {
        name: "m".to_string(),
        base_path: "m.gguf".to_string(),
        lora_path: Some("adapter.safetensors".to_string()),
        template: None,
        ctx_len: 2048,
        n_threads: Some(2),
    };
    let plan = engine.plan_load(&spec, 4);
    match plan.lora {
        LoraPlan::RejectUnconverted(p) => assert_eq!(p, "adapter.safetensors"),
        other => panic!("expected the adapter to be rejected, got {:?}", other),
    }

    let ok_spec = ModelSpec {
        lora_path: Some("adapter.gguf".to_string()),
        ..spec
    };
    let plan2 = engine.plan_load(&ok_spec, 4);
    match plan2.lora {
        LoraPlan::Attach(p) => assert_eq!(p, "adapter.gguf"),
        other => panic!("expected the adapter to be attached, got {:?}", other),
    }
}

#[test]
fn test_interpret_load_failure_allocation() {
    // 2,048,000,000 bytes is 20 tenths of a gigabyte; one and a half times
    // that is 3 whole gigabytes.
    let e = interpret_load_failure(
        "/models/big.gguf",
        2_048_000_000,
        "ggml: failed to allocate buffer".to_string(),
    );
    match e {
        CoreError::LoadAllocation { path, size_gb_tenths, ram_needed_gb, original } => {
            assert_eq!(path, "/models/big.gguf");
            assert_eq!(size_gb_tenths, 20);
            assert_eq!(ram_needed_gb, 3);
            assert_eq!(original, "ggml: failed to allocate buffer");
        }
        other => panic!("expected an allocation failure, got {:?}", other),
    }

    let e2 = interpret_load_failure(
        "/models/big.gguf",
        1_024_000_000,
        "CPU_REPACK buffer exhausted".to_string(),
    );
    assert!(matches!(e2, CoreError::LoadAllocation { size_gb_tenths: 10, ram_needed_gb: 1, .. }));
}

#[test]
fn test_interpret_load_failure_other() {
    let e = interpret_load_failure("/m.gguf", 42, "unknown magic number".to_string());
    match e {
        CoreError::LoadOther(m) => assert_eq!(m, "unknown magic number"),
        other => panic!("expected verbatim propagation, got {:?}", other),
    }
}
