use shimmy::invariants::{
    assert_api_response_valid, assert_backend_selection_valid, assert_discovery_valid,
    assert_generation_valid, assert_model_loaded, InvariantLog,
};

fn explore_test(name: &str, f: impl FnOnce() -> bool) {
    assert!(f(), "exploration case failed: {}", name);
}

#[test]
fn test_model_loading_contracts() {
    let mut log = InvariantLog::new();

    let model_name = "test-model";
    assert!(assert_model_loaded(&mut log, model_name, true));

    assert!(log.contract_test(
        "model_loading_integrity",
        &["Model name must not be empty", "Model loaded successfully"],
    ));
}

#[test]
fn test_generation_contracts() {
    let mut log = InvariantLog::new();

    let prompt = "Hello world";
    let response = "Hello! How can I help you today?";
    assert!(assert_generation_valid(&mut log, prompt, response));

    assert!(log.contract_test(
        "generation_integrity",
        &[
            "Generation prompt must not be empty",
            "Generation response must not be empty",
            "Generation must produce output",
        ],
    ));
}

#[test]
fn test_api_response_contracts() {
    let mut log = InvariantLog::new();

    assert!(assert_api_response_valid(&mut log, 200, "{\"status\":\"ok\"}"));
    assert!(assert_api_response_valid(&mut log, 404, "{\"error\":\"not found\"}"));

    assert!(log.contract_test(
        "api_response_integrity",
        &[
            "API response status must be valid HTTP code",
            "API response body must exist (unless 204)",
        ],
    ));
}

#[test]
fn test_backend_selection_contracts() {
    let mut log = InvariantLog::new();

    assert!(assert_backend_selection_valid(&mut log, "model.gguf", "llama"));
    assert!(assert_backend_selection_valid(&mut log, "model.safetensors", "huggingface"));

    assert!(log.contract_test(
        "backend_selection_integrity",
        &[
            "File path for backend selection must not be empty",
            "Selected backend must not be empty",
            "GGUF files must use Llama backend",
        ],
    ));
}

#[test]
fn test_discovery_contracts() {
    let mut log = InvariantLog::new();

    assert!(assert_discovery_valid(&mut log, 5));
    assert!(assert_discovery_valid(&mut log, 0));

    assert!(log.contract_test(
        "discovery_integrity",
        &["Model discovery must return reasonable count"],
    ));
}

#[test]
fn test_full_workflow_contracts() {
    let mut log = InvariantLog::new();

    assert!(assert_discovery_valid(&mut log, 3));
    assert!(assert_backend_selection_valid(&mut log, "phi3.gguf", "llama"));
    assert!(assert_model_loaded(&mut log, "phi3", true));
    assert!(assert_generation_valid(
        &mut log,
        "What is AI?",
        "AI is artificial intelligence..."
    ));
    assert!(assert_api_response_valid(
        &mut log,
        200,
        "{\"response\":\"AI is artificial intelligence...\"}"
    ));

    assert!(log.contract_test(
        "full_workflow_integrity",
        &[
            "Model discovery must return reasonable count",
            "File path for backend selection must not be empty",
            "GGUF files must use Llama backend",
            "Model name must not be empty",
            "Model loaded successfully",
            "Generation prompt must not be empty",
            "Generation must produce output",
            "API response status must be valid HTTP code",
        ],
    ));
}

#[test]
fn test_model_name_property() {
    // Property: valid model names are never empty and contain reasonable
    // characters.
    let test_names = vec!["phi3", "llama2-7b", "mistral-v0.1", "gpt-3.5-turbo"];

    let mut log = InvariantLog::new();
    for name in test_names {
        log.clear();
        assert!(assert_model_loaded(&mut log, name, true));

        let checked = log.checked_invariants();
        assert!(
            checked
                .iter()
                .any(|inv| inv.contains("Model name must not be empty")),
            "Missing model name invariant for model: {}",
            name
        );
    }
}

#[test]
fn test_generation_length_property() {
    // Property: generation always produces non-trivial output for non-empty
    // prompts.
    let test_cases = vec![
        ("Hi", "Hello there!"),
        ("What is 2+2?", "2+2 equals 4."),
        (
            "Tell me a joke",
            "Why don't scientists trust atoms? Because they make up everything!",
        ),
    ];

    let mut log = InvariantLog::new();
    for (prompt, response) in test_cases {
        log.clear();
        assert!(assert_generation_valid(&mut log, prompt, response));

        let checked = log.checked_invariants();

        assert!(
            checked
                .iter()
                .any(|inv| inv.contains("Generation prompt must not be empty")),
            "Missing prompt invariant for prompt: {}",
            prompt
        );

        assert!(
            checked
                .iter()
                .any(|inv| inv.contains("Generation response must not be empty")),
            "Missing response invariant for prompt: {}",
            prompt
        );

        assert!(
            checked
                .iter()
                .any(|inv| inv.contains("Generation must produce output")),
            "Missing output invariant for prompt: {}",
            prompt
        );
    }
}

#[test]
fn test_backend_routing_property() {
    // Property: file extensions always map to correct backends.
    let test_cases = vec![
        ("model.gguf", "llama"),
        ("model.GGUF", "llama"),
        ("large-model.gguf", "llama"),
        ("model.safetensors", "huggingface"),
    ];

    let mut log = InvariantLog::new();
    for (file_path, expected_backend) in test_cases {
        log.clear();
        assert!(assert_backend_selection_valid(&mut log, file_path, expected_backend));

        let checked = log.checked_invariants();

        assert!(
            checked
                .iter()
                .any(|inv| inv.contains("File path for backend selection must not be empty")),
            "Missing invariant check for file path on {}",
            file_path
        );

        assert!(
            checked
                .iter()
                .any(|inv| inv.contains("Selected backend must not be empty")),
            "Missing invariant check for backend on {}",
            file_path
        );

        if file_path.to_lowercase().ends_with(".gguf") {
            assert!(
                checked
                    .iter()
                    .any(|inv| inv.contains("GGUF files must use Llama backend")),
                "Missing GGUF-specific invariant check for {}",
                file_path
            );
        }
    }
}

#[test]
fn test_api_status_codes_property() {
    // Property: API responses always have valid HTTP status codes.
    let test_cases = vec![
        (200, "{\"success\": true}"),
        (201, "{\"created\": true}"),
        (400, "{\"error\": \"bad request\"}"),
        (404, "{\"error\": \"not found\"}"),
        (500, "{\"error\": \"internal error\"}"),
    ];

    let mut log = InvariantLog::new();
    for (status, body) in test_cases {
        log.clear();
        assert!(assert_api_response_valid(&mut log, status, body));

        let checked = log.checked_invariants();
        assert!(
            checked
                .iter()
                .any(|inv| inv.contains("API response status must be valid HTTP code")),
            "Missing API status invariant for status code: {}",
            status
        );
    }
}

#[test]
fn explore_edge_cases() {
    explore_test("empty_model_discovery", || {
        let mut log = InvariantLog::new();
        assert_discovery_valid(&mut log, 0);
        !log.checked_invariants().is_empty()
    });

    explore_test("large_generation_response", || {
        let mut log = InvariantLog::new();
        let large_response = "A".repeat(10000);
        assert_generation_valid(&mut log, "Generate a long response", &large_response);
        !log.checked_invariants().is_empty()
    });

    explore_test("api_no_content_response", || {
        let mut log = InvariantLog::new();
        assert_api_response_valid(&mut log, 204, "");
        !log.checked_invariants().is_empty()
    });
}
