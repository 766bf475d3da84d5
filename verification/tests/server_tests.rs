use shimmy::server::{detect_gpu, get_gpu_vendor};

#[test]
fn test_gpu_detection_functions() {
    // GPU detection either succeeds or fails - both are valid.
    let _gpu_detected = detect_gpu(false, false, false);

    let vendor = get_gpu_vendor(true, true, false);
    if let Some(vendor_str) = vendor {
        assert!(vendor_str == "nvidia" || vendor_str == "amd" || vendor_str == "intel");
    }
}

#[test]
fn test_gpu_vendor_precedence() {
    assert_eq!(get_gpu_vendor(true, true, true).as_deref(), Some("nvidia"));
    assert_eq!(get_gpu_vendor(false, true, true).as_deref(), Some("amd"));
    assert_eq!(get_gpu_vendor(false, false, true).as_deref(), Some("intel"));
    assert_eq!(get_gpu_vendor(false, false, false), None);
    assert!(detect_gpu(false, true, false));
    assert!(!detect_gpu(false, false, false));
}
