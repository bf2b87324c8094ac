use fingerprint_sdk::sdk::api::{
    active_scanner, capture_settings, enroll_sample_request, ensure_slot_free, install_scanner,
    join_failure_report, release_scanner, scanner_status,
};
use fingerprint_sdk::sdk::errors::FingerprintError;
use fingerprint_sdk::sdk::types::CaptureOptions;
use fingerprint_sdk::sdk::update_check::{check_current_version, no_published_release, update_info_for_release};
use fingerprint_sdk::sdk::vendors::neurotec::{id_to_template_bytes, template_internal_id};
use fingerprint_sdk::sdk::vendors::secugen::session::{effective_sample_count, select_best_sample};
use fingerprint_sdk::sdk::vendors::{get_scanner, Platform, VendorKind};

#[test]
fn errors_carry_a_code_prefix() {
    assert_eq!(FingerprintError::DeviceNotFound.report(), "[DEVICE_NOT_FOUND] Device not found");
    assert_eq!(
        FingerprintError::CaptureTimeout(10000).report(),
        "[CAPTURE_TIMEOUT] Capture timed out after 10000ms"
    );
    assert_eq!(
        FingerprintError::LowQuality { got: 42, min: 60 }.message(),
        "Image quality too low: 42 (minimum: 60)"
    );
    assert_eq!(FingerprintError::UnsupportedVendor("acme".into()).code(), "UNSUPPORTED_VENDOR");
    assert_eq!(FingerprintError::NotInitialized.report(), "[NOT_INITIALIZED] Scanner not initialized");
}

#[test]
fn vendor_selection() {
    assert_eq!(get_scanner(Some("secugen"), Platform::Linux), Ok(VendorKind::SecuGen));
    assert_eq!(get_scanner(None, Platform::Windows), Ok(VendorKind::Wbf));
    assert_eq!(get_scanner(None, Platform::Linux), Ok(VendorKind::SecuGen));
    assert_eq!(get_scanner(Some("neurotec"), Platform::Windows), Ok(VendorKind::Neurotec));
    match get_scanner(Some("wbf"), Platform::MacOs) {
        Err(FingerprintError::UnsupportedVendor(v)) => assert_eq!(v, "wbf"),
        other => panic!("expected an unsupported vendor, got {:?}", other),
    }
}

#[test]
fn one_scanner_at_a_time_and_reconnect_after_disconnect() {
    let mut slot: Option<u32> = None;
    assert!(matches!(active_scanner(&slot), Err(FingerprintError::NotInitialized)));
    assert!(ensure_slot_free(&slot).is_ok());
    install_scanner(&mut slot, 1).unwrap();
    assert!(ensure_slot_free(&slot).is_err());
    match install_scanner(&mut slot, 2) {
        Err((back, FingerprintError::SdkError(_))) => assert_eq!(back, 2),
        other => panic!("a second scanner must be refused, got {:?}", other),
    }
    assert_eq!(*active_scanner(&slot).unwrap(), 1);
    assert_eq!(scanner_status(&slot).status, "Connected");
    assert_eq!(release_scanner(&mut slot), Some(1));
    assert_eq!(scanner_status(&slot).status, "Disconnected");
    install_scanner(&mut slot, 3).unwrap();
    assert_eq!(*active_scanner(&slot).unwrap(), 3);
}

#[test]
fn capture_defaults() {
    assert_eq!(capture_settings(None), (10000, 60));
    let opts = CaptureOptions { timeout_ms: Some(15000), min_quality: None, auto_capture: None };
    assert_eq!(capture_settings(Some(opts)), (15000, 60));
    assert_eq!(enroll_sample_request(None), 0);
    assert_eq!(effective_sample_count(0), 3);
    assert_eq!(join_failure_report(true, false), "[SDK_ERROR] Vendor library panicked during operation");
}

#[test]
fn enrolment_keeps_the_first_best_sample() {
    assert_eq!(select_best_sample(&vec![40, 75, 75, 60]), Some(1));
    assert_eq!(select_best_sample(&vec![]), None);
}

#[test]
fn update_check_reports_newer_releases_only() {
    let info = update_info_for_release("0.1.0", "v0.2.0", "https://r/v0.2.0".into()).unwrap();
    assert!(info.update_available);
    assert_eq!(info.current_version, "0.1.0");
    assert_eq!(info.latest_version.as_deref(), Some("0.2.0"));
    assert_eq!(info.release_url.as_deref(), Some("https://r/v0.2.0"));
    let same = update_info_for_release("0.1.0", "v0.1.0", "u".into()).unwrap();
    assert!(!same.update_available);
    match update_info_for_release("0.1.0", "latest", "u".into()) {
        Err(m) => assert!(m.starts_with("Bad release version: "), "{m}"),
        Ok(_) => panic!("a bad tag must be refused"),
    }
    assert!(check_current_version("0.1").is_err());
    let none = no_published_release("0.1.0");
    assert!(!none.update_available && none.latest_version.is_none());
}

#[test]
fn neurotec_template_ids_round_trip() {
    for id in [0, 1, -1, 123456, i32::MAX, i32::MIN] {
        let bytes = id_to_template_bytes(id);
        assert_eq!(template_internal_id(&bytes).unwrap(), id);
    }
    assert!(template_internal_id(&[1, 2]).is_err());
}
