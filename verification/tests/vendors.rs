use fingerprint_sdk::bridge::responses::capture_quality_response;
use fingerprint_sdk::protocol::{BridgeCommand, BridgeResponse, TemplateEntry};
use fingerprint_sdk::sdk::errors::FingerprintError;
use fingerprint_sdk::sdk::types::Template;
use fingerprint_sdk::sdk::vendors::neurotec::{
    check_status, choose_scanner_module, find_user_slot, modules_description, neurotec_device_info,
    nffv_error, pixel_buffer_len, reported_quality, sdk_dir_candidates, temporary_user_index,
    vendor_label, verification_result, windows_file_in, NFES_NO_SCANNER, NFES_QUALITY_CHECK_FAILED,
    NFES_SCANNER_TIMEOUT, NFES_TEMPLATE_CREATED,
};
use fingerprint_sdk::sdk::vendors::secugen::bridge_client::{
    bridge_search_plan, capture_limits, locate_bridge, check_response_line, decode_bridge_error, enroll_command, identify_command, response_payload,
    wipe_sent_command,
};
use fingerprint_sdk::sdk::vendors::secugen::library_path::SearchStep;
use fingerprint_sdk::sdk::vendors::secugen::session::{
    check_capture_quality, confirmed_match, device_info_from_params, image_buffer_size,
    keeps_new_sample, select_best_template, serial_from_sn, template_buffer_size,
};
use fingerprint_sdk::sdk::vendors::wbf::{
    bir_quality, enumeration_outcome, hresult_msg, identify_capture_outcome, sample_step,
    samples_exhausted, session_attempts, unit_device_info, wide_to_string, SampleStep, WbfScanner,
    E_ACCESSDENIED, S_OK, WINBIO_E_BAD_CAPTURE, WINBIO_E_NO_MATCH, WINBIO_FLAG_RAW,
};

fn sdk_message(e: FingerprintError) -> String {
    match e {
        FingerprintError::SdkError(m) => m,
        other => panic!("expected an SDK error, got {:?}", other),
    }
}

// ─── SecuGen session decisions ───────────────────────────────────────────

#[test]
fn buffer_sizes_come_from_the_device_geometry() {
    assert_eq!(image_buffer_size(300, 400).unwrap(), 120_000);
    assert_eq!(sdk_message(image_buffer_size(0, 400).unwrap_err()), "Device returned invalid image dimensions");
    assert_eq!(template_buffer_size(400).unwrap(), 400);
    assert_eq!(sdk_message(template_buffer_size(-1).unwrap_err()), "Device returned invalid template size");
}

#[test]
fn quality_gate_truncates_to_a_byte() {
    assert_eq!(check_capture_quality(80, 60).unwrap(), 80);
    assert_eq!(check_capture_quality(59, 60).unwrap_err(), FingerprintError::LowQuality { got: 59, min: 60 });
    // 300 reads as 44 once truncated.
    assert_eq!(check_capture_quality(300, 60).unwrap_err(), FingerprintError::LowQuality { got: 44, min: 60 });
    match capture_quality_response(42, 60) {
        Err(BridgeResponse::Error { code, message }) => {
            assert_eq!(code, "LOW_QUALITY");
            assert_eq!(message, "Image quality too low: 42 (minimum: 60)");
        }
        other => panic!("expected a quality refusal, got {:?}", other),
    }
    assert_eq!(capture_quality_response(90, 60).unwrap(), 90);
}

#[test]
fn best_template_and_confirmed_match() {
    assert!(keeps_new_sample(-1, 0));
    assert!(!keeps_new_sample(70, 70));
    assert_eq!(select_best_template(&vec![10, 40, 40, 5]), Some(1));
    assert_eq!(select_best_template(&vec![0, -3]), None);
    let m = confirmed_match(40, "alice", true);
    assert!(m.matched && m.score == 40 && m.user_id.as_deref() == Some("alice"));
    let m = confirmed_match(40, "alice", false);
    assert!(!m.matched && m.user_id.is_none());
}

#[test]
fn device_description_from_sdk_parameters() {
    let mut sn = [0u8; 16];
    sn[..4].copy_from_slice(b"H58A");
    assert_eq!(serial_from_sn(&sn), "H58A");
    let info = device_info_from_params(&sn, 4117, 300, 400, 500);
    assert_eq!(info.vendor, "SecuGen");
    assert_eq!(info.model, "Hamster Plus");
    assert_eq!(info.serial, "H58A");
    assert_eq!(info.firmware, "4117");
    assert_eq!((info.image_width, info.image_height, info.dpi), (300, 400, 500));
}

// ─── SecuGen bridge client ───────────────────────────────────────────────

#[test]
fn bridge_errors_are_decoded() {
    assert_eq!(
        decode_bridge_error("DEVICE_NOT_FOUND", "Device not found".into(), 10000, 60),
        FingerprintError::DeviceNotFound
    );
    assert_eq!(
        decode_bridge_error("CAPTURE_TIMEOUT", "Capture timed out".into(), 7500, 60),
        FingerprintError::CaptureTimeout(7500)
    );
    assert_eq!(
        decode_bridge_error("LOW_QUALITY", "Image quality too low: 42 (minimum: 70)".into(), 10000, 70),
        FingerprintError::LowQuality { got: 42, min: 70 }
    );
    assert_eq!(
        decode_bridge_error("LOW_QUALITY", "Image quality too low: 300 (minimum: 50)".into(), 10000, 50),
        FingerprintError::LowQuality { got: 44, min: 50 }
    );
    assert_eq!(
        decode_bridge_error("LOW_QUALITY", "Image quality too low: -1 (minimum: 50)".into(), 10000, 50),
        FingerprintError::LowQuality { got: 255, min: 50 }
    );
    assert_eq!(
        decode_bridge_error("LOW_QUALITY", "quality check failed".into(), 10000, 50),
        FingerprintError::LowQuality { got: 0, min: 50 }
    );
    assert_eq!(
        decode_bridge_error("UNSUPPORTED_VENDOR", "x".into(), 10000, 60),
        FingerprintError::UnsupportedVendor("x".into())
    );
    assert_eq!(
        decode_bridge_error("WEIRD", "m".into(), 10000, 60),
        FingerprintError::SdkError("[WEIRD] m".into())
    );
    let resp = BridgeResponse::Error { code: "NOT_INITIALIZED".into(), message: "Scanner not initialized".into() };
    assert_eq!(response_payload(resp, 10000, 60).unwrap_err(), FingerprintError::NotInitialized);
    let timeout = BridgeResponse::Error { code: "CAPTURE_TIMEOUT".into(), message: "Capture timed out".into() };
    let (ms, q) = capture_limits(&BridgeCommand::Capture { timeout_ms: 3000, min_quality: 80 });
    assert_eq!((ms, q), (3000, 80));
    assert_eq!(response_payload(timeout, ms, q).unwrap_err().code(), "CAPTURE_TIMEOUT");
    assert_eq!(capture_limits(&BridgeCommand::Disconnect), (10000, 60));
}

#[test]
fn bridge_lines_are_checked() {
    assert!(check_response_line(12, "{\"a\":1}\n").is_ok());
    assert_eq!(
        sdk_message(check_response_line(1, "\n").unwrap_err()),
        "Bridge process returned empty response (may have crashed)"
    );
}

#[test]
fn sent_commands_are_wiped() {
    let mut cmd = enroll_command("alice", 0);
    assert_eq!(cmd, BridgeCommand::Enroll { user_id: "alice".into(), samples: 3 });
    wipe_sent_command(&mut cmd);
    assert_eq!(cmd, BridgeCommand::Enroll { user_id: String::new(), samples: 3 });
    let templates = vec![Template { user_id: "bob".into(), data: vec![1, 2], created_at: 7 }];
    let mut cmd = identify_command(&templates);
    assert_eq!(cmd, BridgeCommand::Identify { templates: vec![TemplateEntry { user_id: "bob".into(), data: vec![1, 2] }] });
    wipe_sent_command(&mut cmd);
    match cmd {
        BridgeCommand::Identify { templates } => {
            assert_eq!(templates.len(), 1);
            assert!(templates[0].user_id.is_empty() && templates[0].data.is_empty());
        }
        other => panic!("command shape changed: {:?}", other),
    }
}

// ─── WBF ─────────────────────────────────────────────────────────────────

#[test]
fn wbf_messages_and_outcomes() {
    assert_eq!(hresult_msg(WINBIO_E_NO_MATCH), "No match found");
    assert_eq!(hresult_msg(0x1234), "WinBio error 0x00001234");
    assert_eq!(hresult_msg(E_ACCESSDENIED), "WinBio error 0x80070005");
    assert_eq!(enumeration_outcome(S_OK, 0), Err(FingerprintError::DeviceNotFound));
    assert!(enumeration_outcome(S_OK, 1).is_ok());
    assert_eq!(session_attempts()[0].flags, WINBIO_FLAG_RAW);
    let wide: Vec<u16> = "Goodix\0junk".encode_utf16().collect();
    assert_eq!(wide_to_string(&wide), "Goodix");
    assert_eq!(wide_to_string(&[0xD83D, 0xDE00, 0x41, 0]), "\u{1F600}A");
    assert_eq!(wide_to_string(&[0xDC00, 0xD800, 0x42, 0]), "\u{FFFD}\u{FFFD}B");
    let info = unit_device_info(String::new(), String::new(), "Fingerprint sensor".into(), "SN1".into(), 2, 7);
    assert_eq!(info.vendor, "Windows Biometric");
    assert_eq!(info.model, "Fingerprint sensor");
    assert_eq!(info.firmware, "2.7");
}

#[test]
fn wbf_capture_outcomes() {
    let scan = identify_capture_outcome(S_OK, &[9u8; 76], 0, 123).unwrap();
    assert!(scan.image.is_empty() && scan.quality == 100 && scan.template.len() == 76 && scan.timestamp == 123);
    assert_eq!(
        sdk_message(identify_capture_outcome(WINBIO_E_BAD_CAPTURE, &[], 5, 0).unwrap_err()),
        "Bad capture \u{2014} try again (reject detail: 5)"
    );
    assert_eq!(sample_step(true, E_ACCESSDENIED, 0), SampleStep::Continue { all_denied: true });
    assert_eq!(sample_step(true, WINBIO_E_NO_MATCH, 0), SampleStep::Continue { all_denied: false });
    assert_eq!(sample_step(false, S_OK, 0), SampleStep::Captured);
    assert!(samples_exhausted(true).is_none());
    assert_eq!(bir_quality(100, 64, 55), 55);
    assert_eq!(bir_quality(10, 64, 55), 0);
    let mut scanner = WbfScanner::new();
    assert_eq!(scanner.session(), Err(FingerprintError::NotInitialized));
    scanner.attach(9, 2);
    assert_eq!(scanner.session().unwrap().session, 9);
    assert!(scanner.detach().is_some());
    assert!(scanner.state.is_none());
}

// ─── Neurotec ────────────────────────────────────────────────────────────

#[test]
fn neurotec_statuses_and_messages() {
    assert!(check_status(NFES_TEMPLATE_CREATED, 10000, 60).is_ok());
    assert_eq!(check_status(NFES_NO_SCANNER, 10000, 60), Err(FingerprintError::DeviceNotFound));
    assert_eq!(check_status(NFES_SCANNER_TIMEOUT, 5000, 60), Err(FingerprintError::CaptureTimeout(5000)));
    let low = check_status(NFES_QUALITY_CHECK_FAILED, 10000, 70).unwrap_err();
    assert_eq!(low, FingerprintError::LowQuality { got: 0, min: 70 });
    assert_eq!(low.code(), "LOW_QUALITY");
    assert_eq!(sdk_message(check_status(7, 10000, 60).unwrap_err()), "Unexpected Nffv status: 7");
    assert_eq!(sdk_message(nffv_error(-90, "bad")), "Neurotec error -90: bad");
    assert_eq!(modules_description(-2, None), "(discovery failed: -2)");
    assert_eq!(modules_description(0, Some("SecuGen".into())), "SecuGen");
}

#[test]
fn neurotec_module_choice_and_paths() {
    assert_eq!(choose_scanner_module("SecuGen;SupremaBioMini"), "SupremaBioMini");
    assert_eq!(choose_scanner_module("SecuGen"), "SecuGen");
    assert_eq!(choose_scanner_module("Other"), "");
    assert_eq!(vendor_label("SupremaBioMini"), "Suprema/Xperix (via Neurotec)");
    let info = neurotec_device_info("SecuGen", "SecuGen");
    assert_eq!(info.vendor, "SecuGen (via Neurotec)");
    assert_eq!(info.firmware, "Neurotec FFV 3.0 | Modules: SecuGen");
    assert_eq!(info.dpi, 500);
    assert_eq!(windows_file_in("C:/SDK/Bin", "Nffv.dll"), "C:\\SDK\\Bin\\Nffv.dll");
    let dirs = sdk_dir_candidates(Some("E:/nffv".into()), None);
    assert_eq!(dirs.first().map(String::as_str), Some("E:/nffv"));
    assert_eq!(dirs.last().map(String::as_str), Some("."));
    assert_eq!(dirs.len(), 4);
}

#[test]
fn neurotec_capture_and_verify_decisions() {
    assert_eq!(reported_quality(0), 1);
    assert_eq!(reported_quality(70), 70);
    assert_eq!(pixel_buffer_len(256, 360), 92_160);
    assert_eq!(temporary_user_index(3), Some(2));
    assert_eq!(temporary_user_index(0), None);
    assert_eq!(find_user_slot(&vec![Some(4), None, Some(9), Some(9)], 9), Some(2));
    assert_eq!(find_user_slot(&vec![Some(4)], 9), None);
    let m = verification_result(-5, "carol");
    assert!(!m.matched && m.score == 0 && m.user_id.is_none());
    let m = verification_result(48, "carol");
    assert!(m.matched && m.score == 48 && m.user_id.as_deref() == Some("carol"));
}

#[test]
fn bridge_executable_is_looked_for_in_documented_places_only() {
    let plan = bridge_search_plan(Some("D:/bridge.exe".into()), Some("C:/addon".into()), Some("C:/node".into()));
    assert_eq!(
        plan,
        vec![
            SearchStep::ExactPath("D:/bridge.exe".into()),
            SearchStep::InDirectory("C:/addon".into()),
            SearchStep::InDirectory("C:/node".into()),
        ]
    );
    assert_eq!(locate_bridge(&plan, &vec![false, true, true]), Ok(1));
    assert_eq!(
        sdk_message(locate_bridge(&plan, &vec![false, false, false]).unwrap_err()),
        "secugen-bridge.exe not found. Set SECUGEN_BRIDGE_PATH or place it next to the .node file."
    );
    assert_eq!(bridge_search_plan(None, None, None), vec![]);
}
