use fingerprint_sdk::sdk::errors::FingerprintError;
use fingerprint_sdk::sdk::vendors::secugen::error_map::map_sdk_code;
use fingerprint_sdk::sdk::vendors::secugen::ffi_types::{
    SGFDX_ERROR_DEVICE_NOT_FOUND, SGFDX_ERROR_DLLLOAD_FAILED_DRV, SGFDX_ERROR_TIME_OUT,
};
use fingerprint_sdk::sdk::vendors::secugen::library_path::{
    default_lib_filename, find_library_path, library_search_plan, platform_default_dirs,
    LibraryLocation, SearchStep,
};
use fingerprint_sdk::sdk::vendors::Platform;

// ─── map_sdk_code ────────────────────────────────────────────────────────

#[test]
fn device_not_found_maps_correctly() {
    match map_sdk_code(SGFDX_ERROR_DEVICE_NOT_FOUND, 10_000) {
        FingerprintError::DeviceNotFound => {}
        other => panic!("expected DeviceNotFound, got {:?}", other),
    }
}

#[test]
fn timeout_includes_requested_ms() {
    match map_sdk_code(SGFDX_ERROR_TIME_OUT, 7500) {
        FingerprintError::CaptureTimeout(ms) => assert_eq!(ms, 7500),
        other => panic!("expected CaptureTimeout(7500), got {:?}", other),
    }
}

#[test]
fn dll_load_failure_is_sdk_error_with_hint() {
    match map_sdk_code(SGFDX_ERROR_DLLLOAD_FAILED_DRV, 10_000) {
        FingerprintError::SdkError(msg) => {
            assert!(msg.contains("Driver library load failed"));
        }
        other => panic!("expected SdkError, got {:?}", other),
    }
}

#[test]
fn unknown_code_is_sdk_error_with_numeric_code() {
    match map_sdk_code(999, 10_000) {
        FingerprintError::SdkError(msg) => assert!(msg.contains("999")),
        other => panic!("expected SdkError(999), got {:?}", other),
    }
}

#[test]
fn negative_code_keeps_its_sign() {
    assert_eq!(
        map_sdk_code(-3, 10_000),
        FingerprintError::SdkError("SGFPLIB error code: -3".to_string())
    );
}

// ─── library search ──────────────────────────────────────────────────────

fn plan(lib: Option<&str>, dll: Option<&str>, sdk: Option<&str>, exe: Option<&str>) -> Vec<SearchStep> {
    library_search_plan(
        lib.map(String::from),
        dll.map(String::from),
        sdk.map(String::from),
        exe.map(String::from),
        Platform::Linux,
    )
}

#[test]
fn lib_path_env_takes_precedence() {
    let p = plan(Some("/tmp/lib.so"), Some("/tmp/dll.so"), None, Some("/opt/app"));
    assert_eq!(p[0], SearchStep::ExactPath("/tmp/lib.so".into()));
    let mut exists = vec![false; p.len()];
    exists[0] = true;
    exists[1] = true;
    assert_eq!(find_library_path(&p, &exists, Platform::Linux), LibraryLocation::Planned(0));
}

#[test]
fn dll_path_used_when_lib_path_missing() {
    let p = plan(None, Some("/tmp/dll.so"), None, Some("/opt/app"));
    assert_eq!(p[0], SearchStep::ExactPath("/tmp/dll.so".into()));
    let mut exists = vec![false; p.len()];
    exists[0] = true;
    assert_eq!(find_library_path(&p, &exists, Platform::Linux), LibraryLocation::Planned(0));
}

#[test]
fn sdk_path_appends_default_filename() {
    let p = plan(None, None, Some("/tmp/sdk"), None);
    assert_eq!(p[0], SearchStep::InDirectory("/tmp/sdk".into()));
    let mut exists = vec![false; p.len()];
    exists[0] = true;
    assert_eq!(find_library_path(&p, &exists, Platform::Linux), LibraryLocation::Planned(0));
    assert_eq!(default_lib_filename(Platform::Linux), "libsgfplib.so");
}

#[test]
fn falls_back_to_bare_filename_when_nothing_matches() {
    let p = plan(None, None, Some("/tmp/empty"), None);
    let exists = vec![false; p.len()];
    assert_eq!(
        find_library_path(&p, &exists, Platform::Linux),
        LibraryLocation::BareFilename(default_lib_filename(Platform::Linux).to_string())
    );
}

#[test]
fn nonexistent_lib_path_does_not_short_circuit() {
    let p = plan(Some("/no/such/path/nope.so"), None, None, None);
    let exists = vec![false; p.len()];
    assert_eq!(
        find_library_path(&p, &exists, Platform::Linux),
        LibraryLocation::BareFilename(default_lib_filename(Platform::Linux).to_string())
    );
}

#[test]
fn search_plan_follows_documented_order() {
    let p = plan(Some("/a/lib.so"), Some("/b/dll.so"), Some("/c"), Some("/d"));
    let mut expected = vec![
        SearchStep::ExactPath("/a/lib.so".into()),
        SearchStep::ExactPath("/b/dll.so".into()),
        SearchStep::InDirectory("/c".into()),
        SearchStep::InDirectory("/d".into()),
    ];
    for d in platform_default_dirs(Platform::Linux) {
        expected.push(SearchStep::InDirectory(d.to_string()));
    }
    assert_eq!(p, expected);
    assert_eq!(platform_default_dirs(Platform::Linux), vec!["/usr/local/lib", "/usr/lib", "/opt/SecuGen/lib"]);
    let mut exists = vec![false; p.len()];
    exists[3] = true;
    exists[5] = true;
    assert_eq!(find_library_path(&p, &exists, Platform::Linux), LibraryLocation::Planned(3));
}

#[test]
fn library_file_names_per_platform() {
    assert_eq!(default_lib_filename(Platform::Windows), "sgfplib.dll");
    assert_eq!(default_lib_filename(Platform::MacOs), "libsgfplib.dylib");
}
