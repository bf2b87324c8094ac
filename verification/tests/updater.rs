use ed25519_dalek::{Signer, SigningKey};
use fingerprint_sdk::updater::apply::{
    after_replace, cleanup_actions, find_latest_backup, first_action, rollback, rollback_plan,
    ApplyAction, PlanPath, UpdatePlan,
};
use fingerprint_sdk::updater::assets::{
    checksum_from_text, parse_pubkey_hex, verify_checksum, verify_signature, EntryPlan,
    ExtractBudget, ZIP_PER_FILE_LIMIT, ZIP_TOTAL_LIMIT,
};
use fingerprint_sdk::updater::digest::{sha256_hex, to_lower_hex, Sha256Stream};
use fingerprint_sdk::updater::github::{
    check_release, parse_repo, select_update, tag_version, update_info_from_release, GitHubAsset,
    GitHubRelease, UpdateError,
};
use fingerprint_sdk::updater::flow::{next_update_step, start_update, Stage, UpdateAction, UpdateEvent};
use fingerprint_sdk::updater::release::{
    install_file_list, signature_check, verify_manifest, FileEntry, ReleaseManifest, SignatureCheck,
};
use fingerprint_sdk::updater::version::{
    asset_checksum_name, asset_signature_name, asset_zip_name, DEFAULT_OWNER, DEFAULT_REPO,
};

// ─── verify_signature ────────────────────────────────────────────────────

/// Deterministic test keypair (seed of zero). Never use in production.
fn test_keypair() -> (SigningKey, String) {
    let sk = SigningKey::from_bytes(&[0u8; 32]);
    let vk = sk.verifying_key();
    let hex: String = vk.to_bytes().iter().map(|b| format!("{:02x}", b)).collect();
    (sk, hex)
}

#[test]
fn verify_signature_accepts_valid_signature() {
    let (sk, pk_hex) = test_keypair();
    let msg = b"release zip contents";
    let sig = sk.sign(msg);
    verify_signature(msg, &sig.to_bytes(), &pk_hex).expect("a freshly signed message must verify");
}

#[test]
fn verify_signature_rejects_tampered_message() {
    let (sk, pk_hex) = test_keypair();
    let sig = sk.sign(b"original");
    match verify_signature(b"tampered", &sig.to_bytes(), &pk_hex) {
        Err(UpdateError::SignatureInvalid(_)) => {}
        other => panic!("expected SignatureInvalid, got {:?}", other),
    }
}

#[test]
fn verify_signature_rejects_wrong_pubkey() {
    let (sk, _) = test_keypair();
    let other = SigningKey::from_bytes(&[7u8; 32]);
    let other_pk_hex: String =
        other.verifying_key().to_bytes().iter().map(|b| format!("{:02x}", b)).collect();
    let sig = sk.sign(b"x");
    match verify_signature(b"x", &sig.to_bytes(), &other_pk_hex) {
        Err(UpdateError::SignatureInvalid(_)) => {}
        other => panic!("expected SignatureInvalid, got {:?}", other),
    }
}

#[test]
fn verify_signature_rejects_wrong_length() {
    let (_, pk_hex) = test_keypair();
    match verify_signature(b"x", &[0u8; 32], &pk_hex) {
        Err(UpdateError::SignatureInvalid(m)) if m.contains("64 bytes") => {}
        other => panic!("expected length error, got {:?}", other),
    }
}

#[test]
fn verify_signature_rejects_zero_signature() {
    let (_, pk_hex) = test_keypair();
    match verify_signature(b"x", &[0u8; 64], &pk_hex) {
        Err(UpdateError::SignatureInvalid(_)) => {}
        other => panic!("expected SignatureInvalid, got {:?}", other),
    }
}

// ─── parse_pubkey_hex ────────────────────────────────────────────────────

#[test]
fn parse_pubkey_hex_accepts_plain_hex() {
    let hex = "0".repeat(63) + "f";
    let bytes = parse_pubkey_hex(&hex).unwrap();
    assert_eq!(bytes[31], 0x0f);
    assert!(bytes[..31].iter().all(|&b| b == 0));
}

#[test]
fn parse_pubkey_hex_strips_0x_and_whitespace() {
    let hex = "0x 00 01 02 03 04 05 06 07 08 09 0a 0b 0c 0d 0e 0f \
               10 11 12 13 14 15 16 17 18 19 1a 1b 1c 1d 1e 1f";
    let bytes = parse_pubkey_hex(hex).unwrap();
    assert_eq!(bytes[0], 0x00);
    assert_eq!(bytes[15], 0x0f);
    assert_eq!(bytes[31], 0x1f);
}

#[test]
fn parse_pubkey_hex_rejects_wrong_length() {
    match parse_pubkey_hex("abcd") {
        Err(UpdateError::SignatureInvalid(m)) if m.contains("64 hex chars") => {
            assert_eq!(m, "public key must be 64 hex chars, got 4");
        }
        other => panic!("expected length error, got {:?}", other),
    }
}

#[test]
fn parse_pubkey_hex_rejects_non_hex_chars() {
    match parse_pubkey_hex(&"zz".repeat(32)) {
        Err(UpdateError::SignatureInvalid(m)) => assert_eq!(m, "public key contains non-hex chars"),
        other => panic!("expected non-hex error, got {:?}", other),
    }
}

#[test]
fn parse_pubkey_hex_counts_bytes_and_reports_split_characters() {
    // 'é' takes two bytes: 62 digits and one 'é' make 64 bytes whose first
    // pair splits nothing but is not hexadecimal.
    let text = format!("é{}", "0".repeat(62));
    match parse_pubkey_hex(&text) {
        Err(UpdateError::SignatureInvalid(m)) => assert_eq!(m, "public key contains non-hex chars"),
        other => panic!("expected non-hex error, got {:?}", other),
    }
    // '0' then 'é' splits the two-byte character across pairs.
    let text = format!("0é{}", "0".repeat(61));
    match parse_pubkey_hex(&text) {
        Err(UpdateError::SignatureInvalid(m)) => assert_eq!(m, "public key contains non-ASCII"),
        other => panic!("expected non-ASCII error, got {:?}", other),
    }
}

#[test]
fn parse_pubkey_hex_reads_upper_case_and_refuses_signs() {
    let mut text = "0F".to_string();
    text.push_str(&"AB".repeat(31));
    let bytes = parse_pubkey_hex(&text).unwrap();
    assert_eq!(bytes[0], 0x0f);
    assert_eq!(bytes[1], 0xab);
    let mut signed = "+F".to_string();
    signed.push_str(&"AB".repeat(31));
    match parse_pubkey_hex(&signed) {
        Err(UpdateError::SignatureInvalid(m)) => assert_eq!(m, "public key contains non-hex chars"),
        other => panic!("a sign is no hex digit, got {:?}", other),
    }
}

#[test]
fn key_written_as_hex_reads_back() {
    let key: Vec<u8> = (0u8..32).map(|b| b.wrapping_mul(37)).collect();
    let hex = to_lower_hex(&key);
    assert_eq!(parse_pubkey_hex(&hex).unwrap().to_vec(), key);
}

// ─── verify_checksum ─────────────────────────────────────────────────────

#[test]
fn verify_checksum_accepts_match() {
    verify_checksum("deadbeef", "deadbeef").unwrap();
}

#[test]
fn verify_checksum_rejects_mismatch() {
    match verify_checksum("deadbeef", "cafebabe") {
        Err(UpdateError::ChecksumMismatch { expected, actual }) => {
            assert_eq!(expected, "cafebabe");
            assert_eq!(actual, "deadbeef");
        }
        other => panic!("expected ChecksumMismatch, got {:?}", other),
    }
}

#[test]
fn checksum_file_gives_its_first_word_lower_cased() {
    assert_eq!(checksum_from_text("  DEADBEEF  fingerprint-sdk.zip\n").unwrap(), "deadbeef");
    assert_eq!(checksum_from_text("abc").unwrap(), "abc");
    match checksum_from_text(" \n\t ") {
        Err(UpdateError::Download(m)) => assert_eq!(m, "Empty checksum file"),
        other => panic!("expected an empty checksum file, got {:?}", other),
    }
}

// ─── extraction limits ───────────────────────────────────────────────────

/// Offers an entry to the budget and records what a faithful copy writes.
fn extract_entry(budget: &mut ExtractBudget, name: &str, size: u64) -> Result<(), UpdateError> {
    match budget.plan_entry(name, false, size)? {
        EntryPlan::Skip => Ok(()),
        EntryPlan::Write { file_name, cap } => budget.record(name, file_name, size.min(cap)),
    }
}

#[test]
fn extract_zip_extracts_normal_entries() {
    let mut budget = ExtractBudget::production();
    extract_entry(&mut budget, "hello.txt", 5).unwrap();
    extract_entry(&mut budget, "data.bin", 4).unwrap();
    let extracted = budget.into_extracted();
    assert_eq!(extracted.len(), 2);
    assert!(extracted.contains(&"hello.txt".to_string()));
    assert!(extracted.contains(&"data.bin".to_string()));
}

#[test]
fn extract_zip_flattens_path_traversal() {
    let mut budget = ExtractBudget::production();
    match budget.plan_entry("../../etc/evil.txt", false, 3).unwrap() {
        EntryPlan::Write { file_name, cap } => {
            assert_eq!(file_name, "evil.txt");
            assert_eq!(cap, ZIP_PER_FILE_LIMIT + 1);
            budget.record("../../etc/evil.txt", file_name, 3).unwrap();
        }
        other => panic!("expected a write, got {:?}", other),
    }
    assert_eq!(budget.into_extracted(), vec!["evil.txt"]);
}

#[test]
fn extract_zip_rejects_oversized_entry() {
    let budget = ExtractBudget::new(1024, 4096);
    match budget.plan_entry("big.bin", false, 2048) {
        Err(UpdateError::ZipError(m)) if m.contains("per-file limit") => {
            assert_eq!(m, "entry big.bin declares uncompressed size 2048 > per-file limit 1024");
        }
        other => panic!("expected per-file limit error, got {:?}", other),
    }
    assert_eq!(budget.into_extracted().len(), 0);
}

#[test]
fn extract_zip_rejects_total_over_limit() {
    let mut budget = ExtractBudget::new(2048, 1000);
    extract_entry(&mut budget, "a.bin", 600).unwrap();
    match extract_entry(&mut budget, "b.bin", 600) {
        Err(UpdateError::ZipError(m)) if m.contains("total uncompressed") => {
            assert_eq!(m, "zip total uncompressed size would exceed 1000 bytes");
        }
        other => panic!("expected total cap error, got {:?}", other),
    }
    assert_eq!(budget.total_written(), 600);
}

#[test]
fn extract_zip_within_limits_succeeds() {
    let mut budget = ExtractBudget::new(1024, 4096);
    extract_entry(&mut budget, "a.bin", 500).unwrap();
    assert_eq!(budget.into_extracted(), vec!["a.bin"]);
}

#[test]
fn extraction_catches_entries_longer_than_declared() {
    let mut budget = ExtractBudget::new(1024, 4096);
    let plan = budget.plan_entry("liar.bin", false, 10).unwrap();
    let (file_name, cap) = match plan {
        EntryPlan::Write { file_name, cap } => (file_name, cap),
        other => panic!("expected a write, got {:?}", other),
    };
    assert_eq!(cap, 1025);
    match budget.record("liar.bin", file_name, cap) {
        Err(UpdateError::ZipError(m)) => {
            assert_eq!(m, "entry liar.bin exceeded per-file limit during extraction (zip bomb suspected)")
        }
        other => panic!("expected the zip bomb refusal, got {:?}", other),
    }
    assert_eq!(budget.total_written(), 0);
    let dir = budget.plan_entry("folder/", true, 0).unwrap();
    assert_eq!(dir, EntryPlan::Skip);
    match budget.plan_entry("..", false, 1) {
        Err(UpdateError::ZipError(m)) => assert_eq!(m, "Invalid entry name: .."),
        other => panic!("expected an invalid name, got {:?}", other),
    }
    assert_eq!(ZIP_TOTAL_LIMIT, 256 * 1024 * 1024);
}

#[test]
fn extraction_total_is_checked_after_writing() {
    let mut budget = ExtractBudget::new(100, 150);
    extract_entry(&mut budget, "a", 100).unwrap();
    let plan = budget.plan_entry("b", false, 10).unwrap();
    if let EntryPlan::Write { file_name, .. } = plan {
        match budget.record("b", file_name, 60) {
            Err(UpdateError::ZipError(m)) => assert_eq!(m, "zip total uncompressed size exceeded 150 bytes"),
            other => panic!("expected the total refusal, got {:?}", other),
        }
    }
    assert_eq!(budget.total_written(), 100);
}

// ─── asset names ─────────────────────────────────────────────────────────

#[test]
fn asset_names_follow_release_convention() {
    assert_eq!(asset_zip_name("0.1.0"), "fingerprint-sdk-v0.1.0-win32-x64.zip");
    assert_eq!(asset_checksum_name("0.1.0"), "fingerprint-sdk-v0.1.0-win32-x64.sha256");
    assert_eq!(asset_signature_name("0.1.0"), "fingerprint-sdk-v0.1.0-win32-x64.sig");
}

#[test]
fn asset_names_handle_prerelease_versions() {
    assert_eq!(asset_zip_name("1.2.3-beta.4"), "fingerprint-sdk-v1.2.3-beta.4-win32-x64.zip");
    assert_eq!(asset_signature_name("1.2.3-beta.4"), "fingerprint-sdk-v1.2.3-beta.4-win32-x64.sig");
}

#[test]
fn default_repository() {
    assert_eq!(DEFAULT_OWNER, "TrulyNimz");
    assert_eq!(DEFAULT_REPO, "Rust-Fingerprint-Library");
    assert_eq!(parse_repo("TrulyNimz/Rust-Fingerprint-Library"), Some(("TrulyNimz".to_string(), "Rust-Fingerprint-Library".to_string())));
    assert_eq!(parse_repo("a/b/c"), Some(("a".to_string(), "b/c".to_string())));
    assert_eq!(parse_repo("no-slash"), None);
}

// ─── release selection ───────────────────────────────────────────────────

fn asset(name: &str) -> GitHubAsset {
    GitHubAsset { name: name.to_string(), browser_download_url: format!("https://dl/{name}"), size: 1 }
}

fn release(tag: &str, names: &[&str]) -> GitHubRelease {
    GitHubRelease {
        tag_name: tag.to_string(),
        prerelease: false,
        assets: names.iter().map(|n| asset(n)).collect(),
        html_url: format!("https://releases/{tag}"),
    }
}

#[test]
fn newer_release_is_offered_with_its_assets() {
    let rel = release(
        "v0.2.0",
        &["notes.txt", "fingerprint-sdk-v0.2.0-win32-x64.zip", "fingerprint-sdk-v0.2.0-win32-x64.sha256"],
    );
    let info = check_release(&Some(rel), "0.1.0").unwrap().unwrap();
    assert_eq!(info.version, "0.2.0");
    assert_eq!(info.zip_url, "https://dl/fingerprint-sdk-v0.2.0-win32-x64.zip");
    assert_eq!(info.checksum_url.as_deref(), Some("https://dl/fingerprint-sdk-v0.2.0-win32-x64.sha256"));
    assert_eq!(info.signature_url, None);
    assert_eq!(info.signature_name, "fingerprint-sdk-v0.2.0-win32-x64.sig");
    assert_eq!(info.release_url, "https://releases/v0.2.0");
}

#[test]
fn no_update_for_same_or_older_version() {
    let same = release("v0.1.0", &["fingerprint-sdk-v0.1.0-win32-x64.zip"]);
    assert!(check_release(&Some(same), "0.1.0").unwrap().is_none());
    let older = release("0.0.9", &["fingerprint-sdk-v0.0.9-win32-x64.zip"]);
    assert!(check_release(&Some(older), "0.1.0").unwrap().is_none());
    assert!(check_release(&None, "0.1.0").unwrap().is_none());
}

#[test]
fn bad_tag_and_missing_archive_are_reported() {
    match check_release(&Some(release("vnext", &[])), "0.1.0") {
        Err(UpdateError::InvalidVersion(_)) => {}
        other => panic!("expected an invalid version, got {:?}", other),
    }
    match check_release(&Some(release("v1.0.0", &["other.zip"])), "0.1.0") {
        Err(UpdateError::MissingAsset(m)) => assert_eq!(m, "fingerprint-sdk-v1.0.0-win32-x64.zip"),
        other => panic!("expected a missing asset, got {:?}", other),
    }
    assert_eq!(tag_version("v1.2.3"), "1.2.3");
    assert_eq!(tag_version("1.2.3"), "1.2.3");
}

#[test]
fn forced_update_takes_the_latest_release() {
    let rel = release("v0.1.0", &["fingerprint-sdk-v0.1.0-win32-x64.zip"]);
    let info = select_update(&Some(rel.clone()), "0.1.0", true).unwrap();
    assert_eq!(info.version, "0.1.0");
    match select_update(&Some(rel), "0.1.0", false) {
        Err(UpdateError::Download(m)) => assert_eq!(m, "Already up to date"),
        other => panic!("expected already up to date, got {:?}", other),
    }
    match select_update(&None, "0.1.0", true) {
        Err(UpdateError::Download(m)) => assert_eq!(m, "No releases found"),
        other => panic!("expected no releases, got {:?}", other),
    }
    let again = update_info_from_release(&release("v2.0.0", &["fingerprint-sdk-v2.0.0-win32-x64.zip"])).unwrap();
    assert_eq!(again.checksum_url, None);
}

#[test]
fn update_errors_display_their_text() {
    assert_eq!(UpdateError::MissingAsset("x".into()).message(), "Release is missing expected asset: x");
    assert_eq!(
        UpdateError::ChecksumMismatch { expected: "a".into(), actual: "b".into() }.message(),
        "Checksum mismatch: expected a, got b"
    );
    assert_eq!(UpdateError::Io("gone".into()).message(), "File operation failed: gone");
}

// ─── signatures and manifest ─────────────────────────────────────────────

#[test]
fn unsigned_updates_need_explicit_permission() {
    let mut info = update_info_from_release(&release(
        "v1.0.0",
        &["fingerprint-sdk-v1.0.0-win32-x64.zip", "fingerprint-sdk-v1.0.0-win32-x64.sig"],
    ))
    .unwrap();
    assert_eq!(
        signature_check(&info, Some("ab"), true).unwrap(),
        SignatureCheck::Verify {
            url: "https://dl/fingerprint-sdk-v1.0.0-win32-x64.sig".into(),
            pubkey_hex: "ab".into()
        }
    );
    assert_eq!(signature_check(&info, None, true).unwrap(), SignatureCheck::Unsigned);
    assert!(matches!(signature_check(&info, None, false), Err(UpdateError::SignatureInvalid(_))));
    info.signature_url = None;
    match signature_check(&info, Some("ab"), true) {
        Err(UpdateError::MissingAsset(m)) => assert_eq!(m, "fingerprint-sdk-v1.0.0-win32-x64.sig"),
        other => panic!("expected a missing signature, got {:?}", other),
    }
}

#[test]
fn manifest_digests_are_checked_in_order() {
    let mut manifest = ReleaseManifest::new("1.0.0".into());
    manifest.insert("a.dll".into(), FileEntry { sha256: "aa".into(), arch: "x64".into() });
    manifest.insert("b.dll".into(), FileEntry { sha256: "bb".into(), arch: String::new() });
    manifest.insert("a.dll".into(), FileEntry { sha256: "a2".into(), arch: "x64".into() });
    assert_eq!(manifest.files.len(), 2);
    assert_eq!(manifest.files[0].1.sha256, "a2");
    verify_manifest(&manifest, &vec![Some("a2".into()), None]).unwrap();
    match verify_manifest(&manifest, &vec![Some("a2".into()), Some("zz".into())]) {
        Err(UpdateError::ChecksumMismatch { expected, actual }) => {
            assert_eq!(expected, "bb");
            assert_eq!(actual, "zz");
        }
        other => panic!("expected a mismatch, got {:?}", other),
    }
    let files = install_file_list(vec!["version.json".into(), "a.dll".into(), "b.dll".into()]);
    assert_eq!(files, vec!["a.dll", "b.dll"]);
}

#[test]
fn sha256_of_known_inputs() {
    assert_eq!(sha256_hex(b"abc"), "ba7816bf8f01cfea414140de5dae2223b00361a396177a9cb410ff61f20015ad");
    let mut s = Sha256Stream::new();
    s.update(b"a");
    s.update(b"bc");
    assert_eq!(s.finish_hex(), sha256_hex(b"abc"));
    assert_eq!(to_lower_hex(&[0x00, 0x0f, 0xa0, 0xff]), "000fa0ff");
}

// ─── applying and rolling back ───────────────────────────────────────────

#[test]
fn failed_replacement_restores_newest_first() {
    assert_eq!(first_action(0), ApplyAction::Finished { count: 0 });
    assert_eq!(first_action(3), ApplyAction::Replace(0));
    assert_eq!(after_replace(0, 3, Ok(())), ApplyAction::Replace(1));
    assert_eq!(after_replace(2, 3, Ok(())), ApplyAction::Finished { count: 3 });
    let err = UpdateError::Io("locked".into());
    assert_eq!(
        after_replace(2, 3, Err(err.clone())),
        ApplyAction::RollBack { restore: vec![2, 1, 0], error: err.clone() }
    );
    assert_eq!(
        after_replace(0, 3, Err(err.clone())),
        ApplyAction::RollBack { restore: vec![0], error: err }
    );
}

#[test]
fn rollback_lists_every_failure() {
    let names = vec!["a.dll".to_string(), "b.dll".to_string(), "c.dll".to_string()];
    let plan = UpdatePlan::new("/opt/app", "/tmp/stage", &names, 1700000000);
    assert_eq!(plan.files.len(), 3);
    assert_eq!(plan.files[1].filename, "b.dll");
    assert_eq!(plan.install_dir, PlanPath { base: "/opt/app".into(), parts: vec![] });
    assert_eq!(plan.staging_dir, PlanPath { base: "/tmp/stage".into(), parts: vec![] });
    assert_eq!(
        plan.backup_dir,
        PlanPath { base: "/opt/app".into(), parts: vec![".update-backup-1700000000".into()] }
    );
    assert_eq!(plan.files[0].source, PlanPath { base: "/tmp/stage".into(), parts: vec!["a.dll".into()] });
    assert_eq!(plan.files[0].target, PlanPath { base: "/opt/app".into(), parts: vec!["a.dll".into()] });
    assert_eq!(
        plan.files[2].backup,
        PlanPath { base: "/opt/app".into(), parts: vec![".update-backup-1700000000".into(), "c.dll".into()] }
    );
    rollback(&plan, &vec![Ok(()), Ok(()), Ok(())]).unwrap();
    let outcome = rollback(
        &plan,
        &vec![Err(UpdateError::Io("denied".into())), Ok(()), Err(UpdateError::Io("busy".into()))],
    );
    match outcome {
        Err(UpdateError::Io(m)) => assert_eq!(
            m,
            "Rollback errors: a.dll: File operation failed: denied, c.dll: File operation failed: busy"
        ),
        other => panic!("expected rollback errors, got {:?}", other),
    }
}

#[test]
fn rollback_uses_the_latest_backup() {
    let entries = vec![
        (".update-backup-100".to_string(), true),
        ("app.dll".to_string(), false),
        (".update-backup-300".to_string(), true),
        (".update-backup-900".to_string(), false),
        (".update-backup-200".to_string(), true),
    ];
    assert_eq!(find_latest_backup(&entries), Some(2));
    assert_eq!(find_latest_backup(&vec![("x".to_string(), true)]), None);
    let plan = rollback_plan("/opt/app", ".update-backup-300", &vec!["a.dll".to_string()]).unwrap();
    assert_eq!(
        plan.files[0].source,
        PlanPath { base: "/opt/app".into(), parts: vec![".update-backup-300".into(), "a.dll".into()] }
    );
    assert_eq!(plan.files[0].target, PlanPath { base: "/opt/app".into(), parts: vec!["a.dll".into()] });
    assert_eq!(
        plan.files[0].backup,
        PlanPath { base: "/opt/app".into(), parts: vec![".rollback-tmp".into(), "a.dll".into()] }
    );
    assert_eq!(plan.backup_dir, PlanPath { base: "/opt/app".into(), parts: vec![".rollback-tmp".into()] });
    match rollback_plan("/opt/app", ".update-backup-1", &vec![]) {
        Err(UpdateError::Io(m)) => assert_eq!(m, "Backup directory is empty"),
        Ok(_) => panic!("an empty backup must be refused"),
        Err(other) => panic!("unexpected error {:?}", other),
    }
}

#[test]
fn cleanup_removes_old_files_and_backups() {
    let entries = vec![
        ("sgfplib.dll.old".to_string(), false),
        (".update-backup-5".to_string(), true),
        (".old".to_string(), false),
        (".update-backup-9".to_string(), true),
        (".update-backup-7".to_string(), false),
        ("app.dll".to_string(), false),
    ];
    let actions = cleanup_actions(&entries);
    assert_eq!(actions.len(), 6);
    assert!(actions[0].remove_file && !actions[0].remove_dir);
    assert!(!actions[1].remove_file && actions[1].remove_dir);
    assert!(!actions[2].remove_file && !actions[2].remove_dir);
    assert!(!actions[3].remove_file && !actions[3].remove_dir);
    assert!(!actions[4].remove_dir);
    assert!(!actions[5].remove_file && !actions[5].remove_dir);
    let only = cleanup_actions(&vec![(".update-backup-1".to_string(), true)]);
    assert!(!only[0].remove_dir);
}

// ─── the order of an update's steps ──────────────────────────────────────

fn signed_release() -> GitHubRelease {
    release(
        "v0.2.0",
        &[
            "fingerprint-sdk-v0.2.0-win32-x64.zip",
            "fingerprint-sdk-v0.2.0-win32-x64.sha256",
            "fingerprint-sdk-v0.2.0-win32-x64.sig",
        ],
    )
}

fn signing_key() -> SigningKey {
    SigningKey::from_bytes(&[7u8; 32])
}

fn key_hex() -> String {
    to_lower_hex(signing_key().verifying_key().as_bytes())
}

#[test]
fn update_steps_verify_before_extracting() {
    let archive = b"zip bytes".to_vec();
    let signature = signing_key().sign(&archive).to_bytes().to_vec();
    let (phase, action) = start_update("0.1.0".into(), false, Some(key_hex()), false);
    assert_eq!(action, UpdateAction::FetchRelease);
    assert_eq!(phase.stage(), Stage::FetchingRelease);
    let (phase, action) = next_update_step(phase, UpdateEvent::ReleaseFetched(Some(signed_release())));
    assert_eq!(action, UpdateAction::DownloadArchive { url: "https://dl/fingerprint-sdk-v0.2.0-win32-x64.zip".into() });
    assert_eq!(phase.release().as_ref().unwrap().version, "0.2.0");
    let digest = sha256_hex(&archive);
    let (phase, action) = next_update_step(phase, UpdateEvent::ArchiveDownloaded { sha256_hex: digest.clone() });
    assert_eq!(action, UpdateAction::FetchSignature { url: "https://dl/fingerprint-sdk-v0.2.0-win32-x64.sig".into() });
    let (phase, action) = next_update_step(phase, UpdateEvent::SignatureFetched { archive, signature });
    assert_eq!(action, UpdateAction::FetchChecksum { url: "https://dl/fingerprint-sdk-v0.2.0-win32-x64.sha256".into() });
    let published = format!("{}  fingerprint-sdk-v0.2.0-win32-x64.zip\n", digest.to_uppercase());
    let (phase, action) = next_update_step(phase, UpdateEvent::ChecksumFetched { text: published });
    assert_eq!(action, UpdateAction::Extract);
    assert_eq!(phase.stage(), Stage::Extracting);
    let (phase, action) =
        next_update_step(phase, UpdateEvent::Extracted { files: vec!["a.dll".into(), "version.json".into()] });
    assert_eq!(action, UpdateAction::ReadManifest);
    let mut manifest = ReleaseManifest::new("0.2.0".into());
    manifest.insert("a.dll".into(), FileEntry { sha256: "aa".into(), arch: String::new() });
    let (phase, action) =
        next_update_step(phase, UpdateEvent::ManifestRead(Some((manifest, vec![Some("aa".into())]))));
    assert_eq!(action, UpdateAction::Install { files: vec!["a.dll".into()] });
    let (phase, action) = next_update_step(phase, UpdateEvent::Installed);
    assert_eq!(action, UpdateAction::WriteRecord { version: "0.2.0".into() });
    let (phase, action) = next_update_step(phase, UpdateEvent::RecordWritten);
    assert_eq!(action, UpdateAction::Finish { version: "0.2.0".into() });
    assert_eq!(phase.stage(), Stage::Finished);
    let (phase, action) = next_update_step(phase, UpdateEvent::Installed);
    assert_eq!(action, UpdateAction::Fail(UpdateError::Download("update step out of order".into())));
    assert_eq!(phase.stage(), Stage::Failed);
}

#[test]
fn unsigned_update_needs_permission() {
    let (phase, _) = start_update("0.1.0".into(), false, None, false);
    let (phase, action) = next_update_step(phase, UpdateEvent::ReleaseFetched(Some(signed_release())));
    match action {
        UpdateAction::Fail(UpdateError::SignatureInvalid(m)) => assert!(m.contains("--allow-unsigned")),
        other => panic!("an unsigned update must be refused, got {:?}", other),
    }
    assert_eq!(phase.stage(), Stage::Failed);
    let (phase, _) = start_update("0.1.0".into(), false, None, true);
    let unsigned = release("v0.2.0", &["fingerprint-sdk-v0.2.0-win32-x64.zip"]);
    let (phase, action) = next_update_step(phase, UpdateEvent::ReleaseFetched(Some(unsigned)));
    assert!(matches!(action, UpdateAction::DownloadArchive { .. }));
    let (_, action) = next_update_step(phase, UpdateEvent::ArchiveDownloaded { sha256_hex: "00".into() });
    assert_eq!(action, UpdateAction::Extract);
}

#[test]
fn forged_archive_is_never_extracted() {
    let signature = signing_key().sign(b"the real archive").to_bytes().to_vec();
    let (phase, _) = start_update("0.1.0".into(), false, Some(key_hex()), false);
    let (phase, _) = next_update_step(phase, UpdateEvent::ReleaseFetched(Some(signed_release())));
    let (phase, _) = next_update_step(phase, UpdateEvent::ArchiveDownloaded { sha256_hex: "00".into() });
    let (phase, action) =
        next_update_step(phase, UpdateEvent::SignatureFetched { archive: b"a forged archive".to_vec(), signature });
    assert!(matches!(action, UpdateAction::Fail(UpdateError::SignatureInvalid(_))));
    assert_eq!(phase.stage(), Stage::Failed);
}

#[test]
fn wrong_checksum_stops_the_update() {
    let (phase, _) = start_update("0.1.0".into(), false, None, true);
    let rel = release("v0.2.0", &["fingerprint-sdk-v0.2.0-win32-x64.zip", "fingerprint-sdk-v0.2.0-win32-x64.sha256"]);
    let (phase, _) = next_update_step(phase, UpdateEvent::ReleaseFetched(Some(rel)));
    let (phase, action) = next_update_step(phase, UpdateEvent::ArchiveDownloaded { sha256_hex: "abcd".into() });
    assert!(matches!(action, UpdateAction::FetchChecksum { .. }));
    let (_, action) = next_update_step(phase, UpdateEvent::ChecksumFetched { text: "ffff file.zip".into() });
    assert_eq!(
        action,
        UpdateAction::Fail(UpdateError::ChecksumMismatch { expected: "ffff".into(), actual: "abcd".into() })
    );
}

#[test]
fn failed_or_misplaced_outcomes_stop_the_update() {
    let (phase, _) = start_update("0.1.0".into(), false, None, true);
    let (_, action) = next_update_step(phase, UpdateEvent::Failed(UpdateError::Http("offline".into())));
    assert_eq!(action, UpdateAction::Fail(UpdateError::Http("offline".into())));
    let (phase, _) = start_update("0.1.0".into(), false, None, true);
    let (_, action) = next_update_step(phase, UpdateEvent::Installed);
    assert_eq!(action, UpdateAction::Fail(UpdateError::Download("update step out of order".into())));
    let (phase, _) = start_update("0.2.0".into(), false, None, true);
    let (_, action) = next_update_step(phase, UpdateEvent::ReleaseFetched(Some(signed_release())));
    assert_eq!(action, UpdateAction::Fail(UpdateError::Download("Already up to date".into())));
}

#[test]
fn manifest_mismatch_stops_before_installing() {
    let (phase, _) = start_update("0.1.0".into(), false, None, true);
    let unsigned = release("v0.2.0", &["fingerprint-sdk-v0.2.0-win32-x64.zip"]);
    let (phase, _) = next_update_step(phase, UpdateEvent::ReleaseFetched(Some(unsigned)));
    let (phase, _) = next_update_step(phase, UpdateEvent::ArchiveDownloaded { sha256_hex: "00".into() });
    let (phase, _) = next_update_step(phase, UpdateEvent::Extracted { files: vec!["a.dll".into()] });
    let mut manifest = ReleaseManifest::new("0.2.0".into());
    manifest.insert("a.dll".into(), FileEntry { sha256: "aa".into(), arch: String::new() });
    let (_, action) =
        next_update_step(phase, UpdateEvent::ManifestRead(Some((manifest, vec![Some("bb".into())]))));
    assert_eq!(
        action,
        UpdateAction::Fail(UpdateError::ChecksumMismatch { expected: "aa".into(), actual: "bb".into() })
    );
}

#[test]
fn entries_are_written_under_their_final_segment() {
    let budget = ExtractBudget::new(1024, 4096);
    for (name, expected) in [
        ("a/b/c.txt", "c.txt"),
        ("hello.txt", "hello.txt"),
        ("../x/../y.bin", "y.bin"),
        ("a/b/.", "b"),
        ("dir/file.txt//", "file.txt"),
    ] {
        match budget.plan_entry(name, false, 1).unwrap() {
            EntryPlan::Write { file_name, cap } => {
                assert_eq!(file_name, expected);
                assert_eq!(cap, 1025);
            }
            other => panic!("expected a write, got {:?}", other),
        }
    }
    for bad in ["a/..", "./", "/"] {
        match budget.plan_entry(bad, false, 1) {
            Err(UpdateError::ZipError(m)) => assert_eq!(m, format!("Invalid entry name: {bad}")),
            other => panic!("expected an invalid name, got {:?}", other),
        }
    }
}

#[test]
fn keyed_update_needs_the_release_signature() {
    let unsigned = release(
        "v0.2.0",
        &["fingerprint-sdk-v0.2.0-win32-x64.zip", "fingerprint-sdk-v0.2.0-win32-x64.sha256"],
    );
    let (phase, _) = start_update("0.1.0".into(), false, Some(key_hex()), true);
    let (phase, action) = next_update_step(phase, UpdateEvent::ReleaseFetched(Some(unsigned)));
    assert_eq!(
        action,
        UpdateAction::Fail(UpdateError::MissingAsset("fingerprint-sdk-v0.2.0-win32-x64.sig".into()))
    );
    assert_eq!(phase.stage(), Stage::Failed);
}

#[test]
fn matching_checksum_goes_on_to_extraction() {
    let (phase, _) = start_update("0.1.0".into(), false, None, true);
    let rel = release("v0.2.0", &["fingerprint-sdk-v0.2.0-win32-x64.zip", "fingerprint-sdk-v0.2.0-win32-x64.sha256"]);
    let (phase, _) = next_update_step(phase, UpdateEvent::ReleaseFetched(Some(rel)));
    let (phase, _) = next_update_step(phase, UpdateEvent::ArchiveDownloaded { sha256_hex: "abcd".into() });
    let (phase, action) = next_update_step(phase, UpdateEvent::ChecksumFetched { text: "  ABCD  x.zip".into() });
    assert_eq!(action, UpdateAction::Extract);
    assert_eq!(phase.stage(), Stage::Extracting);
    let (_, action) = start_update("0.1.0".into(), false, None, true);
    assert_eq!(action, UpdateAction::FetchRelease);
}
