//! Neurotechnology Free Fingerprint Verification (FFV) SDK vendor: the
//! decisions around the Nffv calls.
use vstd::prelude::*;
use vstd::string::{StrSliceExecFns, StringExecFns};
use crate::outside::push_char;
use crate::sdk::errors::FingerprintError;
use crate::sdk::types::{DeviceInfo, MatchResult};
use crate::sdk::vendors::secugen::session::{is_sdk_error, match_view};
use crate::text::{contains_str, contains_text, i64_to_decimal, signed_decimal};

verus! {

pub const NFES_NONE: i32 = 0i32;
pub const NFES_TEMPLATE_CREATED: i32 = 1i32;
pub const NFES_NO_SCANNER: i32 = 2i32;
pub const NFES_SCANNER_TIMEOUT: i32 = 3i32;
pub const NFES_USER_CANCELED: i32 = 4i32;
pub const NFES_QUALITY_CHECK_FAILED: i32 = 100i32;

pub const N_OK: i32 = 0i32;

/// Timeout of the enrol and verify calls made for `enroll` and `verify`.
pub const NEUROTEC_TIMEOUT_MS: u32 = 10000u32;

/// Resolution the FFV SDK's scanners are assumed to have.
pub const NEUROTEC_DPI: u32 = 500u32;

/// The outcome of an enrol/verify call's status, for a call that waited
/// `timeout_ms` for a finger under the quality threshold `min_quality`: only
/// a created template is success. A timeout and a failed quality check are
/// reported with their own codes; the SDK reports no quality reading with
/// the latter, so the reading is given as 0.
pub fn check_status(status: i32, timeout_ms: u32, min_quality: u8) -> (r: Result<(), FingerprintError>)
    ensures
        status == NFES_TEMPLATE_CREATED ==> r is Ok,
        status == NFES_NO_SCANNER ==> r == Err::<(), FingerprintError>(
            FingerprintError::DeviceNotFound,
        ),
        status == NFES_SCANNER_TIMEOUT ==> r == Err::<(), FingerprintError>(
            FingerprintError::CaptureTimeout(timeout_ms),
        ),
        status == NFES_QUALITY_CHECK_FAILED ==> r == Err::<(), FingerprintError>(
            FingerprintError::LowQuality { got: 0, min: min_quality },
        ),
        (status != NFES_TEMPLATE_CREATED && status != NFES_NO_SCANNER && status
            != NFES_SCANNER_TIMEOUT && status != NFES_QUALITY_CHECK_FAILED) ==> is_sdk_error(
            r,
            "Unexpected Nffv status: "@ + signed_decimal(status as int),
        ),
{
    if status == NFES_TEMPLATE_CREATED {
        Ok(())
    } else if status == NFES_NO_SCANNER {
        Err(FingerprintError::DeviceNotFound)
    } else if status == NFES_SCANNER_TIMEOUT {
        Err(FingerprintError::CaptureTimeout(timeout_ms))
    } else if status == NFES_QUALITY_CHECK_FAILED {
        Err(FingerprintError::LowQuality { got: 0, min: min_quality })
    } else {
        let mut s = String::from_str("Unexpected Nffv status: ");
        let d = i64_to_decimal(status as i64);
        s.append(d.as_str());
        Err(FingerprintError::SdkError(s))
    }
}

/// The error for a failed Nffv call, with the SDK's own message for it.
pub fn nffv_error(code: i32, message: &str) -> (e: FingerprintError)
    ensures
        e matches FingerprintError::SdkError(m) && m@ == "Neurotec error "@ + signed_decimal(
            code as int,
        ) + ": "@ + message@,
{
    let mut s = String::from_str("Neurotec error ");
    let d = i64_to_decimal(code as i64);
    s.append(d.as_str());
    s.append(": ");
    s.append(message);
    FingerprintError::SdkError(s)
}

/// The list of scanner modules reported at start-up, or why it is missing.
pub fn modules_description(result: i32, decoded: Option<String>) -> (text: String)
    ensures
        (result >= N_OK && decoded is Some) ==> (decoded matches Some(d) && text@ == d@),
        !(result >= N_OK && decoded is Some) ==> text@ == "(discovery failed: "@ + signed_decimal(
            result as int,
        ) + ")"@,
{
    match decoded {
        Some(d) => {
            if result >= N_OK {
                return d;
            }
        },
        None => {},
    }
    let mut s = String::from_str("(discovery failed: ");
    let n = i64_to_decimal(result as i64);
    s.append(n.as_str());
    s.append(")");
    s
}

/// The scanner module chosen from the available ones: Suprema BioMini when
/// present, else SecuGen, else none (the SDK then tries every module).
pub open spec fn spec_scanner_module(modules: Seq<char>) -> Seq<char> {
    if contains_text(modules, "SupremaBioMini"@) {
        "SupremaBioMini"@
    } else if contains_text(modules, "SecuGen"@) {
        "SecuGen"@
    } else {
        ""@
    }
}

pub fn choose_scanner_module(modules: &str) -> (m: &'static str)
    ensures
        m@ == spec_scanner_module(modules@),
{
    if contains_str(modules, "SupremaBioMini") {
        "SupremaBioMini"
    } else if contains_str(modules, "SecuGen") {
        "SecuGen"
    } else {
        ""
    }
}

/// The vendor shown for a scanner module.
pub open spec fn spec_vendor_label(module: Seq<char>) -> Seq<char> {
    if contains_text(module, "Suprema"@) || contains_text(module, "BioMini"@) {
        "Suprema/Xperix (via Neurotec)"@
    } else if contains_text(module, "SecuGen"@) {
        "SecuGen (via Neurotec)"@
    } else {
        "Neurotec FFV"@
    }
}

pub fn vendor_label(module: &str) -> (v: &'static str)
    ensures
        v@ == spec_vendor_label(module@),
{
    if contains_str(module, "Suprema") || contains_str(module, "BioMini") {
        "Suprema/Xperix (via Neurotec)"
    } else if contains_str(module, "SecuGen") {
        "SecuGen (via Neurotec)"
    } else {
        "Neurotec FFV"
    }
}

/// The device description after a successful start-up.
pub fn neurotec_device_info(module: &str, modules: &str) -> (info: DeviceInfo)
    ensures
        info.vendor@ == spec_vendor_label(module@),
        info.model@ == module@,
        info.serial@.len() == 0,
        info.firmware@ == "Neurotec FFV 3.0 | Modules: "@ + modules@,
        info.image_width == 0,
        info.image_height == 0,
        info.dpi == NEUROTEC_DPI,
{
    let mut firmware = String::from_str("Neurotec FFV 3.0 | Modules: ");
    firmware.append(modules);
    DeviceInfo {
        vendor: String::from_str(vendor_label(module)),
        model: String::from_str(module),
        serial: String::new(),
        firmware,
        image_width: 0,
        image_height: 0,
        dpi: NEUROTEC_DPI,
    }
}

/// `s` with every '/' replaced by '\\'.
pub open spec fn backslashed(s: Seq<char>) -> Seq<char> {
    s.map_values(|c: char| if c == '/' { '\\' } else { c })
}

/// A directory written with Windows separators, followed by `\\name`.
pub fn windows_file_in(dir: &str, name: &str) -> (path: String)
    ensures
        path@ == backslashed(dir@) + "\\"@ + name@,
{
    let n = dir.unicode_len();
    let mut s = String::new();
    let mut i: usize = 0;
    while i < n
        invariant
            n == dir@.len(),
            i <= n,
            s@ == backslashed(dir@.take(i as int)),
        decreases n - i,
    {
        let c = dir.get_char(i);
        push_char(&mut s, if c == '/' { '\\' } else { c });
        assert(dir@.take(i + 1) =~= dir@.take(i as int).push(c));
        assert(s@ =~= backslashed(dir@.take(i + 1)));
        i = i + 1;
    }
    assert(dir@.take(n as int) =~= dir@);
    s.append("\\");
    s.append(name);
    s
}

/// The quality reported for a capture: the SDK's quality threshold, at least 1.
pub fn reported_quality(threshold: u8) -> (q: u8)
    ensures
        q == (if threshold >= 1 { threshold } else { 1u8 }),
{
    if threshold >= 1 { threshold } else { 1 }
}

/// Byte length of an image of `height` rows of `stride` bytes.
pub fn pixel_buffer_len(stride: u64, height: u32) -> (n: usize)
    requires
        stride * height <= usize::MAX,
    ensures
        n == stride * height,
{
    if height == 0 {
        return 0;
    }
    proof {
        assert(stride <= stride * height) by (nonlinear_arith)
            requires
                height >= 1,
        ;
    }
    (stride as usize) * (height as usize)
}

/// The user record a capture created and then removes again (the last one),
/// keeping the free SDK's ten user slots available.
pub fn temporary_user_index(user_count: i32) -> (r: Option<i32>)
    ensures
        user_count > 0 ==> r == Some((user_count - 1) as i32),
        user_count <= 0 ==> r is None,
{
    if user_count > 0 { Some(user_count - 1) } else { None }
}

/// The little-endian bytes of a 32-bit integer.
pub open spec fn le_bytes(id: i32) -> Seq<u8> {
    let v = id as u32;
    seq![(v & 255u32) as u8, ((v >> 8u32) & 255u32) as u8, ((v >> 16u32) & 255u32) as u8, (v >> 24u32) as u8]
}

/// The template an enrolment stores: the SDK's internal user id, little-endian.
pub fn id_to_template_bytes(id: i32) -> (data: Vec<u8>)
    ensures
        data@ == le_bytes(id),
{
    let v = id as u32;
    let mut data = Vec::new();
    data.push((v & 255u32) as u8);
    data.push(((v >> 8u32) & 255u32) as u8);
    data.push(((v >> 16u32) & 255u32) as u8);
    data.push((v >> 24u32) as u8);
    assert(data@ =~= le_bytes(id));
    data
}

/// The 32-bit integer of four little-endian bytes.
pub open spec fn le_value(b0: u8, b1: u8, b2: u8, b3: u8) -> i32 {
    ((b0 as u32) | ((b1 as u32) << 8u32) | ((b2 as u32) << 16u32) | ((b3 as u32) << 24u32)) as i32
}

/// The internal user id a template holds in its first four bytes.
pub fn template_internal_id(data: &[u8]) -> (r: Result<i32, FingerprintError>)
    ensures
        data@.len() < 4 ==> is_sdk_error(r, "Invalid Neurotec template: missing internal ID"@),
        data@.len() >= 4 ==> r == Ok::<i32, FingerprintError>(
            le_value(data@[0], data@[1], data@[2], data@[3]),
        ),
{
    if data.len() < 4 {
        return Err(FingerprintError::SdkError(String::from_str("Invalid Neurotec template: missing internal ID")));
    }
    let v = (data[0] as u32) | ((data[1] as u32) << 8u32) | ((data[2] as u32) << 16u32) | ((
    data[3] as u32) << 24u32);
    Ok(v as i32)
}

/// Reading back the id an enrolment stored gives the same id.
pub proof fn lemma_template_id_round_trip(id: i32)
    ensures
        ({
            let b = le_bytes(id);
            le_value(b[0], b[1], b[2], b[3]) == id
        }),
{
    let v = id as u32;
    assert(((((v & 255u32) as u8) as u32) | (((((v >> 8u32) & 255u32) as u8) as u32) << 8u32) | (
    ((((v >> 16u32) & 255u32) as u8) as u32) << 16u32) | ((((v >> 24u32) as u8) as u32) << 24u32))
        == v) by (bit_vector);
    assert((v as i32) == id) by (bit_vector)
        requires
            v == id as u32,
    ;
}

/// The position of the stored user whose internal id is `target`, given for
/// each stored user its id (or `None` when it could not be read): the first
/// such position.
pub fn find_user_slot(ids: &Vec<Option<i32>>, target: i32) -> (r: Option<usize>)
    ensures
        r matches Some(i) ==> i < ids@.len() && ids@[i as int] == Some(target) && forall|j: int|
            0 <= j < i ==> ids@[j] != Some(target),
        r is None ==> forall|j: int| 0 <= j < ids@.len() ==> ids@[j] != Some(target),
{
    let mut k: usize = 0;
    while k < ids.len()
        invariant
            k <= ids@.len(),
            forall|j: int| 0 <= j < k ==> ids@[j] != Some(target),
        decreases ids@.len() - k,
    {
        match ids[k] {
            Some(uid) => {
                if uid == target {
                    return Some(k);
                }
            },
            None => {},
        }
        k = k + 1;
    }
    None
}

/// The error when the template's user is no longer stored.
pub fn user_not_found_error() -> (e: FingerprintError)
    ensures
        e matches FingerprintError::SdkError(m) && m@
            == "Enrolled user not found in Neurotec database. Re-enroll required."@,
{
    FingerprintError::SdkError(String::from_str("Enrolled user not found in Neurotec database. Re-enroll required."))
}

/// The result of a 1:1 verification: a positive score is a match (negative
/// scores are reported as 0), and the template's user is named on a match.
pub fn verification_result(score: i32, user_id: &str) -> (m: MatchResult)
    ensures
        match_view(m) == (score > 0, (if score > 0 { score as u32 } else { 0u32 }), if score > 0 {
            Some(user_id@)
        } else {
            None
        }),
{
    MatchResult {
        matched: score > 0,
        score: if score > 0 { score as u32 } else { 0 },
        user_id: if score > 0 { Some(String::from_str(user_id)) } else { None },
    }
}

/// 1:N search is not available in the free SDK.
pub fn identify_unsupported() -> (e: FingerprintError)
    ensures
        e matches FingerprintError::SdkError(m) && m@
            == "1:N identification is not supported by the Neurotechnology Free FFV SDK. Use verifyUser() for 1:1 matching, or upgrade to VeriFinger SDK."@,
{
    FingerprintError::SdkError(
        String::from_str(
            "1:N identification is not supported by the Neurotechnology Free FFV SDK. Use verifyUser() for 1:1 matching, or upgrade to VeriFinger SDK.",
        ),
    )
}

/// Directories looked in for the SDK, in order: the NEUROTEC_SDK_PATH
/// directory, the known install paths, the executable's directory, and the
/// working directory.
pub fn sdk_dir_candidates(env_dir: Option<String>, exe_dir: Option<String>) -> (v: Vec<String>)
    ensures
        v@.map_values(|s: String| s@) == (match env_dir {
            Some(d) => seq![d@],
            None => Seq::<Seq<char>>::empty(),
        }) + seq![
            "D:/Projects/API/Fingerprint-Rust/neurotechnology-sdk/FreeFingerprintVerification_3_0_SDK/Bin/Win64_x64"@,
            "C:/Neurotechnology/FFV SDK/Bin/Win64_x64"@,
        ] + (match exe_dir {
            Some(d) => seq![d@],
            None => Seq::<Seq<char>>::empty(),
        }) + seq!["."@],
{
    let mut v: Vec<String> = Vec::new();
    let ghost e1 = match env_dir {
        Some(ref d) => seq![d@],
        None => Seq::<Seq<char>>::empty(),
    };
    let ghost e2 = match exe_dir {
        Some(ref d) => seq![d@],
        None => Seq::<Seq<char>>::empty(),
    };
    match env_dir {
        Some(d) => v.push(d),
        None => {},
    }
    assert(v@.map_values(|s: String| s@) =~= e1);
    v.push(
        String::from_str(
            "D:/Projects/API/Fingerprint-Rust/neurotechnology-sdk/FreeFingerprintVerification_3_0_SDK/Bin/Win64_x64",
        ),
    );
    v.push(String::from_str("C:/Neurotechnology/FFV SDK/Bin/Win64_x64"));
    let ghost mid = v@;
    match exe_dir {
        Some(d) => v.push(d),
        None => {},
    }
    v.push(String::from_str("."));
    assert(v@.map_values(|s: String| s@) =~= e1 + seq![
        "D:/Projects/API/Fingerprint-Rust/neurotechnology-sdk/FreeFingerprintVerification_3_0_SDK/Bin/Win64_x64"@,
        "C:/Neurotechnology/FFV SDK/Bin/Win64_x64"@,
    ] + e2 + seq!["."@]);
    v
}

/// The error when the SDK is in none of the candidate directories.
pub fn sdk_not_found_error() -> (e: FingerprintError)
    ensures
        e matches FingerprintError::SdkError(m) && m@
            == "Neurotechnology FFV SDK not found. Set NEUROTEC_SDK_PATH to the Bin/Win64_x64 directory."@,
{
    FingerprintError::SdkError(
        String::from_str(
            "Neurotechnology FFV SDK not found. Set NEUROTEC_SDK_PATH to the Bin/Win64_x64 directory.",
        ),
    )
}

} // verus!
