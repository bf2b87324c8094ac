//! Windows Biometric Framework (WBF) vendor: the decisions around the WinBio
//! calls. Works with any WBF-enrolled fingerprint scanner.
//!
//! Limitations vs direct vendor SDKs:
//! - MOC (Match-on-Chip) sensors may not return raw image data
//! - Enroll/verify/identify use the Windows biometric database, not
//!   app-managed templates
use vstd::prelude::*;
use vstd::slice::slice_to_vec;
use vstd::string::StringExecFns;
use crate::outside::{utf16_lossy, utf16_to_string_lossy};
use crate::sdk::errors::FingerprintError;
use crate::sdk::types::{DeviceInfo, ScanResult};
use crate::sdk::vendors::secugen::session::is_sdk_error;
use crate::text::{decimal, hex_fixed, to_hex_fixed, u64_to_decimal};

verus! {

pub const WINBIO_TYPE_FINGERPRINT: u32 = 8u32;
pub const WINBIO_POOL_SYSTEM: u32 = 1u32;
pub const WINBIO_FLAG_RAW: u32 = 1u32;
pub const WINBIO_FLAG_DEFAULT: u32 = 0u32;

pub const WINBIO_NO_PURPOSE_AVAILABLE: u8 = 0u8;
pub const WINBIO_PURPOSE_VERIFY: u8 = 1u8;
pub const WINBIO_PURPOSE_AUDIT: u8 = 128u8;

pub const WINBIO_DATA_FLAG_RAW: u8 = 1u8;
pub const WINBIO_DATA_FLAG_INTERMEDIATE: u8 = 2u8;
pub const WINBIO_DATA_FLAG_PROCESSED: u8 = 4u8;

pub const S_OK: i32 = 0i32;
/// 0x80098001
pub const WINBIO_E_ENROLLMENT_IN_PROGRESS: i32 = -2146861055i32;
/// 0x80098004
pub const WINBIO_E_BAD_CAPTURE: i32 = -2146861052i32;
/// 0x80098005
pub const WINBIO_E_NO_MATCH: i32 = -2146861051i32;
/// 0x80098009
pub const WINBIO_E_UNSUPPORTED_PURPOSE: i32 = -2146861047i32;
/// 0x80070005
pub const E_ACCESSDENIED: i32 = -2147024891i32;
pub const WINBIO_I_MORE_DATA: i32 = 589825i32;

/// Size of a WINBIO_IDENTITY: a type tag and a union of GUID/SID.
pub const WINBIO_IDENTITY_SIZE: usize = 76usize;

/// An open WinBio session on one biometric unit.
#[derive(Debug, Clone, Copy, PartialEq, Eq)]
pub struct WbfState {
    pub session: usize,
    pub unit_id: u32,
}

/// Scanner state of the WBF vendor: the open session, if any.
#[derive(Debug)]
pub struct WbfScanner {
    pub state: Option<WbfState>,
}

impl WbfScanner {
    pub fn new() -> (s: Self)
        ensures
            s.state is None,
    {
        WbfScanner { state: None }
    }

    /// The open session, for an operation that needs one.
    pub fn session(&self) -> (r: Result<WbfState, FingerprintError>)
        ensures
            self.state matches Some(st) ==> r == Ok::<WbfState, FingerprintError>(st),
            self.state is None ==> r == Err::<WbfState, FingerprintError>(
                FingerprintError::NotInitialized,
            ),
    {
        match self.state {
            Some(st) => Ok(st),
            None => Err(FingerprintError::NotInitialized),
        }
    }

    /// Records the session opened by `init`.
    pub fn attach(&mut self, session: usize, unit_id: u32)
        ensures
            final(self).state == Some(WbfState { session, unit_id }),
    {
        self.state = Some(WbfState { session, unit_id });
    }

    /// Forgets the session (to close it), as `disconnect` does.
    pub fn detach(&mut self) -> (r: Option<WbfState>)
        ensures
            r == old(self).state,
            final(self).state is None,
    {
        self.state.take()
    }
}

/// The description of a WinBio result code.
pub open spec fn spec_hresult_msg(hr: i32) -> Seq<char> {
    if hr == WINBIO_E_BAD_CAPTURE {
        "Bad capture (finger not placed correctly)"@
    } else if hr == WINBIO_E_NO_MATCH {
        "No match found"@
    } else if hr == WINBIO_E_ENROLLMENT_IN_PROGRESS {
        "Enrollment already in progress"@
    } else if hr == WINBIO_E_UNSUPPORTED_PURPOSE {
        "Unsupported capture purpose (sensor may not support raw capture)"@
    } else {
        "WinBio error 0x"@ + hex_fixed((hr as u32) as nat, 8)
    }
}

pub fn hresult_msg(hr: i32) -> (text: String)
    ensures
        text@ == spec_hresult_msg(hr),
{
    if hr == WINBIO_E_BAD_CAPTURE {
        String::from_str("Bad capture (finger not placed correctly)")
    } else if hr == WINBIO_E_NO_MATCH {
        String::from_str("No match found")
    } else if hr == WINBIO_E_ENROLLMENT_IN_PROGRESS {
        String::from_str("Enrollment already in progress")
    } else if hr == WINBIO_E_UNSUPPORTED_PURPOSE {
        String::from_str("Unsupported capture purpose (sensor may not support raw capture)")
    } else {
        let mut s = String::from_str("WinBio error 0x");
        let digits = to_hex_fixed((hr as u32) as u64, 8);
        s.append(digits.as_str());
        s
    }
}

/// Number of UTF-16 units before the first NUL (all of them when none).
pub open spec fn wide_len(wide: Seq<u16>) -> nat
    decreases wide.len(),
{
    if wide.len() == 0 || wide[0] == 0u16 {
        0
    } else {
        1 + wide_len(wide.drop_first())
    }
}

proof fn lemma_wide_len(wide: Seq<u16>, k: int)
    requires
        0 <= k <= wide.len(),
        forall|j: int| 0 <= j < k ==> wide[j] != 0u16,
        k == wide.len() || wide[k] == 0u16,
    ensures
        wide_len(wide) == k,
    decreases k,
{
    if k > 0 {
        lemma_wide_len(wide.drop_first(), k - 1);
    }
}

/// Decodes a NUL-terminated UTF-16 field of a unit schema.
pub fn wide_to_string(wide: &[u16]) -> (s: String)
    ensures
        s@ == utf16_lossy(wide@.take(wide_len(wide@) as int)),
{
    let mut end: usize = 0;
    while end < wide.len() && wide[end] != 0u16
        invariant
            end <= wide@.len(),
            forall|j: int| 0 <= j < end ==> wide@[j] != 0u16,
        decreases wide@.len() - end,
    {
        end = end + 1;
    }
    proof {
        lemma_wide_len(wide@, end as int);
    }
    let prefix = vstd::slice::slice_subrange(wide, 0, end);
    assert(prefix@ =~= wide@.take(end as int));
    utf16_to_string_lossy(prefix)
}

/// The outcome of enumerating the biometric units: no fingerprint unit (or a
/// failed enumeration) means no device.
pub fn enumeration_outcome(hr: i32, count: usize) -> (r: Result<(), FingerprintError>)
    ensures
        (hr == S_OK && count > 0) ==> r is Ok,
        !(hr == S_OK && count > 0) ==> r == Err::<(), FingerprintError>(
            FingerprintError::DeviceNotFound,
        ),
{
    if hr != S_OK || count == 0 {
        Err(FingerprintError::DeviceNotFound)
    } else {
        Ok(())
    }
}

/// One way of opening a session: its flags, and whether it targets the
/// enumerated unit (otherwise all units).
#[derive(Debug, Clone, Copy, PartialEq, Eq)]
pub struct SessionAttempt {
    pub flags: u32,
    pub target_unit: bool,
}

/// The session configurations tried, in order of capability: raw access to
/// the unit, default access to the unit, raw access to all units, default
/// access to all units.
pub fn session_attempts() -> (v: Vec<SessionAttempt>)
    ensures
        v@ == seq![
            SessionAttempt { flags: WINBIO_FLAG_RAW, target_unit: true },
            SessionAttempt { flags: WINBIO_FLAG_DEFAULT, target_unit: true },
            SessionAttempt { flags: WINBIO_FLAG_RAW, target_unit: false },
            SessionAttempt { flags: WINBIO_FLAG_DEFAULT, target_unit: false },
        ],
{
    let mut v = Vec::new();
    v.push(SessionAttempt { flags: WINBIO_FLAG_RAW, target_unit: true });
    v.push(SessionAttempt { flags: WINBIO_FLAG_DEFAULT, target_unit: true });
    v.push(SessionAttempt { flags: WINBIO_FLAG_RAW, target_unit: false });
    v.push(SessionAttempt { flags: WINBIO_FLAG_DEFAULT, target_unit: false });
    assert(v@ =~= seq![
        SessionAttempt { flags: WINBIO_FLAG_RAW, target_unit: true },
        SessionAttempt { flags: WINBIO_FLAG_DEFAULT, target_unit: true },
        SessionAttempt { flags: WINBIO_FLAG_RAW, target_unit: false },
        SessionAttempt { flags: WINBIO_FLAG_DEFAULT, target_unit: false },
    ]);
    v
}

/// The error when no session configuration could be opened (`hr` is the
/// last attempt's result).
pub fn session_open_failure(hr: i32) -> (e: FingerprintError)
    ensures
        e matches FingerprintError::SdkError(m) && m@ == "WinBioOpenSession failed: "@
            + spec_hresult_msg(hr),
{
    let mut s = String::from_str("WinBioOpenSession failed: ");
    let msg = hresult_msg(hr);
    s.append(msg.as_str());
    FingerprintError::SdkError(s)
}

/// The device description of the enumerated unit: the manufacturer as vendor
/// (or "Windows Biometric" when empty), the model (or the description when
/// the model is empty), and `major.minor` firmware; WBF exposes no geometry.
pub fn unit_device_info(
    manufacturer: String,
    model: String,
    description: String,
    serial: String,
    firmware_major: u32,
    firmware_minor: u32,
) -> (info: DeviceInfo)
    ensures
        info.vendor@ == (if manufacturer@.len() == 0 {
            "Windows Biometric"@
        } else {
            manufacturer@
        }),
        info.model@ == (if model@.len() == 0 {
            description@
        } else {
            model@
        }),
        info.serial@ == serial@,
        info.firmware@ == decimal(firmware_major as nat) + "."@ + decimal(firmware_minor as nat),
        info.image_width == 0,
        info.image_height == 0,
        info.dpi == 0,
{
    let display_model = if model.as_str().unicode_len() == 0 {
        description
    } else {
        model
    };
    let display_vendor = if manufacturer.as_str().unicode_len() == 0 {
        String::from_str("Windows Biometric")
    } else {
        manufacturer
    };
    let mut firmware = u64_to_decimal(firmware_major as u64);
    firmware.append(".");
    let minor = u64_to_decimal(firmware_minor as u64);
    firmware.append(minor.as_str());
    DeviceInfo {
        vendor: display_vendor,
        model: display_model,
        serial,
        firmware,
        image_width: 0,
        image_height: 0,
        dpi: 0,
    }
}

/// The outcome of a capture, which WBF performs as an identification: on
/// success the WINBIO_IDENTITY stands in for the template (MOC sensors give
/// no image, and a recognised finger counts as full quality).
pub fn identify_capture_outcome(hr: i32, identity: &[u8], reject_detail: u32, timestamp: i64) -> (r:
    Result<ScanResult, FingerprintError>)
    ensures
        hr == S_OK ==> (r matches Ok(scan) && scan.image@.len() == 0 && scan.quality == 100
            && scan.template@ == identity@ && scan.timestamp == timestamp),
        hr == WINBIO_E_NO_MATCH ==> is_sdk_error(
            r,
            "Finger not recognized. Enroll via Windows Hello first (Settings > Accounts > Sign-in options > Fingerprint)."@,
        ),
        hr == WINBIO_E_BAD_CAPTURE ==> is_sdk_error(
            r,
            "Bad capture \u{2014} try again (reject detail: "@ + decimal(reject_detail as nat) + ")"@,
        ),
        (hr != S_OK && hr != WINBIO_E_NO_MATCH && hr != WINBIO_E_BAD_CAPTURE) ==> is_sdk_error(
            r,
            "WinBioIdentify failed: "@ + spec_hresult_msg(hr) + " (reject: "@ + decimal(
                reject_detail as nat,
            ) + ")"@,
        ),
{
    if hr == S_OK {
        return Ok(
            ScanResult { image: Vec::new(), quality: 100, template: slice_to_vec(identity), timestamp },
        );
    }
    if hr == WINBIO_E_NO_MATCH {
        return Err(
            FingerprintError::SdkError(
                String::from_str(
                    "Finger not recognized. Enroll via Windows Hello first (Settings > Accounts > Sign-in options > Fingerprint).",
                ),
            ),
        );
    }
    let detail = u64_to_decimal(reject_detail as u64);
    if hr == WINBIO_E_BAD_CAPTURE {
        let mut s = String::from_str("Bad capture \u{2014} try again (reject detail: ");
        s.append(detail.as_str());
        s.append(")");
        return Err(FingerprintError::SdkError(s));
    }
    let mut s = String::from_str("WinBioIdentify failed: ");
    let msg = hresult_msg(hr);
    s.append(msg.as_str());
    s.append(" (reject: ");
    s.append(detail.as_str());
    s.append(")");
    Err(FingerprintError::SdkError(s))
}

/// The purpose/data-flag combinations a raw sample capture tries, in order.
pub fn sample_strategies() -> (v: Vec<(u8, u8)>)
    ensures
        v@ == seq![
            (WINBIO_NO_PURPOSE_AVAILABLE, WINBIO_DATA_FLAG_RAW),
            (WINBIO_PURPOSE_AUDIT, WINBIO_DATA_FLAG_RAW),
            (WINBIO_NO_PURPOSE_AVAILABLE, WINBIO_DATA_FLAG_PROCESSED),
            (WINBIO_PURPOSE_VERIFY, WINBIO_DATA_FLAG_PROCESSED),
        ],
{
    let mut v = Vec::new();
    v.push((WINBIO_NO_PURPOSE_AVAILABLE, WINBIO_DATA_FLAG_RAW));
    v.push((WINBIO_PURPOSE_AUDIT, WINBIO_DATA_FLAG_RAW));
    v.push((WINBIO_NO_PURPOSE_AVAILABLE, WINBIO_DATA_FLAG_PROCESSED));
    v.push((WINBIO_PURPOSE_VERIFY, WINBIO_DATA_FLAG_PROCESSED));
    assert(v@ =~= seq![
        (WINBIO_NO_PURPOSE_AVAILABLE, WINBIO_DATA_FLAG_RAW),
        (WINBIO_PURPOSE_AUDIT, WINBIO_DATA_FLAG_RAW),
        (WINBIO_NO_PURPOSE_AVAILABLE, WINBIO_DATA_FLAG_PROCESSED),
        (WINBIO_PURPOSE_VERIFY, WINBIO_DATA_FLAG_PROCESSED),
    ]);
    v
}

/// What a raw sample capture does after one strategy's attempt.
#[derive(Debug, Clone, PartialEq, Eq)]
pub enum SampleStep {
    /// The sample was captured.
    Captured,
    /// The sensor rejected the sample; give up with this error.
    Failed(FingerprintError),
    /// Try the next strategy; `all_denied` says whether every attempt so far
    /// was refused with access denied.
    Continue { all_denied: bool },
}

pub fn sample_step(all_denied: bool, hr: i32, reject_detail: u32) -> (step: SampleStep)
    ensures
        hr == S_OK ==> step == SampleStep::Captured,
        hr == WINBIO_E_BAD_CAPTURE ==> (step matches SampleStep::Failed(
            FingerprintError::SdkError(m),
        ) && m@ == "Bad capture (reject detail: "@ + decimal(reject_detail as nat) + ")"@),
        (hr != S_OK && hr != WINBIO_E_BAD_CAPTURE) ==> step == (SampleStep::Continue {
            all_denied: all_denied && hr == E_ACCESSDENIED,
        }),
{
    if hr == S_OK {
        return SampleStep::Captured;
    }
    if hr == WINBIO_E_BAD_CAPTURE {
        let mut s = String::from_str("Bad capture (reject detail: ");
        let d = u64_to_decimal(reject_detail as u64);
        s.append(d.as_str());
        s.append(")");
        return SampleStep::Failed(FingerprintError::SdkError(s));
    }
    SampleStep::Continue { all_denied: all_denied && hr == E_ACCESSDENIED }
}

/// The outcome once every strategy failed: `None` when all were refused with
/// access denied (a match-on-chip sensor), an error otherwise.
pub fn samples_exhausted(all_denied: bool) -> (r: Option<FingerprintError>)
    ensures
        all_denied ==> r is None,
        !all_denied ==> (r matches Some(FingerprintError::SdkError(m)) && m@
            == "WinBioCaptureSample failed with all strategies"@),
{
    if all_denied {
        None
    } else {
        Some(FingerprintError::SdkError(String::from_str("WinBioCaptureSample failed with all strategies")))
    }
}

/// Quality of a captured BIR: the header's quality when the sample holds a
/// whole header and the quality is not negative, otherwise 0.
pub fn bir_quality(sample_size: usize, header_size: usize, header_quality: i8) -> (q: u8)
    ensures
        q == (if sample_size >= header_size && header_quality >= 0 {
            header_quality as u8
        } else {
            0u8
        }),
{
    if sample_size >= header_size && header_quality >= 0 {
        header_quality as u8
    } else {
        0
    }
}

/// Whether an enrolment sample replaces the best one so far; WBF compares
/// the quality read as a signed byte, and the best starts at -1.
pub fn wbf_keeps_sample(best_quality: i8, quality: u8) -> (keep: bool)
    ensures
        keep == ((quality as i8) > best_quality),
{
    (quality as i8) > best_quality
}

/// Template matching is not available through WBF.
pub fn verify_unsupported() -> (e: FingerprintError)
    ensures
        e matches FingerprintError::SdkError(m) && m@
            == "WBF verify requires Windows biometric enrollment. Use a vendor-specific SDK for template-based matching."@,
{
    FingerprintError::SdkError(
        String::from_str(
            "WBF verify requires Windows biometric enrollment. Use a vendor-specific SDK for template-based matching.",
        ),
    )
}

/// 1:N search is not available through WBF.
pub fn identify_unsupported() -> (e: FingerprintError)
    ensures
        e matches FingerprintError::SdkError(m) && m@
            == "WBF identify requires Windows biometric enrollment. Use a vendor-specific SDK for template-based matching."@,
{
    FingerprintError::SdkError(
        String::from_str(
            "WBF identify requires Windows biometric enrollment. Use a vendor-specific SDK for template-based matching.",
        ),
    )
}

/// Standalone quality scoring is not available through WBF.
pub fn quality_unsupported() -> (e: FingerprintError)
    ensures
        e matches FingerprintError::SdkError(m) && m@
            == "WBF does not expose a standalone quality scoring API."@,
{
    FingerprintError::SdkError(String::from_str("WBF does not expose a standalone quality scoring API."))
}

} // verus!
