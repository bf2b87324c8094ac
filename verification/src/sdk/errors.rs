//! Errors reported by every scanner backend, each with a machine-readable code.
use vstd::prelude::*;
use vstd::string::StringExecFns;
use crate::text::{decimal, u64_to_decimal};

verus! {

#[derive(Debug, Clone, PartialEq, Eq)]
pub enum FingerprintError {
    DeviceNotFound,
    CaptureTimeout(u32),
    LowQuality { got: u8, min: u8 },
    MatchFailed,
    SdkError(String),
    UnsupportedVendor(String),
    NotInitialized,
}

/// The machine-readable code of an error.
pub open spec fn error_code(e: FingerprintError) -> Seq<char> {
    match e {
        FingerprintError::DeviceNotFound => "DEVICE_NOT_FOUND"@,
        FingerprintError::CaptureTimeout(_) => "CAPTURE_TIMEOUT"@,
        FingerprintError::LowQuality { .. } => "LOW_QUALITY"@,
        FingerprintError::MatchFailed => "MATCH_FAILED"@,
        FingerprintError::SdkError(_) => "SDK_ERROR"@,
        FingerprintError::UnsupportedVendor(_) => "UNSUPPORTED_VENDOR"@,
        FingerprintError::NotInitialized => "NOT_INITIALIZED"@,
    }
}

/// The human-readable description of an error.
pub open spec fn error_message(e: FingerprintError) -> Seq<char> {
    match e {
        FingerprintError::DeviceNotFound => "Device not found"@,
        FingerprintError::CaptureTimeout(ms) => "Capture timed out after "@ + decimal(ms as nat)
            + "ms"@,
        FingerprintError::LowQuality { got, min } => "Image quality too low: "@ + decimal(
            got as nat,
        ) + " (minimum: "@ + decimal(min as nat) + ")"@,
        FingerprintError::MatchFailed => "Match failed"@,
        FingerprintError::SdkError(s) => "SDK error: "@ + s@,
        FingerprintError::UnsupportedVendor(s) => "Unsupported vendor: "@ + s@,
        FingerprintError::NotInitialized => "Scanner not initialized"@,
    }
}

/// The text a JavaScript caller receives: `[CODE] message`.
pub open spec fn error_report(e: FingerprintError) -> Seq<char> {
    "["@ + error_code(e) + "] "@ + error_message(e)
}

impl FingerprintError {
    pub fn code(&self) -> (code: &'static str)
        ensures
            code@ == error_code(*self),
    {
        match self {
            FingerprintError::DeviceNotFound => "DEVICE_NOT_FOUND",
            FingerprintError::CaptureTimeout(_) => "CAPTURE_TIMEOUT",
            FingerprintError::LowQuality { .. } => "LOW_QUALITY",
            FingerprintError::MatchFailed => "MATCH_FAILED",
            FingerprintError::SdkError(_) => "SDK_ERROR",
            FingerprintError::UnsupportedVendor(_) => "UNSUPPORTED_VENDOR",
            FingerprintError::NotInitialized => "NOT_INITIALIZED",
        }
    }

    /// The description of the error (what `to_string` gives).
    pub fn message(&self) -> (text: String)
        ensures
            text@ == error_message(*self),
    {
        match self {
            FingerprintError::DeviceNotFound => String::from_str("Device not found"),
            FingerprintError::CaptureTimeout(ms) => {
                let mut s = String::from_str("Capture timed out after ");
                let digits = u64_to_decimal(*ms as u64);
                s.append(digits.as_str());
                s.append("ms");
                s
            },
            FingerprintError::LowQuality { got, min } => {
                let mut s = String::from_str("Image quality too low: ");
                let g = u64_to_decimal(*got as u64);
                s.append(g.as_str());
                s.append(" (minimum: ");
                let m = u64_to_decimal(*min as u64);
                s.append(m.as_str());
                s.append(")");
                s
            },
            FingerprintError::MatchFailed => String::from_str("Match failed"),
            FingerprintError::SdkError(detail) => {
                let mut s = String::from_str("SDK error: ");
                s.append(detail.as_str());
                s
            },
            FingerprintError::UnsupportedVendor(name) => {
                let mut s = String::from_str("Unsupported vendor: ");
                s.append(name.as_str());
                s
            },
            FingerprintError::NotInitialized => String::from_str("Scanner not initialized"),
        }
    }

    /// The `[CODE] message` text handed to JavaScript callers.
    pub fn report(&self) -> (text: String)
        ensures
            text@ == error_report(*self),
    {
        let mut s = String::from_str("[");
        s.append(self.code());
        s.append("] ");
        let m = self.message();
        s.append(m.as_str());
        s
    }
}

} // verus!
