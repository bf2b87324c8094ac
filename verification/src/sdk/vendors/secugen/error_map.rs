//! Maps SecuGen SGFPLIB return codes to the public `FingerprintError`.
//! Shared by the Windows bridge client and the Linux/macOS native client.
use vstd::prelude::*;
use vstd::string::StringExecFns;
use crate::sdk::errors::FingerprintError;
use crate::sdk::vendors::secugen::ffi_types::{
    SGFDX_ERROR_DEVICE_NOT_FOUND, SGFDX_ERROR_DLLLOAD_FAILED_DRV, SGFDX_ERROR_TIME_OUT,
};
use crate::text::{i64_to_decimal, signed_decimal};

verus! {

/// `e` is the error the library path reports for a non-zero SGFPLIB code.
pub open spec fn is_native_error(code: i64, default_timeout_ms: u32, e: FingerprintError) -> bool {
    if code == SGFDX_ERROR_DEVICE_NOT_FOUND {
        e == FingerprintError::DeviceNotFound
    } else if code == SGFDX_ERROR_TIME_OUT {
        e == FingerprintError::CaptureTimeout(default_timeout_ms)
    } else if code == SGFDX_ERROR_DLLLOAD_FAILED_DRV {
        e matches FingerprintError::SdkError(m) && m@
            == "Driver library load failed (sgfdu*.dll / sgfdu*.so missing or wrong directory)"@
    } else {
        e matches FingerprintError::SdkError(m) && m@ == "SGFPLIB error code: "@ + signed_decimal(
            code as int,
        )
    }
}

/// Converts a non-zero SGFPLIB error code (returned by SGFPM_* calls) into a
/// `FingerprintError`. Code 0 means success and is not expected here; it
/// falls through to the catch-all arm like any unknown code.
pub fn map_sdk_code(code: i64, default_timeout_ms: u32) -> (e: FingerprintError)
    ensures
        is_native_error(code, default_timeout_ms, e),
        code == SGFDX_ERROR_DEVICE_NOT_FOUND ==> e == FingerprintError::DeviceNotFound,
        code == SGFDX_ERROR_TIME_OUT ==> e == FingerprintError::CaptureTimeout(default_timeout_ms),
        code == SGFDX_ERROR_DLLLOAD_FAILED_DRV ==> (e matches FingerprintError::SdkError(m) && m@
            == "Driver library load failed (sgfdu*.dll / sgfdu*.so missing or wrong directory)"@),
        (code != SGFDX_ERROR_DEVICE_NOT_FOUND && code != SGFDX_ERROR_TIME_OUT && code
            != SGFDX_ERROR_DLLLOAD_FAILED_DRV) ==> (e matches FingerprintError::SdkError(m) && m@
            == "SGFPLIB error code: "@ + signed_decimal(code as int)),
{
    if code == SGFDX_ERROR_DEVICE_NOT_FOUND {
        FingerprintError::DeviceNotFound
    } else if code == SGFDX_ERROR_TIME_OUT {
        FingerprintError::CaptureTimeout(default_timeout_ms)
    } else if code == SGFDX_ERROR_DLLLOAD_FAILED_DRV {
        FingerprintError::SdkError(
            String::from_str(
                "Driver library load failed (sgfdu*.dll / sgfdu*.so missing or wrong directory)",
            ),
        )
    } else {
        let mut s = String::from_str("SGFPLIB error code: ");
        let d = i64_to_decimal(code);
        s.append(d.as_str());
        FingerprintError::SdkError(s)
    }
}

} // verus!
