//! The process-wide scanner slot behind the JavaScript API: one connected
//! scanner at a time, and the defaults applied to the callers' options.
use vstd::prelude::*;
use vstd::string::StringExecFns;
use crate::sdk::errors::FingerprintError;
use crate::sdk::types::{CaptureOptions, ScannerStatusInfo};
use crate::sdk::vendors::secugen::constants::{DEFAULT_MIN_QUALITY, DEFAULT_TIMEOUT_MS};
use crate::sdk::vendors::secugen::session::is_sdk_error;

verus! {

/// Whether `init` may go ahead: only while no scanner is connected.
pub open spec fn spec_slot_free<S>(slot: Option<S>) -> bool {
    slot is None
}

/// The slot once `scanner` has been offered to it: taken when free, else
/// unchanged.
pub open spec fn slot_after_install<S>(slot: Option<S>, scanner: S) -> Option<S> {
    if slot is None {
        Some(scanner)
    } else {
        slot
    }
}

/// The slot once its scanner has been taken out to be disconnected.
pub open spec fn slot_after_release<S>(slot: Option<S>) -> Option<S> {
    None
}

/// Whatever was connected, once it has been disconnected a new `init` may go
/// ahead and its scanner is the one connected: a scanner can be
/// disconnected and initialised again without restarting. And while one is
/// connected, another `init` leaves it in place.
pub proof fn law_init_after_disconnect<S>(slot: Option<S>, scanner: S)
    ensures
        spec_slot_free(slot_after_release(slot)),
        slot_after_install(slot_after_release(slot), scanner) == Some(scanner),
        slot is Some ==> slot_after_install(slot, scanner) == slot,
{
}

/// Refuses to start an `init` while a scanner is connected.
pub fn ensure_slot_free<S>(slot: &Option<S>) -> (r: Result<(), FingerprintError>)
    ensures
        spec_slot_free(*slot) ==> r is Ok,
        !spec_slot_free(*slot) ==> is_sdk_error(
            r,
            "Scanner already initialized; call disconnectScanner() first"@,
        ),
{
    match slot {
        None => Ok(()),
        Some(_) => Err(
            FingerprintError::SdkError(
                String::from_str("Scanner already initialized; call disconnectScanner() first"),
            ),
        ),
    }
}

/// Installs a freshly initialised scanner. If another caller connected one
/// meanwhile, the slot is left as it is and the new scanner is handed back
/// (to be dropped, which disconnects it) with an error.
pub fn install_scanner<S>(slot: &mut Option<S>, scanner: S) -> (r: Result<(), (S, FingerprintError)>)
    ensures
        *final(slot) == slot_after_install(*old(slot), scanner),
        spec_slot_free(*old(slot)) ==> r is Ok && *final(slot) == Some(scanner),
        !spec_slot_free(*old(slot)) ==> *final(slot) == *old(slot) && (r matches Err((s, e)) && s
            == scanner && (e matches FingerprintError::SdkError(m) && m@
            == "Scanner already initialized by concurrent call; this attempt was discarded"@)),
{
    if slot.is_some() {
        return Err(
            (
                scanner,
                FingerprintError::SdkError(
                    String::from_str(
                        "Scanner already initialized by concurrent call; this attempt was discarded",
                    ),
                ),
            ),
        );
    }
    *slot = Some(scanner);
    Ok(())
}

/// The connected scanner, for an operation that needs one.
pub fn active_scanner<S>(slot: &Option<S>) -> (r: Result<&S, FingerprintError>)
    ensures
        slot matches Some(s) ==> r == Ok::<&S, FingerprintError>(s),
        slot is None ==> r == Err::<&S, FingerprintError>(FingerprintError::NotInitialized),
{
    match slot {
        Some(s) => Ok(s),
        None => Err(FingerprintError::NotInitialized),
    }
}

/// Takes the connected scanner out of the slot (to disconnect it).
pub fn release_scanner<S>(slot: &mut Option<S>) -> (r: Option<S>)
    ensures
        r == *old(slot),
        *final(slot) == slot_after_release(*old(slot)),
{
    slot.take()
}

/// The status reported to JavaScript: connected (to the SecuGen Hamster
/// Plus the SDK reports) while the slot holds a scanner.
pub fn scanner_status<S>(slot: &Option<S>) -> (info: ScannerStatusInfo)
    ensures
        slot is Some ==> info.status@ == "Connected"@ && (info.vendor matches Some(v) && v@
            == "SecuGen"@) && (info.model matches Some(m) && m@ == "Hamster Plus"@),
        slot is None ==> info.status@ == "Disconnected"@ && info.vendor is None && info.model is None,
{
    match slot {
        Some(_) => ScannerStatusInfo {
            status: String::from_str("Connected"),
            vendor: Some(String::from_str("SecuGen")),
            model: Some(String::from_str("Hamster Plus")),
        },
        None => ScannerStatusInfo {
            status: String::from_str("Disconnected"),
            vendor: None,
            model: None,
        },
    }
}

/// Timeout and minimum quality of a capture, the defaults filling in what
/// the caller left out.
pub fn capture_settings(options: Option<CaptureOptions>) -> (r: (u32, u8))
    ensures
        r.0 == match options {
            Some(o) => match o.timeout_ms {
                Some(t) => t,
                None => DEFAULT_TIMEOUT_MS,
            },
            None => DEFAULT_TIMEOUT_MS,
        },
        r.1 == match options {
            Some(o) => match o.min_quality {
                Some(q) => q,
                None => DEFAULT_MIN_QUALITY,
            },
            None => DEFAULT_MIN_QUALITY,
        },
{
    let opts = match options {
        Some(o) => o,
        None => CaptureOptions { timeout_ms: None, min_quality: None, auto_capture: None },
    };
    let timeout = match opts.timeout_ms {
        Some(t) => t,
        None => DEFAULT_TIMEOUT_MS,
    };
    let quality = match opts.min_quality {
        Some(q) => q,
        None => DEFAULT_MIN_QUALITY,
    };
    (timeout, quality)
}

/// The sample count passed to a backend's enrolment: zero (the backend's
/// default) unless the caller asked for a number.
pub fn enroll_sample_request(samples: Option<u8>) -> (count: u8)
    ensures
        count == match samples {
            Some(n) => n,
            None => 0u8,
        },
{
    match samples {
        Some(n) => n,
        None => 0,
    }
}

/// The `[SDK_ERROR]` report for a blocking task that did not complete.
pub fn join_failure_report(is_panic: bool, is_cancelled: bool) -> (text: String)
    ensures
        is_panic ==> text@ == "[SDK_ERROR] Vendor library panicked during operation"@,
        !is_panic && is_cancelled ==> text@ == "[SDK_ERROR] Operation cancelled"@,
        !is_panic && !is_cancelled ==> text@ == "[SDK_ERROR] Operation aborted"@,
{
    if is_panic {
        String::from_str("[SDK_ERROR] Vendor library panicked during operation")
    } else if is_cancelled {
        String::from_str("[SDK_ERROR] Operation cancelled")
    } else {
        String::from_str("[SDK_ERROR] Operation aborted")
    }
}

} // verus!
