//! The bridge's responses and the wiping of biometric bytes after each
//! command has been answered.
use vstd::prelude::*;
use vstd::string::StringExecFns;
use crate::outside::wipe_bytes;
use crate::bridge::ipc::{ipc_error_message, IpcLineError};
use crate::protocol::{BridgeCommand, BridgeResponse, ResponseData, TemplateEntry};
use crate::sdk::types::{DeviceInfo, MatchResult};
use crate::text::{decimal, is_blank, is_blank_text, u64_to_decimal};
use crate::sdk::vendors::secugen::ffi_types::{
    SGFDX_ERROR_DEVICE_NOT_FOUND, SGFDX_ERROR_DLLLOAD_FAILED_DRV, SGFDX_ERROR_TIME_OUT,
};
use crate::text::{i64_to_decimal, signed_decimal};

verus! {

/// `r` is an error response with exactly this code and message.
pub open spec fn is_error_response(r: BridgeResponse, code: Seq<char>, message: Seq<char>) -> bool {
    r matches BridgeResponse::Error { code: c, message: m } && c@ == code && m@ == message
}

pub fn err_response(code: &str, message: &str) -> (r: BridgeResponse)
    ensures
        is_error_response(r, code@, message@),
{
    BridgeResponse::Error { code: String::from_str(code), message: String::from_str(message) }
}

/// Code and message of the bridge's error response for a non-zero SGFPLIB
/// code.
pub open spec fn sdk_error_text(code: i64) -> (Seq<char>, Seq<char>) {
    if code == SGFDX_ERROR_DEVICE_NOT_FOUND {
        ("DEVICE_NOT_FOUND"@, "Device not found"@)
    } else if code == SGFDX_ERROR_TIME_OUT {
        ("CAPTURE_TIMEOUT"@, "Capture timed out"@)
    } else if code == SGFDX_ERROR_DLLLOAD_FAILED_DRV {
        ("SDK_ERROR"@, "Driver DLL load failed (sgfdu*.dll missing or wrong directory)"@)
    } else {
        ("SDK_ERROR"@, "SGFPLIB error code: "@ + signed_decimal(code as int))
    }
}

/// The error response for a non-zero SGFPLIB code.
pub fn map_sdk_error(code: i64) -> (r: BridgeResponse)
    ensures
        is_error_response(r, sdk_error_text(code).0, sdk_error_text(code).1),
        code == SGFDX_ERROR_DEVICE_NOT_FOUND ==> is_error_response(
            r,
            "DEVICE_NOT_FOUND"@,
            "Device not found"@,
        ),
        code == SGFDX_ERROR_TIME_OUT ==> is_error_response(r, "CAPTURE_TIMEOUT"@, "Capture timed out"@),
        code == SGFDX_ERROR_DLLLOAD_FAILED_DRV ==> is_error_response(
            r,
            "SDK_ERROR"@,
            "Driver DLL load failed (sgfdu*.dll missing or wrong directory)"@,
        ),
        (code != SGFDX_ERROR_DEVICE_NOT_FOUND && code != SGFDX_ERROR_TIME_OUT && code
            != SGFDX_ERROR_DLLLOAD_FAILED_DRV) ==> is_error_response(
            r,
            "SDK_ERROR"@,
            "SGFPLIB error code: "@ + signed_decimal(code as int),
        ),
{
    if code == SGFDX_ERROR_DEVICE_NOT_FOUND {
        err_response("DEVICE_NOT_FOUND", "Device not found")
    } else if code == SGFDX_ERROR_TIME_OUT {
        err_response("CAPTURE_TIMEOUT", "Capture timed out")
    } else if code == SGFDX_ERROR_DLLLOAD_FAILED_DRV {
        err_response("SDK_ERROR", "Driver DLL load failed (sgfdu*.dll missing or wrong directory)")
    } else {
        let mut message = String::from_str("SGFPLIB error code: ");
        let d = i64_to_decimal(code);
        message.append(d.as_str());
        BridgeResponse::Error { code: String::from_str("SDK_ERROR"), message }
    }
}

/// What a command leaves behind once its biometric byte buffers are wiped:
/// template bytes, image bytes and the templates of a 1:N search are
/// emptied; every other field, and every other command, is unchanged.
pub open spec fn wiped_command(before: BridgeCommand, after: BridgeCommand) -> bool {
    match before {
        BridgeCommand::Verify { user_id, template_data } => after matches BridgeCommand::Verify {
            user_id: u2,
            template_data: t2,
        } && u2 == user_id && t2@.len() == 0,
        BridgeCommand::Identify { templates } => after matches BridgeCommand::Identify {
            templates: t2,
        } && t2@.len() == templates@.len() && forall|i: int|
            0 <= i < t2@.len() ==> #[trigger] t2@[i].user_id == templates@[i].user_id
                && t2@[i].data@.len() == 0,
        BridgeCommand::GetQuality { image } => after matches BridgeCommand::GetQuality {
            image: i2,
        } && i2@.len() == 0,
        _ => after == before,
    }
}

/// Empties the template bytes of every entry, keeping the user ids.
fn wipe_entries(templates: &mut Vec<TemplateEntry>)
    ensures
        final(templates)@.len() == old(templates)@.len(),
        forall|i: int|
            0 <= i < final(templates)@.len() ==> #[trigger] final(templates)@[i].user_id == old(
                templates,
            )@[i].user_id && final(templates)@[i].data@.len() == 0,
{
    let mut rest: Vec<TemplateEntry> = Vec::new();
    std::mem::swap(&mut rest, templates);
    let ghost orig = rest@;
    assert(orig == old(templates)@);
    let total = rest.len();
    let mut out: Vec<TemplateEntry> = Vec::new();
    let mut k: usize = 0;
    while k < total
        invariant
            total == orig.len(),
            k <= orig.len(),
            rest@ == orig.skip(k as int),
            out@.len() == k,
            forall|i: int|
                0 <= i < k ==> #[trigger] out@[i].user_id == orig[i].user_id && out@[i].data@.len()
                    == 0,
        decreases rest@.len(),
    {
        let mut e = rest.remove(0);
        assert(e == orig[k as int]);
        wipe_bytes(&mut e.data);
        out.push(e);
        assert(rest@ =~= orig.skip(k + 1));
        k = k + 1;
    }
    *templates = out;
    assert forall|i: int| 0 <= i < templates@.len() implies #[trigger] templates@[i].user_id == orig[i].user_id
        && templates@[i].data@.len() == 0 by {
        assert(out@[i].user_id == orig[i].user_id);
    }
}

/// Wipes the biometric byte buffers carried by an incoming command before it
/// is dropped.
pub fn zeroize_command(cmd: &mut BridgeCommand)
    ensures
        wiped_command(*old(cmd), *final(cmd)),
{
    match cmd {
        BridgeCommand::Verify { template_data, .. } => wipe_bytes(template_data),
        BridgeCommand::Identify { templates } => wipe_entries(templates),
        BridgeCommand::GetQuality { image } => wipe_bytes(image),
        _ => {},
    }
}

/// What a response leaves behind once its biometric byte buffers are wiped:
/// a scan result loses its image and template bytes, a template its bytes;
/// every other field, and every other response, is unchanged.
pub open spec fn wiped_response(before: BridgeResponse, after: BridgeResponse) -> bool {
    match before {
        BridgeResponse::Success { data: ResponseData::ScanResult { image, quality, template, timestamp } } => after matches BridgeResponse::Success {
            data: ResponseData::ScanResult { image: i2, quality: q2, template: t2, timestamp: s2 },
        } && i2@.len() == 0 && t2@.len() == 0 && q2 == quality && s2 == timestamp,
        BridgeResponse::Success { data: ResponseData::Template { user_id, data, created_at } } => after matches BridgeResponse::Success {
            data: ResponseData::Template { user_id: u2, data: d2, created_at: c2 },
        } && u2 == user_id && d2@.len() == 0 && c2 == created_at,
        _ => after == before,
    }
}

/// Wipes the biometric byte buffers carried by a response after it has been
/// written out.
pub fn zeroize_response(resp: &mut BridgeResponse)
    ensures
        wiped_response(*old(resp), *final(resp)),
{
    match resp {
        BridgeResponse::Success { data } => match data {
            ResponseData::ScanResult { image, template, .. } => {
                wipe_bytes(image);
                wipe_bytes(template);
            },
            ResponseData::Template { data, .. } => wipe_bytes(data),
            _ => {},
        },
        _ => {},
    }
}


/// The response to any device command received before `init` succeeded.
pub fn not_initialized_response() -> (r: BridgeResponse)
    ensures
        is_error_response(r, "NOT_INITIALIZED"@, "Scanner not initialized"@),
{
    err_response("NOT_INITIALIZED", "Scanner not initialized")
}

/// The response to a line that is not a known command.
pub fn invalid_command_response(detail: &str) -> (r: BridgeResponse)
    ensures
        is_error_response(r, "SDK_ERROR"@, "Invalid command: "@ + detail@),
{
    let mut message = String::from_str("Invalid command: ");
    message.append(detail);
    BridgeResponse::Error { code: String::from_str("SDK_ERROR"), message }
}

/// The response when the SecuGen library cannot be loaded.
pub fn load_failure_response(detail: &str) -> (r: BridgeResponse)
    ensures
        is_error_response(r, "SDK_ERROR"@, "Failed to load DLL: "@ + detail@),
{
    let mut message = String::from_str("Failed to load DLL: ");
    message.append(detail);
    BridgeResponse::Error { code: String::from_str("SDK_ERROR"), message }
}

/// The response sent before the bridge exits on a framing violation.
pub fn framing_error_response(e: &IpcLineError) -> (r: BridgeResponse)
    ensures
        is_error_response(r, "SDK_ERROR"@, "IPC framing error: "@ + ipc_error_message(*e)),
{
    let mut message = String::from_str("IPC framing error: ");
    let detail = e.message();
    message.append(detail.as_str());
    BridgeResponse::Error { code: String::from_str("SDK_ERROR"), message }
}

/// The quality gate of a bridge capture: the SDK's reading, truncated to a
/// byte, must reach `min_quality`; the refusal quotes the untruncated reading.
pub fn capture_quality_response(quality: i64, min_quality: u8) -> (r: Result<u8, BridgeResponse>)
    ensures
        (quality as u8) >= min_quality ==> r == Ok::<u8, BridgeResponse>(quality as u8),
        (quality as u8) < min_quality ==> (r matches Err(e) && is_error_response(
            e,
            "LOW_QUALITY"@,
            "Image quality too low: "@ + signed_decimal(quality as int) + " (minimum: "@
                + decimal(min_quality as nat) + ")"@,
        )),
{
    let q = quality as u8;
    if q < min_quality {
        let mut message = String::from_str("Image quality too low: ");
        let got = i64_to_decimal(quality);
        message.append(got.as_str());
        message.append(" (minimum: ");
        let min = u64_to_decimal(min_quality as u64);
        message.append(min.as_str());
        message.append(")");
        Err(BridgeResponse::Error { code: String::from_str("LOW_QUALITY"), message })
    } else {
        Ok(q)
    }
}

/// The response to a 1:N search offered no templates.
pub fn no_templates_response() -> (r: BridgeResponse)
    ensures
        is_error_response(r, "MATCH_FAILED"@, "No templates provided"@),
{
    err_response("MATCH_FAILED", "No templates provided")
}

/// A 1:N search is answered without capturing when it is offered no
/// templates: with the refusal `no_templates_response` gives.
pub fn refuse_empty_search(templates: &[TemplateEntry]) -> (r: Option<BridgeResponse>)
    ensures
        templates@.len() == 0 ==> (r matches Some(resp) && is_error_response(
            resp,
            "MATCH_FAILED"@,
            "No templates provided"@,
        )),
        templates@.len() > 0 ==> r is None,
{
    if templates.len() == 0 {
        Some(no_templates_response())
    } else {
        None
    }
}

/// The response to an enrolment that kept no sample.
pub fn no_samples_response() -> (r: BridgeResponse)
    ensures
        is_error_response(r, "SDK_ERROR"@, "No valid samples captured"@),
{
    err_response("SDK_ERROR", "No valid samples captured")
}

pub fn device_info_response(info: DeviceInfo) -> (r: BridgeResponse)
    ensures
        r == (BridgeResponse::Success {
            data: ResponseData::DeviceInfo {
                vendor: info.vendor,
                model: info.model,
                serial: info.serial,
                firmware: info.firmware,
                image_width: info.image_width,
                image_height: info.image_height,
                dpi: info.dpi,
            },
        }),
{
    BridgeResponse::Success {
        data: ResponseData::DeviceInfo {
            vendor: info.vendor,
            model: info.model,
            serial: info.serial,
            firmware: info.firmware,
            image_width: info.image_width,
            image_height: info.image_height,
            dpi: info.dpi,
        },
    }
}

pub fn match_response(m: MatchResult) -> (r: BridgeResponse)
    ensures
        r == (BridgeResponse::Success {
            data: ResponseData::MatchResult { matched: m.matched, score: m.score, user_id: m.user_id },
        }),
{
    BridgeResponse::Success {
        data: ResponseData::MatchResult { matched: m.matched, score: m.score, user_id: m.user_id },
    }
}

/// The response carrying an image quality reading, truncated to a byte.
pub fn quality_response(quality: i64) -> (r: BridgeResponse)
    ensures
        r == (BridgeResponse::Success { data: ResponseData::Quality { score: quality as u8 } }),
{
    BridgeResponse::Success { data: ResponseData::Quality { score: quality as u8 } }
}

pub fn void_response() -> (r: BridgeResponse)
    ensures
        r == (BridgeResponse::Success { data: ResponseData::Void }),
{
    BridgeResponse::Success { data: ResponseData::Void }
}

/// The answer to a command while no device is open, or `None` for the one
/// command (`init`) that needs the device work to be done first: device
/// commands are refused as not initialised and `disconnect` succeeds.
pub fn respond_without_device(cmd: &BridgeCommand) -> (r: Option<BridgeResponse>)
    ensures
        (*cmd is Init) <==> r is None,
        (*cmd is Disconnect) ==> r == Some(BridgeResponse::Success { data: ResponseData::Void }),
        (*cmd is Capture || *cmd is Enroll || *cmd is Verify || *cmd is Identify
            || *cmd is GetQuality) ==> (r matches Some(e) && is_error_response(
            e,
            "NOT_INITIALIZED"@,
            "Scanner not initialized"@,
        )),
{
    match cmd {
        BridgeCommand::Init => None,
        BridgeCommand::Disconnect => Some(void_response()),
        _ => Some(not_initialized_response()),
    }
}

/// What the command loop does with the outcome of reading one line.
#[derive(Debug, Clone, PartialEq, Eq)]
pub enum LoopStep {
    /// End of input: leave the loop.
    Stop,
    /// A blank line: read the next one.
    Skip,
    /// Send this response and leave the loop.
    RespondAndStop(BridgeResponse),
    /// Parse the line as a command and answer it.
    Dispatch,
}

/// The loop's decision for a line read: stop at the end of input, report a
/// framing violation and stop, skip blank lines, and dispatch the rest.
pub fn next_step(read: &Result<usize, IpcLineError>, line: &str) -> (step: LoopStep)
    ensures
        (*read == Ok::<usize, IpcLineError>(0usize)) ==> step == LoopStep::Stop,
        *read matches Err(e) ==> (step matches LoopStep::RespondAndStop(resp)
            && is_error_response(resp, "SDK_ERROR"@, "IPC framing error: "@ + ipc_error_message(e))),
        *read matches Ok(n) && n > 0 ==> (if is_blank_text(line@) {
            step == LoopStep::Skip
        } else {
            step == LoopStep::Dispatch
        }),
{
    match read {
        Ok(n) => {
            if *n == 0 {
                LoopStep::Stop
            } else if is_blank(line) {
                LoopStep::Skip
            } else {
                LoopStep::Dispatch
            }
        },
        Err(e) => LoopStep::RespondAndStop(framing_error_response(e)),
    }
}

} // verus!
