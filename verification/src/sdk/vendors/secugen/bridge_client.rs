//! The host side of the Windows bridge: the commands it sends, the wiping of
//! what it sent, and how it reads the bridge's answers.
use vstd::prelude::*;
use vstd::slice::slice_to_vec;
use vstd::string::{StrSliceExecFns, StringExecFns};
use crate::bridge::ipc::{ends_with_newline, MAX_IPC_LINE};
use crate::outside::{wipe_bytes, wipe_string};
use crate::protocol::{BridgeCommand, BridgeResponse, ResponseData, TemplateEntry};
use crate::bridge::responses::sdk_error_text;
use crate::sdk::errors::{error_code, FingerprintError};
use crate::sdk::vendors::secugen::error_map::is_native_error;
use crate::sdk::vendors::secugen::ffi_types::{SGFDX_ERROR_DEVICE_NOT_FOUND, SGFDX_ERROR_TIME_OUT};
use crate::sdk::types::{DeviceInfo, MatchResult, ScanResult, Template};
use crate::sdk::vendors::secugen::library_path::{opt_view, push_opt, step_view, SearchStep};
use crate::sdk::vendors::secugen::session::{effective_sample_count, is_sdk_error, spec_sample_count};
use crate::text::{concat2, concat3, decimal, digit_char, signed_decimal, is_blank, is_blank_text, occurs_at, starts_with_str, str_eq};
use crate::sdk::vendors::secugen::constants::{DEFAULT_MIN_QUALITY, DEFAULT_TIMEOUT_MS};

verus! {

/// File name of the bridge executable.
pub const BRIDGE_NAME: &'static str = "secugen-bridge.exe";

pub fn capture_command(timeout_ms: u32, min_quality: u8) -> (cmd: BridgeCommand)
    ensures
        cmd == (BridgeCommand::Capture { timeout_ms, min_quality }),
{
    BridgeCommand::Capture { timeout_ms, min_quality }
}

/// The enrolment command; a request for zero samples asks for the default.
pub fn enroll_command(user_id: &str, samples: u8) -> (cmd: BridgeCommand)
    ensures
        cmd matches BridgeCommand::Enroll { user_id: u, samples: n } && u@ == user_id@ && n
            == spec_sample_count(samples),
        samples > 0 ==> (cmd matches BridgeCommand::Enroll { samples: n, .. } && n == samples),
{
    BridgeCommand::Enroll { user_id: String::from_str(user_id), samples: effective_sample_count(samples) }
}

pub fn verify_command(user_id: &str, template: &Template) -> (cmd: BridgeCommand)
    ensures
        cmd matches BridgeCommand::Verify { user_id: u, template_data: d } && u@ == user_id@ && d@
            == template.data@,
{
    BridgeCommand::Verify {
        user_id: String::from_str(user_id),
        template_data: slice_to_vec(template.data.as_slice()),
    }
}

/// The 1:N search command: every stored template, in order.
pub fn identify_command(templates: &[Template]) -> (cmd: BridgeCommand)
    ensures
        cmd matches BridgeCommand::Identify { templates: entries } && entries@.len()
            == templates@.len() && forall|i: int|
            0 <= i < entries@.len() ==> #[trigger] entries@[i].user_id@ == templates@[i].user_id@
                && entries@[i].data@ == templates@[i].data@,
{
    let mut entries: Vec<TemplateEntry> = Vec::new();
    let mut k: usize = 0;
    while k < templates.len()
        invariant
            k <= templates@.len(),
            entries@.len() == k,
            forall|i: int|
                0 <= i < k ==> #[trigger] entries@[i].user_id@ == templates@[i].user_id@
                    && entries@[i].data@ == templates@[i].data@,
        decreases templates@.len() - k,
    {
        let t = &templates[k];
        entries.push(
            TemplateEntry {
                user_id: String::from_str(t.user_id.as_str()),
                data: slice_to_vec(t.data.as_slice()),
            },
        );
        k = k + 1;
    }
    BridgeCommand::Identify { templates: entries }
}

pub fn get_quality_command(image: &[u8]) -> (cmd: BridgeCommand)
    ensures
        cmd matches BridgeCommand::GetQuality { image: i } && i@ == image@,
{
    BridgeCommand::GetQuality { image: slice_to_vec(image) }
}

/// What the host leaves of a command once it has been sent: biometric bytes
/// and the user ids that tie a person to them are emptied; the rest is
/// unchanged.
pub open spec fn host_wiped_command(before: BridgeCommand, after: BridgeCommand) -> bool {
    match before {
        BridgeCommand::Enroll { user_id, samples } => after matches BridgeCommand::Enroll {
            user_id: u2,
            samples: s2,
        } && u2@.len() == 0 && s2 == samples,
        BridgeCommand::Verify { .. } => after matches BridgeCommand::Verify {
            user_id: u2,
            template_data: t2,
        } && u2@.len() == 0 && t2@.len() == 0,
        BridgeCommand::Identify { templates } => after matches BridgeCommand::Identify {
            templates: t2,
        } && t2@.len() == templates@.len() && forall|i: int|
            0 <= i < t2@.len() ==> #[trigger] t2@[i].user_id@.len() == 0 && t2@[i].data@.len() == 0,
        BridgeCommand::GetQuality { .. } => after matches BridgeCommand::GetQuality { image: i2 }
            && i2@.len() == 0,
        _ => after == before,
    }
}

fn wipe_all_entries(templates: &mut Vec<TemplateEntry>)
    ensures
        final(templates)@.len() == old(templates)@.len(),
        forall|i: int|
            0 <= i < final(templates)@.len() ==> #[trigger] final(templates)@[i].user_id@.len() == 0
                && final(templates)@[i].data@.len() == 0,
{
    let mut rest: Vec<TemplateEntry> = Vec::new();
    std::mem::swap(&mut rest, templates);
    let ghost orig = rest@;
    let total = rest.len();
    let mut out: Vec<TemplateEntry> = Vec::new();
    let mut k: usize = 0;
    while k < total
        invariant
            total == orig.len(),
            k <= orig.len(),
            rest@ == orig.skip(k as int),
            out@.len() == k,
            forall|i: int|
                0 <= i < k ==> #[trigger] out@[i].user_id@.len() == 0 && out@[i].data@.len() == 0,
        decreases orig.len() - k,
    {
        let mut e = rest.remove(0);
        wipe_bytes(&mut e.data);
        wipe_string(&mut e.user_id);
        out.push(e);
        assert(rest@ =~= orig.skip(k + 1));
        k = k + 1;
    }
    *templates = out;
}

/// Wipes what a sent command carried, covering every exit path of a send.
#[verifier::spinoff_prover]
pub fn wipe_sent_command(cmd: &mut BridgeCommand)
    ensures
        host_wiped_command(*old(cmd), *final(cmd)),
{
    match cmd {
        BridgeCommand::Enroll { user_id, .. } => wipe_string(user_id),
        BridgeCommand::Verify { template_data, user_id } => {
            wipe_bytes(template_data);
            wipe_string(user_id);
        },
        BridgeCommand::Identify { templates } => wipe_all_entries(templates),
        BridgeCommand::GetQuality { image } => wipe_bytes(image),
        _ => {},
    }
}

/// The error for a response whose payload is not the one the command expects.
pub fn unexpected() -> (e: FingerprintError)
    ensures
        e matches FingerprintError::SdkError(m) && m@ == "Unexpected response from bridge"@,
{
    FingerprintError::SdkError(String::from_str("Unexpected response from bridge"))
}

/// An `SdkError` made of a fixed description and a detail.
pub fn sdk_error_with(prefix: &str, detail: &str) -> (e: FingerprintError)
    ensures
        e matches FingerprintError::SdkError(m) && m@ == prefix@ + detail@,
{
    FingerprintError::SdkError(concat2(prefix, detail))
}

/// A decimal digit.
pub open spec fn is_digit(c: char) -> bool {
    '0' <= c <= '9'
}

/// The number of decimal digits `s` starts with.
pub open spec fn digit_run(s: Seq<char>) -> nat
    decreases s.len(),
{
    if s.len() > 0 && is_digit(s[0]) {
        1 + digit_run(s.subrange(1, s.len() as int))
    } else {
        0
    }
}

/// The value of a text of decimal digits, most significant first.
pub open spec fn digits_value(d: Seq<char>) -> nat
    decreases d.len(),
{
    if d.len() == 0 {
        0
    } else {
        digits_value(d.drop_last()) * 10 + ((d.last() as int - 48) as nat)
    }
}

/// The reading quoted by the bridge's refusal of a capture,
/// `Image quality too low: {reading} (minimum: {min})`: the whole number,
/// with its sign, that follows the colon.
pub open spec fn reported_quality(message: Seq<char>) -> Option<int> {
    let p = "Image quality too low: "@;
    if occurs_at(message, p, 0) {
        let rest = message.subrange(p.len() as int, message.len() as int);
        let neg = rest.len() > 0 && rest[0] == '-';
        let body = if neg {
            rest.subrange(1, rest.len() as int)
        } else {
            rest
        };
        let n = digit_run(body);
        if n == 0 {
            None
        } else {
            let v = digits_value(body.subrange(0, n as int)) as int;
            Some(
                if neg {
                    -v
                } else {
                    v
                },
            )
        }
    } else {
        None
    }
}

/// The quality a refusal reports, truncated to a byte as the bridge
/// truncated it for its check; 0 when the message quotes no reading.
pub open spec fn reported_quality_byte(message: Seq<char>) -> u8 {
    match reported_quality(message) {
        Some(v) => (v % 256) as u8,
        None => 0,
    }
}

/// The host's reading of a bridge error code, for a command that waits
/// `timeout_ms` for a finger and accepts a quality of `min_quality`: the
/// codes of the public error type come back as that error (a timeout with
/// the command's wait, a quality refusal with the reading it quotes and the
/// command's minimum); anything else is an SDK error quoting code and
/// message.
pub open spec fn decodes_to(
    code: Seq<char>,
    message: String,
    timeout_ms: u32,
    min_quality: u8,
    e: FingerprintError,
) -> bool {
    if code == "DEVICE_NOT_FOUND"@ {
        e == FingerprintError::DeviceNotFound
    } else if code == "CAPTURE_TIMEOUT"@ {
        e == FingerprintError::CaptureTimeout(timeout_ms)
    } else if code == "LOW_QUALITY"@ {
        e == (FingerprintError::LowQuality { got: reported_quality_byte(message@), min: min_quality })
    } else if code == "MATCH_FAILED"@ {
        e == FingerprintError::MatchFailed
    } else if code == "NOT_INITIALIZED"@ {
        e == FingerprintError::NotInitialized
    } else if code == "UNSUPPORTED_VENDOR"@ {
        e == FingerprintError::UnsupportedVendor(message)
    } else {
        e matches FingerprintError::SdkError(m) && m@ == "["@ + code + "] "@ + message@
    }
}

/// An SGFPLIB code reaches the JavaScript caller alike on both SecuGen
/// paths, through the Windows bridge (its error response, decoded by the
/// host) and straight from the library, when both wait as long for a
/// finger: "device not found" and "timed out" give the same error, and for
/// every code the two paths agree on the error code the caller sees.
pub proof fn law_sdk_codes_alike_on_both_paths(
    code: i64,
    timeout_ms: u32,
    min_quality: u8,
    message: String,
    host: FingerprintError,
    native: FingerprintError,
)
    requires
        message@ == sdk_error_text(code).1,
        decodes_to(sdk_error_text(code).0, message, timeout_ms, min_quality, host),
        is_native_error(code, timeout_ms, native),
    ensures
        code == SGFDX_ERROR_DEVICE_NOT_FOUND ==> host == native,
        code == SGFDX_ERROR_TIME_OUT ==> host == native,
        error_code(host) == error_code(native),
        code != SGFDX_ERROR_DEVICE_NOT_FOUND && code != SGFDX_ERROR_TIME_OUT ==> host is SdkError,
{
    reveal_strlit("DEVICE_NOT_FOUND");
    reveal_strlit("CAPTURE_TIMEOUT");
    reveal_strlit("SDK_ERROR");
    reveal_strlit("LOW_QUALITY");
    reveal_strlit("MATCH_FAILED");
    reveal_strlit("NOT_INITIALIZED");
    reveal_strlit("UNSUPPORTED_VENDOR");
    assert("CAPTURE_TIMEOUT"@[0] != "NOT_INITIALIZED"@[0]);
    assert("SDK_ERROR"@.len() != "DEVICE_NOT_FOUND"@.len());
    assert("SDK_ERROR"@.len() != "CAPTURE_TIMEOUT"@.len());
    assert("SDK_ERROR"@.len() != "LOW_QUALITY"@.len());
    assert("SDK_ERROR"@.len() != "MATCH_FAILED"@.len());
    assert("SDK_ERROR"@.len() != "NOT_INITIALIZED"@.len());
    assert("SDK_ERROR"@.len() != "UNSUPPORTED_VENDOR"@.len());
}

proof fn lemma_decimal_digits(n: nat)
    ensures
        forall|j: int| 0 <= j < decimal(n).len() ==> is_digit(#[trigger] decimal(n)[j]),
        digits_value(decimal(n)) == n,
    decreases n,
{
    if n >= 10 {
        lemma_decimal_digits(n / 10);
        assert(decimal(n).drop_last() =~= decimal(n / 10));
    }
    let d = n % 10;
    assert(digit_char(d) as int - 48 == d && is_digit(digit_char(d))) by {
        if d == 0 {} else if d == 1 {} else if d == 2 {} else if d == 3 {} else if d == 4 {}
        else if d == 5 {} else if d == 6 {} else if d == 7 {} else if d == 8 {} else {}
    }
    if n < 10 {
        assert(decimal(n).drop_last() =~= Seq::<char>::empty());
        assert(decimal(n).last() == digit_char(n));
        assert(n % 10 == n);
        assert(digits_value(Seq::<char>::empty()) == 0);
        assert(digits_value(decimal(n)) == digits_value(decimal(n).drop_last()) * 10 + ((decimal(n).last() as int - 48) as nat));
    } else {
        assert(decimal(n).last() == digit_char(d));
        vstd::arithmetic::div_mod::lemma_fundamental_div_mod(n as int, 10);
        assert(digits_value(decimal(n)) == digits_value(decimal(n / 10)) * 10 + d);
    }
}

proof fn lemma_byte_truncation(q: i64)
    ensures
        ((q as int) % 256) as u8 == q as u8,
{
    assert(((q as int) % 256) as u8 == q as u8) by (bit_vector);
}

/// A capture refused for its quality is reported alike on both SecuGen
/// paths: the bridge's refusal (its `LOW_QUALITY` response, which quotes
/// the SDK's reading), decoded by the host for the same minimum, is the
/// error the library path gives, with the reading truncated to a byte.
pub proof fn law_low_quality_alike_on_both_paths(
    quality: i64,
    timeout_ms: u32,
    min_quality: u8,
    message: String,
    host: FingerprintError,
)
    requires
        (quality as u8) < min_quality,
        message@ == "Image quality too low: "@ + signed_decimal(quality as int) + " (minimum: "@
            + decimal(min_quality as nat) + ")"@,
        decodes_to("LOW_QUALITY"@, message, timeout_ms, min_quality, host),
    ensures
        host == (FingerprintError::LowQuality { got: quality as u8, min: min_quality }),
{
    reveal_strlit("DEVICE_NOT_FOUND");
    reveal_strlit("CAPTURE_TIMEOUT");
    reveal_strlit("LOW_QUALITY");
    reveal_strlit("Image quality too low: ");
    reveal_strlit(" (minimum: ");
    let p = "Image quality too low: "@;
    let tail = " (minimum: "@ + decimal(min_quality as nat) + ")"@;
    let m = message@;
    assert(m =~= p + (signed_decimal(quality as int) + tail));
    assert(m.subrange(0, p.len() as int) =~= p);
    let rest = m.subrange(p.len() as int, m.len() as int);
    assert(rest =~= signed_decimal(quality as int) + tail);
    let v: nat = if quality < 0 { (-quality) as nat } else { quality as nat };
    lemma_decimal_digits(v);
    let body = decimal(v) + tail;
    if quality < 0 {
        assert(rest =~= seq!['-'] + body);
        assert(rest.subrange(1, rest.len() as int) =~= body);
    } else {
        assert(rest =~= body);
        assert(is_digit(decimal(v)[0]));
    }
    let k = decimal(v).len();
    assert forall|j: int| 0 <= j < k implies is_digit(#[trigger] body[j]) by {
        assert(body[j] == decimal(v)[j]);
    }
    assert(body[k as int] == ' ');
    lemma_digit_run(body, k);
    assert(body.subrange(0, k as int) =~= decimal(v));
    assert(reported_quality(m) == Some(quality as int));
    lemma_byte_truncation(quality);
    assert(reported_quality_byte(message@) == quality as u8);
    assert("LOW_QUALITY"@ != "DEVICE_NOT_FOUND"@ && "LOW_QUALITY"@ != "CAPTURE_TIMEOUT"@) by {
        assert("LOW_QUALITY"@.len() != "DEVICE_NOT_FOUND"@.len());
        assert("LOW_QUALITY"@.len() != "CAPTURE_TIMEOUT"@.len());
    }
}

proof fn lemma_digit_run(s: Seq<char>, k: nat)
    requires
        k <= s.len(),
        forall|j: int| 0 <= j < k ==> is_digit(#[trigger] s[j]),
        k == s.len() || !is_digit(s[k as int]),
    ensures
        digit_run(s) == k,
    decreases k,
{
    if k > 0 {
        let t = s.subrange(1, s.len() as int);
        assert forall|j: int| 0 <= j < k - 1 implies is_digit(#[trigger] t[j]) by {
            assert(t[j] == s[j + 1]);
        }
        if k < s.len() {
            assert(t[k - 1] == s[k as int]);
        }
        lemma_digit_run(t, (k - 1) as nat);
    }
}

proof fn lemma_mod_step(a: int, d: int)
    requires
        a >= 0,
        0 <= d < 10,
    ensures
        (a * 10 + d) % 256 == ((a % 256) * 10 + d) % 256,
{
    let q = a / 256;
    let r = a % 256;
    vstd::arithmetic::div_mod::lemma_fundamental_div_mod(a, 256);
    assert(a * 10 + d == (q * 10) * 256 + (r * 10 + d)) by (nonlinear_arith)
        requires
            a == 256 * q + r,
    ;
    vstd::arithmetic::div_mod::lemma_mod_multiples_vanish(q * 10, r * 10 + d, 256);
}

proof fn lemma_neg_mod(v: int, acc: int)
    requires
        v >= 0,
        acc == v % 256,
    ensures
        (-v) % 256 == (256 - acc) % 256,
{
    let q = v / 256;
    vstd::arithmetic::div_mod::lemma_fundamental_div_mod(v, 256);
    assert(-v == (-q - 1) * 256 + (256 - acc));
    vstd::arithmetic::div_mod::lemma_mod_multiples_vanish(-q - 1, 256 - acc, 256);
}

/// The reading quoted by a quality refusal, truncated to a byte.
fn quality_in_message(message: &str) -> (got: u8)
    ensures
        got == reported_quality_byte(message@),
{
    let prefix = "Image quality too low: ";
    if !starts_with_str(message, prefix) {
        return 0;
    }
    let n = message.unicode_len();
    let p = prefix.unicode_len();
    let ghost rest = message@.subrange(p as int, n as int);
    let neg = p < n && message.get_char(p) == '-';
    let start: usize = if neg { p + 1 } else { p };
    let ghost body = if neg { rest.subrange(1, rest.len() as int) } else { rest };
    assert(body =~= message@.subrange(start as int, n as int));
    let mut k: usize = start;
    let mut acc: u32 = 0;
    while k < n && '0' <= message.get_char(k) && message.get_char(k) <= '9'
        invariant
            start <= k <= n,
            n == message@.len(),
            body == message@.subrange(start as int, n as int),
            forall|j: int| 0 <= j < k - start ==> is_digit(#[trigger] body[j]),
            acc < 256,
            acc == digits_value(body.subrange(0, k - start)) % 256,
        decreases n - k,
    {
        let c = message.get_char(k);
        let d = (c as u32) - 48;
        proof {
            let t = body.subrange(0, k + 1 - start);
            assert(t.drop_last() =~= body.subrange(0, k - start));
            assert(t.last() == c);
            lemma_mod_step(digits_value(body.subrange(0, k - start)) as int, d as int);
        }
        acc = (acc * 10 + d) % 256;
        k = k + 1;
    }
    proof {
        lemma_digit_run(body, (k - start) as nat);
    }
    if k == start {
        return 0;
    }
    if neg {
        proof {
            lemma_neg_mod(digits_value(body.subrange(0, k - start)) as int, acc as int);
        }
        ((256 - acc) % 256) as u8
    } else {
        acc as u8
    }
}

/// The wait and the quality a command asks of a capture: those it names,
/// or for the commands whose captures the bridge makes with its defaults,
/// the defaults.
pub fn capture_limits(cmd: &BridgeCommand) -> (r: (u32, u8))
    ensures
        *cmd matches BridgeCommand::Capture { timeout_ms, min_quality } ==> r == (timeout_ms, min_quality),
        !(cmd is Capture) ==> r == (DEFAULT_TIMEOUT_MS, DEFAULT_MIN_QUALITY),
{
    match cmd {
        BridgeCommand::Capture { timeout_ms, min_quality } => (*timeout_ms, *min_quality),
        _ => (DEFAULT_TIMEOUT_MS, DEFAULT_MIN_QUALITY),
    }
}

/// Decodes an error response of the bridge to a command that waits
/// `timeout_ms` for a finger and accepts a quality of `min_quality`.
pub fn decode_bridge_error(code: &str, message: String, timeout_ms: u32, min_quality: u8) -> (e: FingerprintError)
    ensures
        decodes_to(code@, message, timeout_ms, min_quality, e),
{
    if str_eq(code, "DEVICE_NOT_FOUND") {
        FingerprintError::DeviceNotFound
    } else if str_eq(code, "CAPTURE_TIMEOUT") {
        FingerprintError::CaptureTimeout(timeout_ms)
    } else if str_eq(code, "LOW_QUALITY") {
        let got = quality_in_message(message.as_str());
        FingerprintError::LowQuality { got, min: min_quality }
    } else if str_eq(code, "MATCH_FAILED") {
        FingerprintError::MatchFailed
    } else if str_eq(code, "NOT_INITIALIZED") {
        FingerprintError::NotInitialized
    } else if str_eq(code, "UNSUPPORTED_VENDOR") {
        FingerprintError::UnsupportedVendor(message)
    } else {
        let mut m = concat3("[", code, "] ");
        m.append(message.as_str());
        FingerprintError::SdkError(m)
    }
}

/// The payload of a response to a command that waits `timeout_ms` for a
/// finger and accepts a quality of `min_quality`, or the error it reports.
pub fn response_payload(resp: BridgeResponse, timeout_ms: u32, min_quality: u8) -> (r: Result<ResponseData, FingerprintError>)
    ensures
        resp matches BridgeResponse::Success { data } ==> r == Ok::<ResponseData, FingerprintError>(
            data,
        ),
        resp matches BridgeResponse::Error { code, message } ==> (r matches Err(e) && decodes_to(
            code@,
            message,
            timeout_ms,
            min_quality,
            e,
        )),
{
    match resp {
        BridgeResponse::Success { data } => Ok(data),
        BridgeResponse::Error { code, message } => Err(
            decode_bridge_error(code.as_str(), message, timeout_ms, min_quality),
        ),
    }
}

/// The device description carried by an `init` answer.
pub fn expect_device_info(data: ResponseData) -> (r: Result<DeviceInfo, FingerprintError>)
    ensures
        data matches ResponseData::DeviceInfo {
            vendor,
            model,
            serial,
            firmware,
            image_width,
            image_height,
            dpi,
        } ==> r == Ok::<DeviceInfo, FingerprintError>(
            DeviceInfo { vendor, model, serial, firmware, image_width, image_height, dpi },
        ),
        !(data is DeviceInfo) ==> is_sdk_error(r, "Unexpected response from bridge"@),
{
    match data {
        ResponseData::DeviceInfo { vendor, model, serial, firmware, image_width, image_height, dpi } => {
            Ok(DeviceInfo { vendor, model, serial, firmware, image_width, image_height, dpi })
        },
        _ => Err(unexpected()),
    }
}

/// The scan carried by a `capture` answer.
pub fn expect_scan_result(data: ResponseData) -> (r: Result<ScanResult, FingerprintError>)
    ensures
        data matches ResponseData::ScanResult { image, quality, template, timestamp } ==> r == Ok::<
            ScanResult,
            FingerprintError,
        >(ScanResult { image, quality, template, timestamp }),
        !(data is ScanResult) ==> is_sdk_error(r, "Unexpected response from bridge"@),
{
    match data {
        ResponseData::ScanResult { image, quality, template, timestamp } => {
            Ok(ScanResult { image, quality, template, timestamp })
        },
        _ => Err(unexpected()),
    }
}

/// The template carried by an `enroll` answer.
pub fn expect_template(data: ResponseData) -> (r: Result<Template, FingerprintError>)
    ensures
        data matches ResponseData::Template { user_id, data: bytes, created_at } ==> r == Ok::<
            Template,
            FingerprintError,
        >(Template { user_id, data: bytes, created_at }),
        !(data is Template) ==> is_sdk_error(r, "Unexpected response from bridge"@),
{
    match data {
        ResponseData::Template { user_id, data, created_at } => Ok(Template { user_id, data, created_at }),
        _ => Err(unexpected()),
    }
}

/// The match result carried by a `verify` or `identify` answer.
pub fn expect_match_result(data: ResponseData) -> (r: Result<MatchResult, FingerprintError>)
    ensures
        data matches ResponseData::MatchResult { matched, score, user_id } ==> r == Ok::<
            MatchResult,
            FingerprintError,
        >(MatchResult { matched, score, user_id }),
        !(data is MatchResult) ==> is_sdk_error(r, "Unexpected response from bridge"@),
{
    match data {
        ResponseData::MatchResult { matched, score, user_id } => Ok(MatchResult { matched, score, user_id }),
        _ => Err(unexpected()),
    }
}

/// The quality score carried by a `get_quality` answer.
pub fn expect_quality(data: ResponseData) -> (r: Result<u8, FingerprintError>)
    ensures
        data matches ResponseData::Quality { score } ==> r == Ok::<u8, FingerprintError>(score),
        !(data is Quality) ==> is_sdk_error(r, "Unexpected response from bridge"@),
{
    match data {
        ResponseData::Quality { score } => Ok(score),
        _ => Err(unexpected()),
    }
}

/// Framing checks on one response line read from the bridge (`n` bytes,
/// at most `MAX_IPC_LINE`): a full-size read without a newline is a framing
/// error, a blank line means the bridge went away.
pub fn check_response_line(n: usize, line: &str) -> (r: Result<(), FingerprintError>)
    ensures
        (n == MAX_IPC_LINE && !ends_with_newline(line@)) ==> is_sdk_error(
            r,
            "Bridge response exceeds 67108864 bytes (framing error)"@,
        ),
        !(n == MAX_IPC_LINE && !ends_with_newline(line@)) && is_blank_text(line@) ==> is_sdk_error(
            r,
            "Bridge process returned empty response (may have crashed)"@,
        ),
        !(n == MAX_IPC_LINE && !ends_with_newline(line@)) && !is_blank_text(line@) ==> r is Ok,
{
    if n == MAX_IPC_LINE {
        let len = line.unicode_len();
        if !(len > 0 && line.get_char(len - 1) == '\n') {
            return Err(FingerprintError::SdkError(String::from_str("Bridge response exceeds 67108864 bytes (framing error)")));
        }
    }
    if is_blank(line) {
        return Err(FingerprintError::SdkError(String::from_str("Bridge process returned empty response (may have crashed)")));
    }
    Ok(())
}

/// The places the bridge executable is looked for, in order: the exact path
/// in `SECUGEN_BRIDGE_PATH`, then the directory of the loaded addon, then
/// the directory of the Node executable. Nothing else is searched; in
/// particular not the working directory, where a planted executable could
/// otherwise be run.
pub open spec fn spec_bridge_plan(
    env_path: Option<Seq<char>>,
    module_dir: Option<Seq<char>>,
    exe_dir: Option<Seq<char>>,
) -> Seq<(bool, Seq<char>)> {
    let a: Seq<(bool, Seq<char>)> = match env_path {
        Some(p) => seq![(true, p)],
        None => seq![],
    };
    let b: Seq<(bool, Seq<char>)> = match module_dir {
        Some(d) => seq![(false, d)],
        None => seq![],
    };
    let c: Seq<(bool, Seq<char>)> = match exe_dir {
        Some(d) => seq![(false, d)],
        None => seq![],
    };
    a + b + c
}

/// The ordered list of places searched for the bridge executable (a
/// directory step means the executable's name inside it).
pub fn bridge_search_plan(env_path: Option<String>, module_dir: Option<String>, exe_dir: Option<String>) -> (plan: Vec<SearchStep>)
    ensures
        plan@.map_values(|s: SearchStep| step_view(s)) == spec_bridge_plan(
            opt_view(env_path),
            opt_view(module_dir),
            opt_view(exe_dir),
        ),
        plan@.len() <= 3,
{
    let ghost e = opt_view(env_path);
    let ghost m = opt_view(module_dir);
    let ghost x = opt_view(exe_dir);
    let mut plan: Vec<SearchStep> = Vec::new();
    assert(plan@.map_values(|s: SearchStep| step_view(s)) =~= Seq::<(bool, Seq<char>)>::empty());
    push_opt(&mut plan, env_path, true);
    push_opt(&mut plan, module_dir, false);
    push_opt(&mut plan, exe_dir, false);
    assert(plan@.map_values(|s: SearchStep| step_view(s)) =~= spec_bridge_plan(e, m, x));
    plan
}

/// Picks the bridge executable given, for each planned place, whether it
/// exists there: the first such place, or the not-found error.
pub fn locate_bridge(plan: &Vec<SearchStep>, exists: &Vec<bool>) -> (r: Result<usize, FingerprintError>)
    requires
        exists@.len() == plan@.len(),
    ensures
        r matches Ok(i) ==> i < plan@.len() && exists@[i as int] && forall|j: int| 0 <= j < i ==> !exists@[j],
        r is Err ==> forall|j: int| 0 <= j < exists@.len() ==> !exists@[j],
        r is Err ==> (r matches Err(FingerprintError::SdkError(m)) && m@ == bridge_not_found_text()),
{
    let mut k: usize = 0;
    while k < exists.len()
        invariant
            k <= exists@.len(),
            exists@.len() == plan@.len(),
            forall|j: int| 0 <= j < k ==> !exists@[j],
        decreases exists@.len() - k,
    {
        if exists[k] {
            return Ok(k);
        }
        k = k + 1;
    }
    Err(bridge_not_found_error())
}

/// The complaint when no bridge executable is found.
pub open spec fn bridge_not_found_text() -> Seq<char> {
    "secugen-bridge.exe not found. Set SECUGEN_BRIDGE_PATH or place it next to the .node file."@
}

/// The error when no bridge executable is found where it is looked for.
pub fn bridge_not_found_error() -> (e: FingerprintError)
    ensures
        e matches FingerprintError::SdkError(m) && m@ == bridge_not_found_text(),
{
    FingerprintError::SdkError(
        String::from_str(
            "secugen-bridge.exe not found. Set SECUGEN_BRIDGE_PATH or place it next to the .node file.",
        ),
    )
}

} // verus!
