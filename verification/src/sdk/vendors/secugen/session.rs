//! Decisions taken around the SecuGen SDK calls: buffer sizing, the quality
//! gate, which enrolment sample is kept, which stored template a live scan is
//! matched against, and the shape of the results handed back.
use vstd::prelude::*;
use vstd::string::StringExecFns;
use crate::sdk::errors::FingerprintError;
use crate::sdk::types::{DeviceInfo, MatchResult, Template};
use crate::outside::push_char;
use crate::text::{i64_to_decimal, signed_decimal};
use crate::sdk::vendors::secugen::constants::DEFAULT_ENROLL_SAMPLES;

verus! {

/// `r` is an `SdkError` carrying exactly `text`.
pub open spec fn is_sdk_error<T>(r: Result<T, FingerprintError>, text: Seq<char>) -> bool {
    r matches Err(FingerprintError::SdkError(m)) && m@ == text
}

/// Number of samples an enrolment takes for a requested count.
pub open spec fn spec_sample_count(samples: u8) -> u8 {
    if samples == 0 { DEFAULT_ENROLL_SAMPLES } else { samples }
}

pub fn effective_sample_count(samples: u8) -> (count: u8)
    ensures
        count == spec_sample_count(samples),
        count > 0,
        samples > 0 ==> count == samples,
        samples == 0 ==> count == DEFAULT_ENROLL_SAMPLES,
{
    if samples == 0 { DEFAULT_ENROLL_SAMPLES } else { samples }
}

/// Size of the grey-scale image buffer for a device geometry: the product of
/// width and height, refused when either is not positive or when the product
/// does not fit in `usize`.
pub fn image_buffer_size(width: i64, height: i64) -> (r: Result<usize, FingerprintError>)
    ensures
        (width <= 0 || height <= 0) ==> is_sdk_error(r, "Device returned invalid image dimensions"@),
        (width > 0 && height > 0 && width * height > usize::MAX) ==> is_sdk_error(
            r,
            "Image buffer size overflows usize"@,
        ),
        (width > 0 && height > 0 && width * height <= usize::MAX) ==> r == Ok::<
            usize,
            FingerprintError,
        >((width * height) as usize),
{
    if width <= 0 || height <= 0 {
        return Err(FingerprintError::SdkError(String::from_str("Device returned invalid image dimensions")));
    }
    let w = width as u64;
    let h = height as u64;
    match w.checked_mul(h) {
        Some(n) => {
            if n <= usize::MAX as u64 {
                Ok(n as usize)
            } else {
                Err(FingerprintError::SdkError(String::from_str("Image buffer size overflows usize")))
            }
        },
        None => {
            proof {
                assert(w * h > u64::MAX);
            }
            Err(FingerprintError::SdkError(String::from_str("Image buffer size overflows usize")))
        },
    }
}

/// Size of the template buffer for the maximum template size the device
/// reports; refused when that size is not positive or does not fit in `usize`.
pub fn template_buffer_size(max_template_size: i64) -> (r: Result<usize, FingerprintError>)
    ensures
        max_template_size <= 0 ==> is_sdk_error(r, "Device returned invalid template size"@),
        max_template_size > usize::MAX ==> is_sdk_error(r, "Template size overflows usize"@),
        0 < max_template_size <= usize::MAX ==> r == Ok::<usize, FingerprintError>(
            max_template_size as usize,
        ),
{
    if max_template_size <= 0 {
        return Err(FingerprintError::SdkError(String::from_str("Device returned invalid template size")));
    }
    if max_template_size as u64 > usize::MAX as u64 {
        return Err(FingerprintError::SdkError(String::from_str("Template size overflows usize")));
    }
    Ok(max_template_size as usize)
}

/// The quality gate after a capture: the SDK's quality reading, truncated to
/// a byte as the SDK defines it, must reach `min_quality`.
pub fn check_capture_quality(quality: i64, min_quality: u8) -> (r: Result<u8, FingerprintError>)
    ensures
        (quality as u8) < min_quality ==> r == Err::<u8, FingerprintError>(
            FingerprintError::LowQuality { got: quality as u8, min: min_quality },
        ),
        (quality as u8) >= min_quality ==> r == Ok::<u8, FingerprintError>(quality as u8),
{
    let q = quality as u8;
    if q < min_quality {
        Err(FingerprintError::LowQuality { got: q, min: min_quality })
    } else {
        Ok(q)
    }
}

/// Whether a newly captured sample of `quality` replaces the best one kept so
/// far (whose quality is `best_quality`, or -1 before the first sample).
pub open spec fn spec_keeps_sample(best_quality: int, quality: u8) -> bool {
    quality as int > best_quality
}

pub fn keeps_new_sample(best_quality: i32, quality: u8) -> (keep: bool)
    ensures
        keep == spec_keeps_sample(best_quality as int, quality),
{
    (quality as i32) > best_quality
}

/// `i` is the first position holding the largest quality of `qualities`.
pub open spec fn is_first_max(qualities: Seq<u8>, i: int) -> bool {
    &&& 0 <= i < qualities.len()
    &&& forall|j: int| 0 <= j < qualities.len() ==> qualities[j] <= qualities[i]
    &&& forall|j: int| 0 <= j < i ==> qualities[j] < qualities[i]
}

/// The enrolment sample that is kept among samples of the given qualities,
/// taken in capture order: the first one of the highest quality.
pub fn select_best_sample(qualities: &Vec<u8>) -> (best: Option<usize>)
    ensures
        qualities@.len() == 0 <==> best is None,
        best matches Some(i) ==> is_first_max(qualities@, i as int),
{
    let mut best: Option<usize> = None;
    let mut best_quality: i32 = -1;
    let mut k: usize = 0;
    while k < qualities.len()
        invariant
            k <= qualities@.len(),
            k == 0 <==> best is None,
            best is None ==> best_quality == -1,
            best matches Some(i) ==> {
                &&& i < k
                &&& best_quality == qualities@[i as int] as i32
                &&& forall|j: int| 0 <= j < k ==> qualities@[j] <= qualities@[i as int]
                &&& forall|j: int| 0 <= j < i ==> qualities@[j] < qualities@[i as int]
            },
        decreases qualities@.len() - k,
    {
        if keeps_new_sample(best_quality, qualities[k]) {
            best = Some(k);
            best_quality = qualities[k] as i32;
        }
        k = k + 1;
    }
    best
}

/// The position of the sample kept after the samples of `qualities` are
/// offered, in capture order, to `keeps_new_sample` (starting with no sample
/// kept, best quality -1), as an enrolment does while it captures.
pub open spec fn kept_sample(qualities: Seq<u8>) -> Option<int>
    decreases qualities.len(),
{
    if qualities.len() == 0 {
        None
    } else {
        let prev = kept_sample(qualities.drop_last());
        let best: int = match prev {
            Some(i) => qualities[i] as int,
            None => -1,
        };
        if spec_keeps_sample(best, qualities.last()) {
            Some(qualities.len() - 1)
        } else {
            prev
        }
    }
}

/// An enrolment returns the template of its best sample: keeping a sample
/// whenever `keeps_new_sample` says so, over any number of samples, leaves
/// the first sample of the highest quality, and some sample is kept as soon
/// as one was captured.
pub proof fn law_enrolment_keeps_first_best(qualities: Seq<u8>)
    ensures
        qualities.len() == 0 <==> kept_sample(qualities) is None,
        kept_sample(qualities) matches Some(i) ==> is_first_max(qualities, i),
    decreases qualities.len(),
{
    if qualities.len() > 0 {
        let p = qualities.drop_last();
        law_enrolment_keeps_first_best(p);
        match kept_sample(p) {
            Some(i) => {
                assert(is_first_max(p, i));
                assert(p[i] == qualities[i]);
                assert forall|j: int| 0 <= j < p.len() implies p[j] == qualities[j] by {}
            },
            None => {},
        }
    }
}

/// `i` is the first position holding the highest score of `scores`, and
/// that score is positive.
pub open spec fn is_best_candidate(scores: Seq<i64>, i: int) -> bool {
    &&& 0 <= i < scores.len()
    &&& scores[i] > 0
    &&& forall|j: int| 0 <= j < scores.len() ==> scores[j] <= scores[i]
    &&& forall|j: int| 0 <= j < i ==> scores[j] < scores[i]
}

/// The stored template a live scan is confirmed against in a 1:N search,
/// given the matching score against each stored template in order: the
/// first one of the highest score, provided that score is positive.
pub fn select_best_template(scores: &Vec<i64>) -> (best: Option<usize>)
    ensures
        best is None <==> forall|j: int| 0 <= j < scores@.len() ==> scores@[j] <= 0,
        best matches Some(i) ==> is_best_candidate(scores@, i as int),
{
    let mut best: Option<usize> = None;
    let mut best_score: i64 = 0;
    let mut k: usize = 0;
    while k < scores.len()
        invariant
            k <= scores@.len(),
            best is None ==> best_score == 0 && forall|j: int| 0 <= j < k ==> scores@[j] <= 0,
            best matches Some(i) ==> {
                &&& i < k
                &&& best_score == scores@[i as int]
                &&& best_score > 0
                &&& forall|j: int| 0 <= j < k ==> scores@[j] <= scores@[i as int]
                &&& forall|j: int| 0 <= j < i ==> scores@[j] < scores@[i as int]
            },
        decreases scores@.len() - k,
    {
        if scores[k] > best_score {
            best = Some(k);
            best_score = scores[k];
        }
        k = k + 1;
    }
    best
}

/// The result of confirming a live scan against a stored template of
/// `user_id` that scored `score`: the user is named only when the matcher
/// confirmed the match.
pub open spec fn spec_confirmed_match(score: i64, user_id: Seq<char>, matched: bool) -> (
    bool,
    u32,
    Option<Seq<char>>,
) {
    (matched, score as u32, if matched { Some(user_id) } else { None })
}

/// A requested number of enrolment samples is used as given; only a request
/// for none takes the default.
pub proof fn law_requested_samples_kept(samples: u8)
    ensures
        samples > 0 ==> spec_sample_count(samples) == samples,
        samples == 0 ==> spec_sample_count(samples) == DEFAULT_ENROLL_SAMPLES,
        spec_sample_count(samples) > 0,
{
}

/// A confirmation reports the matcher's score whether or not the match was
/// confirmed, and names the user exactly when it was.
pub proof fn law_confirmation_keeps_score(score: i64, user_id: Seq<char>, matched: bool)
    ensures
        spec_confirmed_match(score, user_id, matched).0 == matched,
        spec_confirmed_match(score, user_id, matched).1 == score as u32,
        spec_confirmed_match(score, user_id, true).2 == Some(user_id),
        spec_confirmed_match(score, user_id, false).2 is None,
        spec_confirmed_match(score, user_id, true).1 == spec_confirmed_match(score, user_id, false).1,
{
}

/// The view of a match result as plain values.
pub open spec fn match_view(m: MatchResult) -> (bool, u32, Option<Seq<char>>) {
    (m.matched, m.score, match m.user_id {
        Some(u) => Some(u@),
        None => None,
    })
}

pub fn confirmed_match(score: i64, user_id: &str, matched: bool) -> (m: MatchResult)
    ensures
        match_view(m) == spec_confirmed_match(score, user_id@, matched),
        m.matched == matched,
        m.score == score as u32,
        matched ==> (m.user_id matches Some(u) && u@ == user_id@),
        !matched ==> m.user_id is None,
{
    MatchResult {
        matched,
        score: score as u32,
        user_id: if matched { Some(String::from_str(user_id)) } else { None },
    }
}

/// The result of a 1:N search in which no stored template scored above zero.
pub fn no_candidate_match() -> (m: MatchResult)
    ensures
        match_view(m) == (false, 0u32, None::<Seq<char>>),
{
    MatchResult { matched: false, score: 0, user_id: None }
}

/// The template an enrolment hands back: the kept sample's template under
/// the enrolled user's id.
pub fn enrolled_template(user_id: &str, data: Vec<u8>, created_at: i64) -> (t: Template)
    ensures
        t.user_id@ == user_id@,
        t.data@ == data@,
        t.created_at == created_at,
{
    Template { user_id: String::from_str(user_id), data, created_at }
}

/// The error an enrolment reports when it kept no sample.
pub fn no_samples_error() -> (e: FingerprintError)
    ensures
        e matches FingerprintError::SdkError(m) && m@ == "No valid samples captured"@,
{
    FingerprintError::SdkError(String::from_str("No valid samples captured"))
}


/// Number of leading bytes of the serial-number field before its NUL
/// terminator (the whole field when it has none).
pub open spec fn serial_len(sn: Seq<u8>) -> nat
    decreases sn.len(),
{
    if sn.len() == 0 || sn[0] == 0u8 {
        0
    } else {
        1 + serial_len(sn.drop_first())
    }
}

/// The serial number read from the device: the bytes before the first NUL,
/// each taken as the character of that code point.
pub open spec fn serial_text(sn: Seq<u8>) -> Seq<char> {
    Seq::new(serial_len(sn), |i: int| sn[i] as char)
}

proof fn lemma_serial_len(sn: Seq<u8>, k: int)
    requires
        0 <= k <= sn.len(),
        forall|j: int| 0 <= j < k ==> sn[j] != 0u8,
        k == sn.len() || sn[k] == 0u8,
    ensures
        serial_len(sn) == k,
    decreases k,
{
    if k > 0 {
        lemma_serial_len(sn.drop_first(), k - 1);
    }
}

pub fn serial_from_sn(sn: &[u8]) -> (s: String)
    ensures
        s@ == serial_text(sn@),
{
    let mut s = String::new();
    let mut i: usize = 0;
    while i < sn.len() && sn[i] != 0u8
        invariant
            i <= sn@.len(),
            forall|j: int| 0 <= j < i ==> sn@[j] != 0u8,
            s@ == Seq::new(i as nat, |j: int| sn@[j] as char),
        decreases sn@.len() - i,
    {
        push_char(&mut s, sn[i] as char);
        i = i + 1;
        assert(s@ =~= Seq::new(i as nat, |j: int| sn@[j] as char));
    }
    proof {
        lemma_serial_len(sn@, i as int);
    }
    s
}

/// The device description reported after a successful open: the SDK's
/// geometry and resolution (as the SDK reports them, truncated to 32 bits),
/// the serial number, and the firmware version in decimal.
pub fn device_info_from_params(
    sn: &[u8],
    fw_version: i64,
    image_width: i64,
    image_height: i64,
    image_dpi: i64,
) -> (info: DeviceInfo)
    ensures
        info.vendor@ == "SecuGen"@,
        info.model@ == "Hamster Plus"@,
        info.serial@ == serial_text(sn@),
        info.firmware@ == signed_decimal(fw_version as int),
        info.image_width == image_width as u32,
        info.image_height == image_height as u32,
        info.dpi == image_dpi as u32,
{
    DeviceInfo {
        vendor: String::from_str("SecuGen"),
        model: String::from_str("Hamster Plus"),
        serial: serial_from_sn(sn),
        firmware: i64_to_decimal(fw_version),
        image_width: image_width as u32,
        image_height: image_height as u32,
        dpi: image_dpi as u32,
    }
}

} // verus!
