//! Checks on downloaded release assets: the checksum, the Ed25519 signature
//! over the archive, and the limits that bound what extracting the archive
//! may write.
use vstd::prelude::*;
use vstd::string::{StrSliceExecFns, StringExecFns};
use vstd::utf8::{encode_utf8, is_ascii_chars, is_ascii_chars_encode_utf8};
use crate::outside::{
    ed25519_key_check, ed25519_key_error, ed25519_verify, ed25519_verify_error,
    final_component, final_path_component, lowercase, portable_path,
    unicode_lowercase,
};
use crate::text::{decimal, is_space, is_space_char, str_eq, u64_to_decimal};
use crate::updater::digest::{lower_hex, lower_hex_char};
use crate::updater::github::UpdateError;

verus! {

/// Checks a computed digest against the published one.
pub fn verify_checksum(actual: &str, expected: &str) -> (r: Result<(), UpdateError>)
    ensures
        actual@ == expected@ ==> r is Ok,
        actual@ != expected@ ==> (r matches Err(UpdateError::ChecksumMismatch { expected: e, actual: a })
            && e@ == expected@ && a@ == actual@),
{
    if !str_eq(actual, expected) {
        return Err(
            UpdateError::ChecksumMismatch {
                expected: String::from_str(expected),
                actual: String::from_str(actual),
            },
        );
    }
    Ok(())
}

/// The text with its leading whitespace removed.
pub open spec fn skip_leading_space(s: Seq<char>) -> Seq<char>
    decreases s.len(),
{
    if s.len() > 0 && is_space(s[0]) {
        skip_leading_space(s.subrange(1, s.len() as int))
    } else {
        s
    }
}

/// The characters before the first whitespace.
pub open spec fn take_word(s: Seq<char>) -> Seq<char>
    decreases s.len(),
{
    if s.len() > 0 && !is_space(s[0]) {
        seq![s[0]] + take_word(s.subrange(1, s.len() as int))
    } else {
        Seq::empty()
    }
}

/// The first whitespace-separated word of a text (empty when there is none).
pub open spec fn first_word(s: Seq<char>) -> Seq<char> {
    take_word(skip_leading_space(s))
}

proof fn lemma_skip_step(s: Seq<char>, i: int)
    requires
        0 <= i < s.len(),
        is_space(s[i]),
    ensures
        skip_leading_space(s.subrange(i, s.len() as int)) == skip_leading_space(
            s.subrange(i + 1, s.len() as int),
        ),
{
    let t = s.subrange(i, s.len() as int);
    assert(t.subrange(1, t.len() as int) =~= s.subrange(i + 1, s.len() as int));
}

proof fn lemma_take_word_upto(s: Seq<char>, i: int, j: int)
    requires
        0 <= i <= j <= s.len(),
        forall|k: int| i <= k < j ==> !is_space(#[trigger] s[k]),
        j == s.len() || is_space(s[j]),
    ensures
        take_word(s.subrange(i, s.len() as int)) == s.subrange(i, j),
    decreases j - i,
{
    let t = s.subrange(i, s.len() as int);
    if i < j {
        lemma_take_word_upto(s, i + 1, j);
        assert(t.subrange(1, t.len() as int) =~= s.subrange(i + 1, s.len() as int));
        assert(seq![s[i]] + s.subrange(i + 1, j) =~= s.subrange(i, j));
    } else {
        assert(s.subrange(i, j) =~= Seq::<char>::empty());
    }
}

/// Position of the first character at or after `from` that is not
/// whitespace, and the text from there on has its leading space skipped.
fn skip_spaces_from(text: &str, from: usize) -> (i: usize)
    requires
        from <= text@.len(),
    ensures
        from <= i <= text@.len(),
        skip_leading_space(text@.subrange(from as int, text@.len() as int)) == text@.subrange(
            i as int,
            text@.len() as int,
        ),
        i < text@.len() ==> !is_space(text@[i as int]),
{
    let n = text.unicode_len();
    let mut i = from;
    while i < n
        invariant
            n == text@.len(),
            from <= i <= n,
            skip_leading_space(text@.subrange(from as int, n as int)) == skip_leading_space(
                text@.subrange(i as int, n as int),
            ),
        ensures
            from <= i <= n,
            skip_leading_space(text@.subrange(from as int, n as int)) == skip_leading_space(
                text@.subrange(i as int, n as int),
            ),
            i < n ==> !is_space(text@[i as int]),
        decreases n - i,
    {
        if !is_space_char(text.get_char(i)) {
            break;
        }
        proof {
            lemma_skip_step(text@, i as int);
        }
        i = i + 1;
    }
    proof {
        let t = text@.subrange(i as int, n as int);
        if i < n {
            assert(t[0] == text@[i as int]);
        } else {
            assert(t.len() == 0);
        }
    }
    i
}

/// The digest a `.sha256` file publishes: its first word, lower-cased.
pub fn checksum_from_text(text: &str) -> (r: Result<String, UpdateError>)
    ensures
        first_word(text@).len() == 0 ==> (r matches Err(UpdateError::Download(m)) && m@
            == "Empty checksum file"@),
        first_word(text@).len() > 0 ==> (r matches Ok(c) && c@ == unicode_lowercase(
            first_word(text@),
        )),
{
    let n = text.unicode_len();
    let start = skip_spaces_from(text, 0);
    let mut end = start;
    while end < n
        invariant
            n == text@.len(),
            start <= end <= n,
            forall|k: int| start <= k < end ==> !is_space(#[trigger] text@[k]),
        ensures
            start <= end <= n,
            forall|k: int| start <= k < end ==> !is_space(#[trigger] text@[k]),
            end == n || is_space(text@[end as int]),
        decreases n - end,
    {
        if is_space_char(text.get_char(end)) {
            break;
        }
        end = end + 1;
    }
    proof {
        assert(text@.subrange(0, n as int) =~= text@);
        lemma_take_word_upto(text@, start as int, end as int);
    }
    if end == start {
        return Err(UpdateError::Download(String::from_str("Empty checksum file")));
    }
    let word = text.substring_char(start, end);
    Ok(lowercase(word))
}

/// Repeated leading `0x` prefixes removed.
pub open spec fn strip_hex_prefixes(s: Seq<char>) -> Seq<char>
    decreases s.len(),
{
    if s.len() >= 2 && s[0] == '0' && s[1] == 'x' {
        strip_hex_prefixes(s.subrange(2, s.len() as int))
    } else {
        s
    }
}

/// Every whitespace character removed.
pub open spec fn drop_spaces(s: Seq<char>) -> Seq<char>
    decreases s.len(),
{
    if s.len() == 0 {
        s
    } else {
        let rest = drop_spaces(s.drop_last());
        if is_space(s.last()) {
            rest
        } else {
            rest.push(s.last())
        }
    }
}

/// The text a public key is read from: leading whitespace and `0x`
/// prefixes removed, then every whitespace character dropped. (Trailing
/// whitespace, which `str::trim` also removes, is dropped with the rest.)
pub open spec fn key_text(hex: Seq<char>) -> Seq<char> {
    drop_spaces(strip_hex_prefixes(skip_leading_space(hex)))
}

/// The UTF-8 bytes of the key text, read two at a time.
pub open spec fn key_bytes(hex: Seq<char>) -> Seq<u8> {
    encode_utf8(key_text(hex))
}

/// The value of a hexadecimal digit byte, in either case.
pub open spec fn hex_value(b: u8) -> Option<u8> {
    if 48 <= b <= 57 {
        Some((b - 48) as u8)
    } else if 97 <= b <= 102 {
        Some((b - 87) as u8)
    } else if 65 <= b <= 70 {
        Some((b - 55) as u8)
    } else {
        None
    }
}

/// Two bytes that are valid UTF-8 on their own: two ASCII characters or one
/// two-byte character.
pub open spec fn utf8_pair(b0: u8, b1: u8) -> bool {
    (b0 < 128 && b1 < 128) || (0xc2 <= b0 <= 0xdf && 0x80 <= b1 <= 0xbf)
}

/// The byte written by two hexadecimal digits, high digit first; nothing
/// for any other pair of bytes (a sign among them).
pub open spec fn pair_value(b0: u8, b1: u8) -> Option<u8> {
    match (hex_value(b0), hex_value(b1)) {
        (Some(h), Some(l)) => Some((16 * h + l) as u8),
        _ => None,
    }
}

/// The `k`th pair of the key bytes decodes to a byte.
pub open spec fn pair_ok(bytes: Seq<u8>, k: int) -> bool {
    utf8_pair(bytes[2 * k], bytes[2 * k + 1]) && pair_value(bytes[2 * k], bytes[2 * k + 1]) is Some
}

/// The complaint about a pair that does not decode.
pub open spec fn pair_error(bytes: Seq<u8>, k: int) -> Seq<char> {
    if !utf8_pair(bytes[2 * k], bytes[2 * k + 1]) {
        "public key contains non-ASCII"@
    } else {
        "public key contains non-hex chars"@
    }
}

/// The first pair from `k` on that does not decode.
pub open spec fn first_bad_pair(bytes: Seq<u8>, k: nat) -> Option<int>
    decreases 32 - k,
{
    if k >= 32 {
        None
    } else if !pair_ok(bytes, k as int) {
        Some(k as int)
    } else {
        first_bad_pair(bytes, k + 1)
    }
}

/// The 32 key bytes read from the key text's bytes, or the complaint.
pub open spec fn key_result(bytes: Seq<u8>) -> Result<Seq<u8>, Seq<char>> {
    if bytes.len() != 64 {
        Err("public key must be 64 hex chars, got "@ + decimal(bytes.len()))
    } else {
        match first_bad_pair(bytes, 0) {
            Some(k) => Err(pair_error(bytes, k)),
            None => Ok(Seq::new(32, |i: int| pair_value(bytes[2 * i], bytes[2 * i + 1])->0)),
        }
    }
}

proof fn lemma_first_bad(bytes: Seq<u8>, from: nat, k: nat)
    requires
        from <= k <= 32,
        forall|j: int| from <= j < k ==> pair_ok(bytes, j),
        k < 32 ==> !pair_ok(bytes, k as int),
    ensures
        first_bad_pair(bytes, from) == (if k < 32 {
            Some(k as int)
        } else {
            None::<int>
        }),
    decreases k - from,
{
    if from < k {
        lemma_first_bad(bytes, from + 1, k);
    }
}

fn hex_digit(b: u8) -> (r: Option<u8>)
    ensures
        r == hex_value(b),
{
    if 48 <= b && b <= 57 {
        Some(b - 48)
    } else if 97 <= b && b <= 102 {
        Some(b - 87)
    } else if 65 <= b && b <= 70 {
        Some(b - 55)
    } else {
        None
    }
}

fn read_pair(b0: u8, b1: u8) -> (r: Option<u8>)
    ensures
        r == pair_value(b0, b1),
{
    match (hex_digit(b0), hex_digit(b1)) {
        (Some(h), Some(l)) => Some(16 * h + l),
        _ => None,
    }
}

fn key_text_of(hex: &str) -> (cleaned: String)
    ensures
        cleaned@ == key_text(hex@),
{
    let n = hex.unicode_len();
    let mut i = skip_spaces_from(hex, 0);
    proof {
        assert(hex@.subrange(0, n as int) =~= hex@);
    }
    while n - i >= 2
        invariant
            n == hex@.len(),
            i <= n,
            strip_hex_prefixes(skip_leading_space(hex@)) == strip_hex_prefixes(
                hex@.subrange(i as int, n as int),
            ),
        ensures
            i <= n,
            strip_hex_prefixes(skip_leading_space(hex@)) == strip_hex_prefixes(
                hex@.subrange(i as int, n as int),
            ),
            !(n - i >= 2 && hex@[i as int] == '0' && hex@[i + 1] == 'x'),
        decreases n - i,
    {
        if !(hex.get_char(i) == '0' && hex.get_char(i + 1) == 'x') {
            break;
        }
        proof {
            let t = hex@.subrange(i as int, n as int);
            assert(t.subrange(2, t.len() as int) =~= hex@.subrange(i + 2, n as int));
        }
        i = i + 2;
    }
    proof {
        let t = hex@.subrange(i as int, n as int);
        if n - i >= 2 {
            assert(t[0] == hex@[i as int] && t[1] == hex@[i + 1]);
        }
        assert(strip_hex_prefixes(t) == t);
    }
    let start = i;
    let mut cleaned = String::new();
    let mut j = start;
    proof {
        assert(hex@.subrange(start as int, start as int) =~= Seq::<char>::empty());
    }
    while j < n
        invariant
            n == hex@.len(),
            start <= j <= n,
            cleaned@ == drop_spaces(hex@.subrange(start as int, j as int)),
        decreases n - j,
    {
        let c = hex.get_char(j);
        proof {
            let u = hex@.subrange(start as int, j + 1);
            assert(u.drop_last() =~= hex@.subrange(start as int, j as int));
            assert(u.last() == c);
        }
        if !is_space_char(c) {
            crate::outside::push_char(&mut cleaned, c);
        }
        j = j + 1;
    }
    cleaned
}

/// Reads a 32-byte Ed25519 public key from its hexadecimal text (64 digits,
/// optionally `0x`-prefixed, whitespace anywhere).
pub fn parse_pubkey_hex(hex: &str) -> (r: Result<[u8; 32], UpdateError>)
    ensures
        match key_result(key_bytes(hex@)) {
            Ok(key) => r matches Ok(k) && k@ == key,
            Err(m) => r matches Err(UpdateError::SignatureInvalid(e)) && e@ == m,
        },
{
    let cleaned = key_text_of(hex);
    let bytes = cleaned.as_str().as_bytes();
    let len = bytes.len();
    if len != 64 {
        let mut m = String::from_str("public key must be 64 hex chars, got ");
        let d = u64_to_decimal(len as u64);
        m.append(d.as_str());
        return Err(UpdateError::SignatureInvalid(m));
    }
    let mut out = [0u8; 32];
    let mut k: usize = 0;
    while k < 32
        invariant
            k <= 32,
            bytes@ == key_bytes(hex@),
            bytes@.len() == 64,
            forall|j: int| 0 <= j < k ==> pair_ok(bytes@, j),
            forall|j: int| 0 <= j < k ==> Some(#[trigger] out@[j]) == pair_value(bytes@[2 * j], bytes@[2 * j + 1]),
        decreases 32 - k,
    {
        let b0 = bytes[2 * k];
        let b1 = bytes[2 * k + 1];
        let pair_is_utf8 = (b0 < 128 && b1 < 128) || (0xc2 <= b0 && b0 <= 0xdf && 0x80 <= b1 && b1
            <= 0xbf);
        if !pair_is_utf8 {
            proof {
                lemma_first_bad(bytes@, 0, k as nat);
            }
            return Err(UpdateError::SignatureInvalid(String::from_str("public key contains non-ASCII")));
        }
        match read_pair(b0, b1) {
            None => {
                proof {
                    lemma_first_bad(bytes@, 0, k as nat);
                }
                return Err(
                    UpdateError::SignatureInvalid(String::from_str("public key contains non-hex chars")),
                );
            },
            Some(v) => {
                out[k] = v;
            },
        }
        k = k + 1;
    }
    proof {
        lemma_first_bad(bytes@, 0, 32);
        assert(out@ =~= Seq::new(32, |i: int| pair_value(bytes@[2 * i], bytes@[2 * i + 1])->0));
    }
    Ok(out)
}

/// A character `lower_hex` writes.
pub open spec fn is_lower_hex_digit(c: char) -> bool {
    ('0' <= c && c <= '9') || ('a' <= c && c <= 'f')
}

proof fn lemma_lower_hex_shape(k: Seq<u8>)
    ensures
        lower_hex(k).len() == 2 * k.len(),
        forall|i: int|
            0 <= i < k.len() ==> lower_hex(k)[2 * i] == lower_hex_char((k[i] / 16) as nat)
                && lower_hex(k)[2 * i + 1] == lower_hex_char((k[i] % 16) as nat),
    decreases k.len(),
{
    if k.len() > 0 {
        let p = k.drop_last();
        lemma_lower_hex_shape(p);
        assert forall|i: int| 0 <= i < k.len() implies lower_hex(k)[2 * i] == lower_hex_char(
            (k[i] / 16) as nat,
        ) && lower_hex(k)[2 * i + 1] == lower_hex_char((k[i] % 16) as nat) by {
            if i < k.len() - 1 {
                assert(p[i] == k[i]);
            }
        }
    }
}

proof fn lemma_hex_text_is_clean(s: Seq<char>)
    requires
        forall|j: int| 0 <= j < s.len() ==> is_lower_hex_digit(#[trigger] s[j]),
    ensures
        skip_leading_space(s) == s,
        strip_hex_prefixes(s) == s,
        drop_spaces(s) == s,
        is_ascii_chars(s),
    decreases s.len(),
{
    if s.len() > 0 {
        assert(is_lower_hex_digit(s[0]));
        let p = s.drop_last();
        assert forall|j: int| 0 <= j < p.len() implies is_lower_hex_digit(#[trigger] p[j]) by {
            assert(is_lower_hex_digit(s[j]));
        }
        lemma_hex_text_is_clean(p);
        assert(is_lower_hex_digit(s.last()));
        assert(p.push(s.last()) =~= s);
    }
    if s.len() >= 2 {
        assert(is_lower_hex_digit(s[1]));
    }
    assert forall|j: int| 0 <= j < s.len() implies '\0' <= #[trigger] s[j] <= '\u{7f}' by {
        assert(is_lower_hex_digit(s[j]));
    }
}

/// A key written as 64 lower-case hex digits, two per byte (as `to_lower_hex`
/// and the key generator write it), reads back as the same 32 bytes.
pub proof fn law_key_hex_round_trip(key: Seq<u8>)
    requires
        key.len() == 32,
    ensures
        key_result(key_bytes(lower_hex(key))) == Ok::<Seq<u8>, Seq<char>>(key),
{
    let h = lower_hex(key);
    lemma_lower_hex_shape(key);
    assert forall|j: int| 0 <= j < h.len() implies is_lower_hex_digit(#[trigger] h[j]) by {
        let i = j / 2;
        assert(0 <= i < 32);
        if j % 2 == 0 {
            assert(j == 2 * i);
        } else {
            assert(j == 2 * i + 1);
        }
        assert(key[i] / 16 < 16);
        assert(key[i] % 16 < 16);
    }
    lemma_hex_text_is_clean(h);
    assert(key_text(h) == h);
    is_ascii_chars_encode_utf8(h);
    let bytes = key_bytes(h);
    assert(bytes.len() == 64);
    assert forall|i: int| 0 <= i < 32 implies pair_ok(bytes, i) && pair_value(
        bytes[2 * i],
        bytes[2 * i + 1],
    ) == Some(key[i]) by {
        let hi = key[i] / 16;
        let lo = key[i] % 16;
        assert(h[2 * i] == lower_hex_char(hi as nat));
        assert(h[2 * i + 1] == lower_hex_char(lo as nat));
        assert(bytes[2 * i] == h[2 * i] as u8);
        assert(bytes[2 * i + 1] == h[2 * i + 1] as u8);
        assert(hex_value(bytes[2 * i]) == Some(hi as u8));
        assert(hex_value(bytes[2 * i + 1]) == Some(lo as u8));
        assert(16 * hi + lo == key[i]);
    }
    lemma_first_bad(bytes, 0, 32);
    assert(Seq::new(32, |i: int| pair_value(bytes[2 * i], bytes[2 * i + 1])->0) =~= key);
}

/// What checking a signature gives: `Ok` or the complaint.
pub open spec fn signature_result(message: Seq<u8>, signature: Seq<u8>, hex: Seq<char>) -> Result<
    (),
    Seq<char>,
> {
    if signature.len() != 64 {
        Err("signature must be 64 bytes, got "@ + decimal(signature.len()))
    } else {
        match key_result(key_bytes(hex)) {
            Err(m) => Err(m),
            Ok(key) => match ed25519_key_error(key) {
                Some(e) => Err("invalid public key: "@ + e),
                None => match ed25519_verify_error(key, message, signature) {
                    Some(e) => Err(e),
                    None => Ok(()),
                },
            },
        }
    }
}

/// Verifies an Ed25519 signature (exactly 64 raw bytes) over `message` with
/// a hex-encoded public key.
pub fn verify_signature(message: &[u8], signature_bytes: &[u8], pubkey_hex: &str) -> (r: Result<
    (),
    UpdateError,
>)
    ensures
        match signature_result(message@, signature_bytes@, pubkey_hex@) {
            Ok(()) => r is Ok,
            Err(m) => r matches Err(UpdateError::SignatureInvalid(e)) && e@ == m,
        },
{
    let n = signature_bytes.len();
    if n != 64 {
        let mut m = String::from_str("signature must be 64 bytes, got ");
        let d = u64_to_decimal(n as u64);
        m.append(d.as_str());
        return Err(UpdateError::SignatureInvalid(m));
    }
    let pubkey = parse_pubkey_hex(pubkey_hex)?;
    if let Err(e) = ed25519_key_check(&pubkey) {
        let mut m = String::from_str("invalid public key: ");
        m.append(e.as_str());
        return Err(UpdateError::SignatureInvalid(m));
    }
    let mut sig = [0u8; 64];
    let mut i: usize = 0;
    while i < 64
        invariant
            i <= 64,
            signature_bytes@.len() == 64,
            forall|j: int| 0 <= j < i ==> sig@[j] == signature_bytes@[j],
        decreases 64 - i,
    {
        sig[i] = signature_bytes[i];
        i = i + 1;
    }
    assert(sig@ =~= signature_bytes@);
    match ed25519_verify(&pubkey, message, &sig) {
        Ok(()) => Ok(()),
        Err(e) => Err(UpdateError::SignatureInvalid(e)),
    }
}

/// Largest uncompressed size accepted for one file of a release archive.
pub const ZIP_PER_FILE_LIMIT: u64 = 64 * 1024 * 1024;

/// Largest uncompressed size accepted for all files of a release archive.
pub const ZIP_TOTAL_LIMIT: u64 = 256 * 1024 * 1024;

/// What to do with one entry of the archive.
#[derive(Debug, Clone, PartialEq, Eq)]
pub enum EntryPlan {
    /// A directory: nothing is written.
    Skip,
    /// Write the entry as `file_name` directly inside the destination,
    /// copying at most `cap` bytes of it.
    Write { file_name: String, cap: u64 },
}

/// The extraction of one archive: its limits, the bytes written so far and
/// the names of the files written. Entries are offered one at a time with
/// `plan_entry`, and what was written for an planned entry is reported with
/// `record`. An entry (or an archive) over a limit is refused, so the bytes
/// accepted never exceed the total limit.
pub struct ExtractBudget {
    per_file_limit: u64,
    total_limit: u64,
    total_written: u64,
    extracted: Vec<String>,
}

/// `entry {name} declares uncompressed size {claimed} > per-file limit {limit}`
pub open spec fn declared_too_large(name: Seq<char>, claimed: u64, limit: u64) -> Seq<char> {
    "entry "@ + name + " declares uncompressed size "@ + decimal(claimed as nat)
        + " > per-file limit "@ + decimal(limit as nat)
}

/// `zip total uncompressed size would exceed {limit} bytes`
pub open spec fn total_would_exceed(limit: u64) -> Seq<char> {
    "zip total uncompressed size would exceed "@ + decimal(limit as nat) + " bytes"@
}

/// `entry {name} exceeded per-file limit during extraction (zip bomb suspected)`
pub open spec fn wrote_too_much(name: Seq<char>) -> Seq<char> {
    "entry "@ + name + " exceeded per-file limit during extraction (zip bomb suspected)"@
}

/// `zip total uncompressed size exceeded {limit} bytes`
pub open spec fn total_exceeded(limit: u64) -> Seq<char> {
    "zip total uncompressed size exceeded "@ + decimal(limit as nat) + " bytes"@
}

impl ExtractBudget {
    #[verifier::type_invariant]
    spec fn within_limits(self) -> bool {
        &&& self.per_file_limit < u64::MAX
        &&& self.total_written <= self.total_limit
    }

    pub closed spec fn per_file(self) -> u64 {
        self.per_file_limit
    }

    pub closed spec fn total(self) -> u64 {
        self.total_limit
    }

    /// Bytes written for the files accepted so far.
    pub closed spec fn written(self) -> u64 {
        self.total_written
    }

    /// Names of the files accepted so far, in order.
    pub closed spec fn names(self) -> Seq<String> {
        self.extracted@
    }

    /// A budget with the given limits and nothing written. The per-file limit
    /// must leave room for the one extra byte copied to detect an entry that
    /// is longer than it declares.
    pub fn new(per_file_limit: u64, total_limit: u64) -> (b: Self)
        requires
            per_file_limit < u64::MAX,
        ensures
            b.per_file() == per_file_limit,
            b.total() == total_limit,
            b.written() == 0,
            b.names() == Seq::<String>::empty(),
    {
        ExtractBudget { per_file_limit, total_limit, total_written: 0, extracted: Vec::new() }
    }

    /// The limits release archives are extracted with.
    pub fn production() -> (b: Self)
        ensures
            b.per_file() == ZIP_PER_FILE_LIMIT,
            b.total() == ZIP_TOTAL_LIMIT,
            b.written() == 0,
            b.names() == Seq::<String>::empty(),
    {
        Self::new(ZIP_PER_FILE_LIMIT, ZIP_TOTAL_LIMIT)
    }

    /// Bytes accepted so far; never more than the total limit.
    pub fn total_written(&self) -> (w: u64)
        ensures
            w == self.written(),
            w <= self.total(),
    {
        proof {
            use_type_invariant(self);
        }
        self.total_written
    }

    /// Decides on an entry from its header: its name, whether it is a
    /// directory and the uncompressed size it declares. A file is written
    /// under the final component of its name only, so nothing lands outside
    /// the destination.
    pub fn plan_entry(&self, name: &str, is_dir: bool, claimed: u64) -> (r: Result<EntryPlan, UpdateError>)
        ensures
            is_dir ==> r == Ok::<EntryPlan, UpdateError>(EntryPlan::Skip),
            !is_dir && claimed > self.per_file() ==> (r matches Err(UpdateError::ZipError(m))
                && m@ == declared_too_large(name@, claimed, self.per_file())),
            !is_dir && claimed <= self.per_file() && self.written() + claimed > self.total() ==> (
            r matches Err(UpdateError::ZipError(m)) && m@ == total_would_exceed(self.total())),
            !is_dir && claimed <= self.per_file() && self.written() + claimed <= self.total() ==> (
            (r matches Err(UpdateError::ZipError(m)) && m@ == "Invalid entry name: "@ + name@) || (
            r matches Ok(EntryPlan::Write { file_name, cap }) && cap == self.per_file() + 1
                && file_name@.len() > 0 && !file_name@.contains('/') && file_name@ != ".."@)),
            !is_dir && claimed <= self.per_file() && self.written() + claimed <= self.total()
                && portable_path(name@) && final_component(name@) is Some ==> (r matches Ok(
                EntryPlan::Write { file_name, cap },
            ) && file_name@ == final_component(name@)->0 && cap == self.per_file() + 1),
            !is_dir && claimed <= self.per_file() && self.written() + claimed <= self.total()
                && portable_path(name@) && final_component(name@) is None ==> (r matches Err(
                UpdateError::ZipError(m)) && m@ == "Invalid entry name: "@ + name@),
    {
        proof {
            use_type_invariant(self);
        }
        if is_dir {
            return Ok(EntryPlan::Skip);
        }
        if claimed > self.per_file_limit {
            let mut m = String::from_str("entry ");
            m.append(name);
            m.append(" declares uncompressed size ");
            let c = u64_to_decimal(claimed);
            m.append(c.as_str());
            m.append(" > per-file limit ");
            let l = u64_to_decimal(self.per_file_limit);
            m.append(l.as_str());
            return Err(UpdateError::ZipError(m));
        }
        if claimed > self.total_limit - self.total_written {
            let mut m = String::from_str("zip total uncompressed size would exceed ");
            let l = u64_to_decimal(self.total_limit);
            m.append(l.as_str());
            m.append(" bytes");
            return Err(UpdateError::ZipError(m));
        }
        match final_path_component(name) {
            None => {
                let mut m = String::from_str("Invalid entry name: ");
                m.append(name);
                Err(UpdateError::ZipError(m))
            },
            Some(file_name) => Ok(EntryPlan::Write { file_name, cap: self.per_file_limit + 1 }),
        }
    }

    /// Records that `written` bytes were copied for the planned entry `name`,
    /// stored as `file_name`. Over a limit the entry is refused (and the file
    /// should be removed); otherwise it counts as extracted.
    pub fn record(&mut self, name: &str, file_name: String, written: u64) -> (r: Result<(), UpdateError>)
        ensures
            written > old(self).per_file() ==> (r matches Err(UpdateError::ZipError(m)) && m@
                == wrote_too_much(name@)),
            written <= old(self).per_file() && old(self).written() + written > old(self).total() ==> (
            r matches Err(UpdateError::ZipError(m)) && m@ == total_exceeded(old(self).total())),
            r is Err ==> final(self).written() == old(self).written() && final(self).names()
                == old(self).names(),
            written <= old(self).per_file() && old(self).written() + written <= old(self).total()
                ==> r is Ok,
            r is Ok ==> final(self).written() == old(self).written() + written && final(self).names()
                == old(self).names().push(file_name),
            final(self).per_file() == old(self).per_file(),
            final(self).total() == old(self).total(),
    {
        proof {
            use_type_invariant(&*self);
        }
        if written > self.per_file_limit {
            let mut m = String::from_str("entry ");
            m.append(name);
            m.append(" exceeded per-file limit during extraction (zip bomb suspected)");
            return Err(UpdateError::ZipError(m));
        }
        if written > self.total_limit - self.total_written {
            let mut m = String::from_str("zip total uncompressed size exceeded ");
            let l = u64_to_decimal(self.total_limit);
            m.append(l.as_str());
            m.append(" bytes");
            return Err(UpdateError::ZipError(m));
        }
        let mut names: Vec<String> = Vec::new();
        std::mem::swap(&mut names, &mut self.extracted);
        names.push(file_name);
        *self = ExtractBudget {
            per_file_limit: self.per_file_limit,
            total_limit: self.total_limit,
            total_written: self.total_written + written,
            extracted: names,
        };
        Ok(())
    }

    /// The names of the files extracted, in order.
    pub fn into_extracted(self) -> (names: Vec<String>)
        ensures
            names@ == self.names(),
    {
        self.extracted
    }
}

} // verus!
