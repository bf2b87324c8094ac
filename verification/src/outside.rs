//! Calls into std and outside crates whose behaviour the library relies on
//! but does not prove. Each item's doc comment names the function it calls
//! and says what its contract claims.
use vstd::prelude::*;
use vstd::utf8::{decode_utf8, valid_utf8};
use ed25519_dalek::Verifier;
use zeroize::Zeroize;

verus! {

/// Calls `zeroize::Zeroize::zeroize` on a byte vector. The crate overwrites
/// every element and the spare capacity with zeros and then clears the
/// vector; the contract claims only that the vector is left empty.
#[verifier::external_body]
pub(crate) fn wipe_bytes(bytes: &mut Vec<u8>)
    ensures
        final(bytes)@ == Seq::<u8>::empty(),
{
    bytes.zeroize();
}

/// Calls `zeroize::Zeroize::zeroize` on a string, which zeroizes the string's
/// byte buffer as for a vector; the contract claims only that the string is
/// left empty.
#[verifier::external_body]
pub(crate) fn wipe_string(text: &mut String)
    ensures
        final(text)@ == Seq::<char>::empty(),
{
    text.zeroize();
}

/// Calls `String::from_utf8`, which accepts exactly the byte sequences that
/// are valid UTF-8 and then holds the characters they encode.
#[verifier::external_body]
pub(crate) fn utf8_to_string(bytes: Vec<u8>) -> (r: Option<String>)
    ensures
        r is Some <==> valid_utf8(bytes@),
        r matches Some(s) ==> s@ == decode_utf8(bytes@),
{
    String::from_utf8(bytes).ok()
}

/// Calls `String::push`, which appends one character.
#[verifier::external_body]
pub(crate) fn push_char(text: &mut String, c: char)
    ensures
        final(text)@ == old(text)@.push(c),
{
    text.push(c);
}


/// The characters UTF-16 code units decode to, with invalid data replaced:
/// a unit outside the surrogate range (D800 to DFFF) is the character of
/// that value; a high surrogate (D800 to DBFF) followed by a low one (DC00
/// to DFFF) is the supplementary character the pair encodes; any other
/// surrogate becomes U+FFFD, and decoding goes on with the next unit.
pub open spec fn utf16_lossy(units: Seq<u16>) -> Seq<char>
    decreases units.len(),
{
    if units.len() == 0 {
        Seq::empty()
    } else {
        let u = units[0];
        if u < 0xD800 || u > 0xDFFF {
            seq![u as char] + utf16_lossy(units.subrange(1, units.len() as int))
        } else if u <= 0xDBFF && units.len() >= 2 && 0xDC00 <= units[1] && units[1] <= 0xDFFF {
            seq![(0x10000 + (u - 0xD800) * 0x400 + (units[1] - 0xDC00)) as char] + utf16_lossy(
                units.subrange(2, units.len() as int),
            )
        } else {
            seq!['\u{FFFD}'] + utf16_lossy(units.subrange(1, units.len() as int))
        }
    }
}

/// Calls `String::from_utf16_lossy`, which decodes as `utf16_lossy` says
/// (its documentation: invalid data replaced with U+FFFD; `char::decode_utf16`
/// gives the pairing of surrogates).
#[verifier::external_body]
pub(crate) fn utf16_to_string_lossy(units: &[u16]) -> (s: String)
    ensures
        s@ == utf16_lossy(units@),
{
    String::from_utf16_lossy(units)
}


/// What `semver::Version::parse` says of the text: `None` when it accepts
/// it, else the text its `semver::Error` displays. It depends on the text
/// alone.
pub uninterp spec fn semver_parse_error(text: Seq<char>) -> Option<Seq<char>>;

/// `semver::Version::parse` accepts the text.
pub open spec fn semver_accepts(text: Seq<char>) -> bool {
    semver_parse_error(text) is None
}

/// The text of the error `semver::Version::parse` gives for a text it refuses.
pub open spec fn semver_error_text(text: Seq<char>) -> Seq<char> {
    semver_parse_error(text)->0
}

/// Calls `semver::Version::parse`; on refusal the error's text is returned.
#[verifier::external_body]
pub(crate) fn semver_check(text: &str) -> (r: Result<(), String>)
    ensures
        r is Ok <==> semver_parse_error(text@) is None,
        r matches Err(e) ==> semver_parse_error(text@) == Some(e@),
{
    semver::Version::parse(text).map(|_| ()).map_err(|e| e.to_string())
}

/// Whether the version `candidate` parses to is greater than the one
/// `baseline` parses to, in `semver::Version`'s ordering. It depends on the
/// two texts alone.
pub uninterp spec fn semver_newer(candidate: Seq<char>, baseline: Seq<char>) -> bool;

/// Compares two parsed versions with `semver::Version`'s `>` (a derived,
/// total order, so no version is greater than itself).
#[verifier::external_body]
pub(crate) fn semver_greater(candidate: &str, baseline: &str) -> (r: bool)
    requires
        semver_accepts(candidate@),
        semver_accepts(baseline@),
    ensures
        r == semver_newer(candidate@, baseline@),
        candidate@ == baseline@ ==> !r,
{
    let c = semver::Version::parse(candidate).expect("accepted by semver_check");
    let b = semver::Version::parse(baseline).expect("accepted by semver_check");
    c > b
}

/// The text `semver::Version`'s `Display` gives for a parsed version. It
/// depends on the text parsed alone.
pub uninterp spec fn semver_canonical(text: Seq<char>) -> Seq<char>;

/// Parses a version with `semver::Version::parse` and renders it with its
/// `Display`.
#[verifier::external_body]
pub(crate) fn semver_render(text: &str) -> (r: String)
    requires
        semver_accepts(text@),
    ensures
        r@ == semver_canonical(text@),
{
    semver::Version::parse(text).expect("accepted by semver_check").to_string()
}

/// What `ed25519_dalek::VerifyingKey::from_bytes` says of 32 bytes: `None`
/// when they decompress to a curve point, else the text of its
/// `SignatureError`. It depends on the bytes alone.
pub uninterp spec fn ed25519_key_error(key: Seq<u8>) -> Option<Seq<char>>;

/// `ed25519_dalek::VerifyingKey::from_bytes` accepts the bytes.
pub open spec fn ed25519_key_decodes(key: Seq<u8>) -> bool {
    ed25519_key_error(key) is None
}

/// Calls `ed25519_dalek::VerifyingKey::from_bytes`; on refusal the error's
/// text is returned.
#[verifier::external_body]
pub(crate) fn ed25519_key_check(key: &[u8; 32]) -> (r: Result<(), String>)
    ensures
        r is Ok <==> ed25519_key_error(key@) is None,
        r matches Err(e) ==> ed25519_key_error(key@) == Some(e@),
{
    ed25519_dalek::VerifyingKey::from_bytes(key).map(|_| ()).map_err(|e| e.to_string())
}

/// What `ed25519_dalek`'s `Verifier::verify` says of `signature` (read with
/// `Signature::from_bytes`) over `message` for the key `key`: `None` when it
/// accepts, else the text of its `SignatureError`. It depends on the three
/// byte strings alone.
pub uninterp spec fn ed25519_verify_error(key: Seq<u8>, message: Seq<u8>, signature: Seq<u8>) -> Option<Seq<char>>;

/// Calls `Verifier::verify` of `ed25519_dalek::VerifyingKey`; the key and
/// the signature are first converted from their bytes. On refusal the
/// error's text is returned.
#[verifier::external_body]
pub(crate) fn ed25519_verify(key: &[u8; 32], message: &[u8], signature: &[u8; 64]) -> (r: Result<(), String>)
    requires
        ed25519_key_decodes(key@),
    ensures
        r is Ok <==> ed25519_verify_error(key@, message@, signature@) is None,
        r matches Err(e) ==> ed25519_verify_error(key@, message@, signature@) == Some(e@),
{
    let vk = ed25519_dalek::VerifyingKey::from_bytes(key).expect("accepted by ed25519_key_check");
    let sig = ed25519_dalek::Signature::from_bytes(signature);
    vk.verify(message, &sig).map_err(|e| e.to_string())
}

/// The text after the last '/' of a name (all of it when it has none).
pub open spec fn last_segment(name: Seq<char>) -> Seq<char>
    decreases name.len(),
{
    if name.len() == 0 {
        Seq::empty()
    } else if name.last() == '/' {
        Seq::empty()
    } else {
        last_segment(name.drop_last()).push(name.last())
    }
}

/// A name that every platform splits into components at '/' alone: it holds
/// no '\\' (a separator on Windows) and no ':' (a drive prefix there), and
/// does not start with "//" (a network share there).
pub open spec fn portable_path(name: Seq<char>) -> bool {
    &&& !name.contains('\\')
    &&& !name.contains(':')
    &&& !(name.len() >= 2 && name[0] == '/' && name[1] == '/')
}

/// A name without its trailing separators and trailing "." components,
/// which `Path::components` drops (a "." that is the whole name stays).
pub open spec fn trailing_trimmed(name: Seq<char>) -> Seq<char>
    decreases name.len(),
{
    if name.len() > 0 && name.last() == '/' {
        trailing_trimmed(name.drop_last())
    } else if name.len() > 1 && last_segment(name) == "."@ {
        trailing_trimmed(name.drop_last())
    } else {
        name
    }
}

/// The final component of a name split at '/' alone, when it is a normal
/// one: the last segment once trailing separators and "." components are
/// dropped; none when that is empty (the root, or an empty name), "." or
/// "..".
pub open spec fn final_component(name: Seq<char>) -> Option<Seq<char>> {
    let s = last_segment(trailing_trimmed(name));
    if s.len() > 0 && s != "."@ && s != ".."@ {
        Some(s)
    } else {
        None
    }
}

/// The text of an optional string.
pub open spec fn text_of(o: Option<String>) -> Option<Seq<char>> {
    match o {
        Some(s) => Some(s@),
        None => None,
    }
}

/// Calls `std::path::Path::file_name` (converted lossily to a string, which
/// loses nothing for a `&str`): the final component of the path, if it is a
/// normal one. A component holds no '/' (a separator on every platform), is
/// not empty and is not "..". For a name split at '/' alone it is
/// `final_component`, as the documentation of `Path::file_name` and
/// `Path::components` gives it: repeated and trailing separators are
/// ignored, "." components are dropped but at the start, and a path ending
/// in ".." has no file name. For other names, whose components depend on
/// the platform, only the first clause is stated.
#[verifier::external_body]
pub(crate) fn final_path_component(name: &str) -> (r: Option<String>)
    ensures
        r matches Some(c) ==> c@.len() > 0 && !c@.contains('/') && c@ != ".."@,
        portable_path(name@) ==> text_of(r) == final_component(name@),
{
    std::path::Path::new(name).file_name().map(|c| c.to_string_lossy().into_owned())
}

/// The lower-case mapping `str::to_lowercase` applies (Unicode's, independent
/// of locale). It depends on the text alone.
pub uninterp spec fn unicode_lowercase(text: Seq<char>) -> Seq<char>;

/// Calls `str::to_lowercase`.
#[verifier::external_body]
pub(crate) fn lowercase(text: &str) -> (r: String)
    ensures
        r@ == unicode_lowercase(text@),
{
    text.to_lowercase()
}

} // verus!
