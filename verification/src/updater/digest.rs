//! SHA-256 digests of downloaded files, rendered as lower-case hexadecimal.
use vstd::prelude::*;
use sha2::Digest;

verus! {

/// A running `sha2::Sha256` hasher. (`sha2::Sha256` is an alias of a
/// generic wrapper whose bounds Verus cannot take, so the hasher is held
/// here, out of Verus's sight.)
#[verifier::external_body]
pub struct Sha256Hasher {
    inner: sha2::Sha256,
}

/// The bytes fed so far into a hasher.
pub uninterp spec fn sha256_input(h: Sha256Hasher) -> Seq<u8>;

/// The SHA-256 digest of a byte string, as `sha2` computes it.
pub uninterp spec fn sha256_digest(data: Seq<u8>) -> Seq<u8>;

/// Calls `sha2::Sha256::new`: a hasher that has been fed nothing.
#[verifier::external_body]
fn hasher_new() -> (h: Sha256Hasher)
    ensures
        sha256_input(h) == Seq::<u8>::empty(),
{
    Sha256Hasher { inner: sha2::Sha256::new() }
}

/// Calls `Digest::update`, which feeds `data` after what was fed before.
#[verifier::external_body]
fn hasher_update(h: &mut Sha256Hasher, data: &[u8])
    ensures
        sha256_input(*final(h)) == sha256_input(*old(h)) + data@,
{
    h.inner.update(data);
}

/// Calls `Digest::finalize`: the 32-byte digest of everything fed.
#[verifier::external_body]
fn hasher_finalize(h: Sha256Hasher) -> (d: [u8; 32])
    ensures
        d@ == sha256_digest(sha256_input(h)),
{
    h.inner.finalize().into()
}

/// The lower-case hexadecimal digit for a value below sixteen.
pub open spec fn lower_hex_char(d: nat) -> char {
    if d < 10 {
        ((d + 48) as u8) as char
    } else {
        ((d + 87) as u8) as char
    }
}

/// Two lower-case hexadecimal digits per byte, most significant first.
pub open spec fn lower_hex(bytes: Seq<u8>) -> Seq<char>
    decreases bytes.len(),
{
    if bytes.len() == 0 {
        Seq::empty()
    } else {
        lower_hex(bytes.drop_last()) + seq![
            lower_hex_char((bytes.last() / 16) as nat),
            lower_hex_char((bytes.last() % 16) as nat),
        ]
    }
}

fn hex_digit_char(d: u8) -> (c: char)
    requires
        d < 16,
    ensures
        c == lower_hex_char(d as nat),
{
    if d < 10 {
        (d + 48) as char
    } else {
        (d + 87) as char
    }
}

/// Renders bytes as lower-case hexadecimal, two digits per byte.
pub fn to_lower_hex(bytes: &[u8]) -> (s: String)
    ensures
        s@ == lower_hex(bytes@),
{
    let mut s = String::new();
    let mut i: usize = 0;
    while i < bytes.len()
        invariant
            i <= bytes@.len(),
            s@ == lower_hex(bytes@.subrange(0, i as int)),
        decreases bytes.len() - i,
    {
        let b = bytes[i];
        crate::outside::push_char(&mut s, hex_digit_char(b / 16));
        crate::outside::push_char(&mut s, hex_digit_char(b % 16));
        proof {
            let t = bytes@.subrange(0, i + 1);
            assert(t.drop_last() =~= bytes@.subrange(0, i as int));
            assert(t.last() == b);
        }
        i = i + 1;
    }
    assert(bytes@.subrange(0, bytes@.len() as int) =~= bytes@);
    s
}

/// A SHA-256 computation fed piece by piece, as a file is read or
/// downloaded.
pub struct Sha256Stream {
    hasher: Sha256Hasher,
}

impl Sha256Stream {
    /// Everything fed so far.
    pub closed spec fn input(self) -> Seq<u8> {
        sha256_input(self.hasher)
    }

    pub fn new() -> (s: Self)
        ensures
            s.input() == Seq::<u8>::empty(),
    {
        Sha256Stream { hasher: hasher_new() }
    }

    /// Feeds the next piece.
    pub fn update(&mut self, data: &[u8])
        ensures
            final(self).input() == old(self).input() + data@,
    {
        hasher_update(&mut self.hasher, data);
    }

    /// The digest of everything fed, in lower-case hexadecimal.
    pub fn finish_hex(self) -> (hex: String)
        ensures
            hex@ == lower_hex(sha256_digest(self.input())),
    {
        let d = hasher_finalize(self.hasher);
        to_lower_hex(&d)
    }
}

/// The SHA-256 digest of a byte string, in lower-case hexadecimal.
pub fn sha256_hex(data: &[u8]) -> (hex: String)
    ensures
        hex@ == lower_hex(sha256_digest(data@)),
{
    let mut s = Sha256Stream::new();
    s.update(data);
    assert(Seq::<u8>::empty() + data@ =~= data@);
    s.finish_hex()
}

} // verus!
