//! Content digests for build artifacts: SHA-256 through the `sha2` crate,
//! rendered as lowercase hex through the `hex` crate.
use vstd::prelude::*;

verus! {

/// The SHA-256 digest of a byte sequence. The algorithm itself is carried
/// out by the `sha2` crate; here only its result is named, as a function of
/// the input bytes alone.
pub uninterp spec fn sha256_of(data: Seq<u8>) -> Seq<u8>;

/// The lowercase hex character for a value below 16.
pub open spec fn hex_digit(d: nat) -> char {
    if d == 0 {
        '0'
    } else if d == 1 {
        '1'
    } else if d == 2 {
        '2'
    } else if d == 3 {
        '3'
    } else if d == 4 {
        '4'
    } else if d == 5 {
        '5'
    } else if d == 6 {
        '6'
    } else if d == 7 {
        '7'
    } else if d == 8 {
        '8'
    } else if d == 9 {
        '9'
    } else if d == 10 {
        'a'
    } else if d == 11 {
        'b'
    } else if d == 12 {
        'c'
    } else if d == 13 {
        'd'
    } else if d == 14 {
        'e'
    } else {
        'f'
    }
}

/// Lowercase hex rendering of a byte sequence: two characters per byte,
/// high nibble first.
pub open spec fn hex_chars(data: Seq<u8>) -> Seq<char> {
    Seq::new(
        data.len() * 2,
        |i: int|
            if i % 2 == 0 {
                hex_digit((data[i / 2] / 16) as nat)
            } else {
                hex_digit((data[i / 2] % 16) as nat)
            },
    )
}

/// Relies on `sha2::Sha256` (the `Digest::digest` convenience function): the
/// digest depends on the input bytes alone, and SHA-256 digests are 32 bytes.
#[verifier::external_body]
fn sha256(data: &[u8]) -> (r: Vec<u8>)
    ensures
        r@ == sha256_of(data@),
        r@.len() == 32,
{
    <sha2::Sha256 as sha2::Digest>::digest(data).to_vec()
}

/// Relies on `hex::encode`: two lowercase hex digits per input byte, high
/// nibble first.
#[verifier::external_body]
fn hex_encode(data: &[u8]) -> (r: String)
    ensures
        r@ == hex_chars(data@),
{
    hex::encode(data)
}

/// The hex-rendered SHA-256 digest of a file's content, as carried in an
/// artifact report.
pub fn digest_hex(data: &[u8]) -> (r: String)
    ensures
        r@ == hex_chars(sha256_of(data@)),
        r@.len() == 64,
{
    let d = sha256(data);
    hex_encode(d.as_slice())
}

/// Digests are deterministic: hashing the same content twice yields the
/// same hex digest.
pub proof fn lemma_digest_deterministic(a: Seq<u8>, b: Seq<u8>)
    requires
        a == b,
    ensures
        hex_chars(sha256_of(a)) == hex_chars(sha256_of(b)),
{
}

} // verus!
