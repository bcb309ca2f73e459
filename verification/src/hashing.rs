//! The hash verifier: a file's content digest, hex-encoded, compared
//! case-sensitively against an expected hash.
use vstd::prelude::*;

verus! {

/// The 160-bit content digest of a byte sequence, as the SHA-1 algorithm
/// defines it. The algorithm itself is not restated here; the digest is a
/// function of the bytes alone and is computed by the outside hasher.
pub uninterp spec fn sha1_of(bytes: Seq<u8>) -> Seq<u8>;

/// The lowercase hexadecimal digit for a value below sixteen.
pub open spec fn hex_digit(n: u8) -> char {
    if n == 0 {
        '0'
    } else if n == 1 {
        '1'
    } else if n == 2 {
        '2'
    } else if n == 3 {
        '3'
    } else if n == 4 {
        '4'
    } else if n == 5 {
        '5'
    } else if n == 6 {
        '6'
    } else if n == 7 {
        '7'
    } else if n == 8 {
        '8'
    } else if n == 9 {
        '9'
    } else if n == 10 {
        'a'
    } else if n == 11 {
        'b'
    } else if n == 12 {
        'c'
    } else if n == 13 {
        'd'
    } else if n == 14 {
        'e'
    } else {
        'f'
    }
}

/// The lowercase hex encoding of a byte sequence: two digits per byte,
/// high nibble first.
pub open spec fn hex_of(bytes: Seq<u8>) -> Seq<char>
    decreases bytes.len(),
{
    if bytes.len() == 0 {
        Seq::empty()
    } else {
        hex_of(bytes.drop_last()) + seq![
            hex_digit(bytes.last() / 16),
            hex_digit(bytes.last() % 16),
        ]
    }
}

/// Relies on sha1::Sha1::digest (through the digest crate's `Digest`
/// trait): the one-shot SHA-1 digest of the input bytes, 20 bytes long.
#[verifier::external_body]
fn sha1_digest(bytes: &[u8]) -> (r: Vec<u8>)
    ensures
        r@ == sha1_of(bytes@),
        r@.len() == 20,
{
    <sha1::Sha1 as sha1::Digest>::digest(bytes).to_vec()
}

/// Relies on hex::encode: the lowercase hex string of the input bytes,
/// two digits per byte, high nibble first.
#[verifier::external_body]
fn hex_encode(bytes: &[u8]) -> (r: String)
    ensures
        r@ == hex_of(bytes@),
{
    hex::encode(bytes)
}

/// Whether two strings hold the same characters.
pub fn str_eq(a: &str, b: &str) -> (r: bool)
    ensures
        r == (a@ == b@),
{
    a.to_owned() == b.to_owned()
}

/// Whether `bytes` digest to exactly `hash`: the SHA-1 digest of `bytes`,
/// hex-encoded in lowercase, compared case-sensitively.
pub fn check_bytes_hash(bytes: &[u8], hash: &str) -> (r: bool)
    ensures
        r == (hex_of(sha1_of(bytes@)) == hash@),
{
    let digest = sha1_digest(bytes);
    let computed = hex_encode(digest.as_slice());
    str_eq(computed.as_str(), hash)
}

/// Whether a file's contents verify against an expected hash. A file that
/// could not be read (`None`) is simply not verified: the result is
/// `false`, never an error, so a missing file can be downloaded again.
pub fn check_file_hash(contents: &Option<Vec<u8>>, hash: &str) -> (r: bool)
    ensures
        r == (contents matches Some(bytes) && hex_of(sha1_of(bytes@)) == hash@),
{
    match contents {
        Some(bytes) => check_bytes_hash(bytes.as_slice(), hash),
        None => false,
    }
}

} // verus!
