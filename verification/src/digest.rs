//! The base64 SHA-256 fingerprint of an inline block, as a CSP `'sha256-…'`
//! source expression carries it.

use base64::Engine;
use sha2::Digest;
use vstd::prelude::*;

verus! {

/// The SHA-256 digest of `bytes` (FIPS 180-4), as `sha2` computes it.
pub uninterp spec fn sha256_digest(bytes: Seq<u8>) -> Seq<u8>;

/// The base64 text of `bytes` in the standard alphabet with `=` padding
/// (RFC 4648, section 4), as `base64`'s `STANDARD` engine writes it.
pub uninterp spec fn base64_standard(bytes: Seq<u8>) -> Seq<char>;

/// The CSP fingerprint of a body: the base64 of the SHA-256 of its bytes.
pub open spec fn sha256_b64(bytes: Seq<u8>) -> Seq<char> {
    base64_standard(sha256_digest(bytes))
}

/// `sha2::Sha256::digest` (through the `Digest` trait): the 32-byte
/// SHA-256 digest of the input. Claimed: the result is the named digest of
/// the input bytes, and it is 32 bytes long (`Sha256`'s output size is
/// `U32`).
#[verifier::external_body]
fn sha256(bytes: &[u8]) -> (r: Vec<u8>)
    ensures
        r@ == sha256_digest(bytes@),
        r@.len() == 32,
{
    sha2::Sha256::digest(bytes).to_vec()
}

/// `base64::engine::general_purpose::STANDARD.encode` (through the `Engine`
/// trait). Claimed: the result is the named standard-alphabet, padded
/// base64 text of the input, four characters for every started group of
/// three bytes (`encoded_len` with padding: `n / 3 * 4`, plus 4 when a
/// partial group remains; the buffer of that size is what `encode`
/// returns, and its bytes are ASCII). The call panics only where the
/// output length overflows `usize` (`encoded_len` returns `None`), which
/// `requires` leaves out.
#[verifier::external_body]
fn base64_encode(bytes: &[u8]) -> (r: String)
    requires
        (bytes@.len() / 3) * 4 + 4 <= usize::MAX,
    ensures
        r@ == base64_standard(bytes@),
        r@.len() == 4 * ((bytes@.len() + 2) / 3),
{
    base64::engine::general_purpose::STANDARD.encode(bytes)
}

/// `String::leak`: the returned slice holds the string's text and lives
/// for the rest of the program. Claimed: the slice's text is the string's.
#[verifier::external_body]
pub(crate) fn leak_text(s: String) -> (r: &'static str)
    ensures
        r@ == s@,
{
    s.leak()
}

/// The base64 SHA-256 of the UTF-8 bytes of `body`, the value of the CSP
/// source expression `'sha256-<value>'` that admits an inline block with
/// this body: 44 characters, the padded base64 of the 32-byte digest.
pub fn body_sha256_b64(body: &str) -> (r: String)
    ensures
        r@ == sha256_b64(vstd::utf8::encode_utf8(body@)),
        r@.len() == 44,
{
    let digest = sha256(body.as_bytes());
    base64_encode(digest.as_slice())
}

} // verus!
