//! The request signature that the gateway recomputes and compares.
//!
//! The gateway prescribes the scheme: the payload in base64, the secret key
//! appended, the MD5 digest of that, in lowercase hexadecimal. MD5 is weak;
//! it is used here because the remote side demands it, not by choice.

use crate::error::{CryptomusError, ErrorModel};
use vstd::prelude::*;

verus! {

/// The standard, padded base64 text of a byte sequence.
pub uninterp spec fn base64_standard(bytes: Seq<u8>) -> Seq<char>;

/// The MD5 digest of a byte sequence.
pub uninterp spec fn md5_digest(data: Seq<u8>) -> Seq<u8>;

/// The length of the padded base64 text of `n` bytes.
pub open spec fn base64_len(n: nat) -> nat {
    4 * ((n + 2) / 3)
}

/// The sixteen lowercase hexadecimal digits, in order of value.
pub const HEX_DIGITS: &'static str = "0123456789abcdef";

/// The digit that stands for a value below sixteen.
pub open spec fn hex_digit(value: int) -> char {
    HEX_DIGITS@[value]
}

/// The value of the hexadecimal digit at position `i` of a byte sequence
/// written with two digits per byte, high digit first.
pub open spec fn nibble_at(bytes: Seq<u8>, i: int) -> int {
    if i % 2 == 0 {
        bytes[i / 2] as int / 16
    } else {
        bytes[i / 2] as int % 16
    }
}

/// The thirty-two lowercase hexadecimal digits of a sixteen-byte digest.
pub open spec fn digest_hex(digest: Seq<u8>) -> Seq<char> {
    Seq::new(32, |i: int| hex_digit(nibble_at(digest, i)))
}

/// The bytes that are digested: the payload's base64 text with the secret
/// key behind it, no separator, as UTF-8.
pub open spec fn signing_input(payload: Seq<u8>, secret_key: Seq<char>) -> Seq<u8> {
    vstd::utf8::encode_utf8(base64_standard(payload) + secret_key)
}

/// The signature of a payload under a secret key.
pub open spec fn signature_text(payload: Seq<u8>, secret_key: Seq<char>) -> Seq<char> {
    digest_hex(md5_digest(signing_input(payload, secret_key)))
}

/// What signing amounts to: an empty key is refused, every other key
/// signs.
pub open spec fn sign_outcome(payload: Seq<u8>, secret_key: Seq<char>) -> Result<
    Seq<char>,
    ErrorModel,
> {
    if secret_key.len() == 0 {
        Err(ErrorModel::MissingCredential)
    } else {
        Ok(signature_text(payload, secret_key))
    }
}

/// Whether a result of signing carries what a model of it says.
pub open spec fn signed_as(
    result: Result<String, CryptomusError>,
    model: Result<Seq<char>, ErrorModel>,
) -> bool {
    match model {
        Ok(text) => result matches Ok(t) && t@ == text,
        Err(error) => result matches Err(e) && e@ == error,
    }
}

/// Whether a character is a lowercase hexadecimal digit.
pub open spec fn is_lower_hex(c: char) -> bool {
    ('0' <= c && c <= '9') || ('a' <= c && c <= 'f')
}

/// Calls `base64::Engine::encode` on the `STANDARD` engine. The call panics
/// when the encoded length does not fit in `usize`, which the precondition
/// rules out. The result is taken to be the base64 text of the input.
#[verifier::external_body]
fn base64_encode(bytes: &[u8]) -> (text: String)
    requires
        base64_len(bytes@.len()) <= usize::MAX,
    ensures
        text@ == base64_standard(bytes@),
{
    base64::Engine::encode(&base64::engine::general_purpose::STANDARD, bytes)
}

/// Calls `md5::compute` and hands out the sixteen bytes of the digest it
/// returns. The result is taken to be the MD5 digest of the input.
#[verifier::external_body]
fn md5_compute(data: &[u8]) -> (digest: [u8; 16])
    ensures
        digest@ == md5_digest(data@),
{
    md5::compute(data).0
}

/// Appends the lowercase hexadecimal digit of `value` to `text`.
fn push_hex_digit(text: &mut String, value: u8)
    requires
        value < 16,
    ensures
        final(text)@ == old(text)@.push(hex_digit(value as int)),
{
    proof {
        reveal_strlit("0123456789abcdef");
    }
    let start: usize = value as usize;
    let digit = HEX_DIGITS.substring_ascii(start, start + 1);
    text.append(digit);
}

/// Writes a digest as thirty-two lowercase hexadecimal digits.
pub fn digest_to_hex(digest: &[u8; 16]) -> (text: String)
    ensures
        text@ == digest_hex(digest@),
{
    let mut text = String::new();
    let mut i: usize = 0;
    while i < 16
        invariant
            i <= 16,
            text@.len() == 2 * i,
            forall|k: int| 0 <= k < 2 * i ==> text@[k] == hex_digit(nibble_at(digest@, k)),
        decreases 16 - i,
    {
        let byte = digest[i];
        push_hex_digit(&mut text, byte / 16);
        push_hex_digit(&mut text, byte % 16);
        i = i + 1;
    }
    text
}

/// Signs a payload with a secret key.
///
/// An empty key is refused; every other key signs every payload, the empty
/// one included.
pub fn sign(payload: &[u8], secret_key: &str) -> (result: Result<String, CryptomusError>)
    requires
        base64_len(payload@.len()) <= usize::MAX,
    ensures
        signed_as(result, sign_outcome(payload@, secret_key@)),
{
    if secret_key.is_empty() {
        return Err(CryptomusError::MissingCredential);
    }
    let encoded = base64_encode(payload);
    let material = encoded.concat(secret_key);
    let digest = md5_compute(material.as_str().as_bytes());
    Ok(digest_to_hex(&digest))
}

/// Under a key that is not empty every payload is signed, and the
/// signature is thirty-two lowercase hexadecimal digits.
pub proof fn lemma_signature_shape(payload: Seq<u8>, secret_key: Seq<char>)
    requires
        secret_key.len() > 0,
    ensures
        sign_outcome(payload, secret_key) == Ok::<Seq<char>, ErrorModel>(
            signature_text(payload, secret_key),
        ),
        signature_text(payload, secret_key).len() == 32,
        forall|i: int|
            0 <= i < 32 ==> is_lower_hex(#[trigger] signature_text(payload, secret_key)[i]),
{
    reveal_strlit("0123456789abcdef");
    let digest = md5_digest(signing_input(payload, secret_key));
    assert forall|i: int| 0 <= i < 32 implies is_lower_hex(
        #[trigger] signature_text(payload, secret_key)[i],
    ) by {
        assert(0 <= nibble_at(digest, i) < 16);
    }
}

/// Signing fails exactly when the key is empty, whatever the payload, and
/// then for want of a credential.
pub proof fn lemma_sign_fails_iff_key_is_empty(payload: Seq<u8>, secret_key: Seq<char>)
    ensures
        sign_outcome(payload, secret_key) is Err <==> secret_key.len() == 0,
        sign_outcome(payload, secret_key) is Err ==> sign_outcome(payload, secret_key)
            == Err::<Seq<char>, ErrorModel>(ErrorModel::MissingCredential),
{
}

/// Signing is a function of its two inputs: two results for the same
/// payload and key say the same.
pub proof fn lemma_sign_is_deterministic(
    payload: Seq<u8>,
    secret_key: Seq<char>,
    first: Result<String, CryptomusError>,
    second: Result<String, CryptomusError>,
)
    requires
        signed_as(first, sign_outcome(payload, secret_key)),
        signed_as(second, sign_outcome(payload, secret_key)),
    ensures
        first matches Ok(a) ==> second matches Ok(b) && a@ == b@,
        first matches Err(a) ==> second matches Err(b) && a@ == b@,
{
}

} // verus!
