//! Hashing and base64, done by the `sha2` and `base64` crates.
//!
//! The contracts of this file are believed, not proved: they name what the
//! two crates compute and state a few facts that their sources show.

use vstd::prelude::*;
use base64::Engine;
use sha2::Digest;

verus! {

/// The SHA-256 digest of `data`.
pub uninterp spec fn spec_sha256(data: Seq<u8>) -> Seq<u8>;

/// The base64 text of `data` in the standard alphabet with `=` padding.
pub uninterp spec fn spec_base64(data: Seq<u8>) -> Seq<char>;

/// The base64 text of `data` in the standard alphabet without padding.
pub uninterp spec fn spec_base64_nopad(data: Seq<u8>) -> Seq<char>;

/// The bytes that `text` stands for as padded standard base64, if it is
/// well formed.
pub uninterp spec fn spec_base64_decode(text: Seq<char>) -> Option<Seq<u8>>;

/// A character of the standard base64 alphabet.
pub open spec fn is_base64_char(c: char) -> bool {
    ('a' <= c && c <= 'z') || ('A' <= c && c <= 'Z') || ('0' <= c && c <= '9') || c == '+' || c
        == '/'
}

/// The length of unpadded base64 for `n` bytes: four characters for each
/// three bytes, and two or three for a rest of one or two bytes.
pub open spec fn nopad_len(n: nat) -> nat {
    (n / 3) * 4 + if n % 3 == 0 {
        0nat
    } else if n % 3 == 1 {
        2nat
    } else {
        3nat
    }
}

/// The largest input that the encoders take: four thirds of it, rounded up,
/// must fit the machine's word.
pub open spec fn encodable(n: nat) -> bool {
    n <= usize::MAX / 2
}

#[verifier::external_type_specification]
#[verifier::external_body]
pub struct ExDecodeError(base64::DecodeError);

/// `sha2::Sha256::digest`: the digest of `data`, which has 32 bytes.
#[verifier::external_body]
pub(crate) fn sha256(data: &[u8]) -> (r: Vec<u8>)
    ensures
        r@ == spec_sha256(data@),
        r@.len() == 32,
{
    sha2::Sha256::digest(data).to_vec()
}

/// `Engine::encode` of `base64::engine::general_purpose::STANDARD_NO_PAD`:
/// the unpadded text, made of alphabet characters only, of the length that
/// the crate's `encoded_len` computes. The crate panics where that length
/// overflows, which `requires` excludes.
#[verifier::external_body]
pub(crate) fn base64_nopad(data: &[u8]) -> (r: String)
    requires
        encodable(data@.len()),
    ensures
        r@ == spec_base64_nopad(data@),
        r@.len() == nopad_len(data@.len()),
        forall|i: int| 0 <= i < r@.len() ==> is_base64_char(#[trigger] r@[i]),
{
    base64::engine::general_purpose::STANDARD_NO_PAD.encode(data)
}

/// `Engine::encode` of `base64::engine::general_purpose::STANDARD`: the
/// padded text. The crate panics where its length overflows, which
/// `requires` excludes.
#[verifier::external_body]
pub(crate) fn base64_padded(data: &[u8]) -> (r: String)
    requires
        encodable(data@.len()),
    ensures
        r@ == spec_base64(data@),
{
    base64::engine::general_purpose::STANDARD.encode(data)
}

/// `Engine::decode` of `base64::engine::general_purpose::STANDARD`: the
/// bytes where the text is well formed, the crate's error where it is not.
#[verifier::external_body]
pub(crate) fn base64_decode(text: &str) -> (r: Result<Vec<u8>, base64::DecodeError>)
    ensures
        match r {
            Ok(v) => spec_base64_decode(text@) == Some(v@),
            Err(_) => spec_base64_decode(text@) is None,
        },
{
    base64::engine::general_purpose::STANDARD.decode(text)
}

} // verus!
