//! The PKCE material of the OAuth authorization-code flow: a random code
//! verifier and its SHA-256 code challenge, base64url-encoded without
//! padding.

use vstd::prelude::*;
use sha2::Digest;
use base64::Engine;

verus! {

/// The SHA-256 digest of the UTF-8 bytes of `s`.  Named, not spelled out:
/// the digest is a function of its input alone.
pub uninterp spec fn sha256_of(s: Seq<char>) -> Seq<u8>;

/// The base64url encoding (no padding) of `bs`.
pub uninterp spec fn base64url_of(bs: Seq<u8>) -> Seq<char>;

/// Relies on sha2's `Sha256`: the digest is 32 bytes and depends on the
/// input bytes alone.
#[verifier::external_body]
fn sha256_str(s: &str) -> (r: Vec<u8>)
    ensures
        r@ == sha256_of(s@),
        r@.len() == 32,
{
    let mut hasher = sha2::Sha256::new();
    hasher.update(s.as_bytes());
    hasher.finalize().to_vec()
}

/// Relies on base64's `URL_SAFE_NO_PAD` engine: the encoding is a function
/// of the input bytes alone and is 4 characters per 3 bytes, rounded up.
/// (`encode` panics when the output length overflows `usize`.)
#[verifier::external_body]
fn base64url_nopad(bytes: &Vec<u8>) -> (r: String)
    requires
        4 * bytes@.len() + 2 <= usize::MAX,
    ensures
        r@ == base64url_of(bytes@),
        r@.len() == (4 * bytes@.len() + 2) / 3,
{
    base64::engine::general_purpose::URL_SAFE_NO_PAD.encode(bytes)
}

/// The code challenge derived from a code verifier.
pub open spec fn code_challenge_of(verifier: Seq<char>) -> Seq<char> {
    base64url_of(sha256_of(verifier))
}

/// A fresh code verifier: 128 characters, each alphanumeric.
pub fn generate_code_verifier() -> (r: String)
    ensures
        r@.len() == 128,
        crate::text::all_alphanumeric(r@),
{
    crate::rng::random_alphanumeric(128)
}

/// The code challenge of `verifier`: base64url (no padding) of its SHA-256
/// digest.
pub fn generate_code_challenge(verifier: &str) -> (r: String)
    ensures
        r@ == code_challenge_of(verifier@),
        r@.len() == 43,
{
    let digest = sha256_str(verifier);
    base64url_nopad(&digest)
}

/// The challenge is a function of the verifier alone: equal verifiers always
/// yield equal challenges, across any two calls.
pub proof fn lemma_challenge_deterministic(v1: Seq<char>, v2: Seq<char>)
    requires
        v1 == v2,
    ensures
        code_challenge_of(v1) == code_challenge_of(v2),
{
}

} // verus!
