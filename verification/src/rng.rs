//! Random material: alphanumeric tokens (PKCE verifiers, CSRF `state`
//! values, session identifiers) and uniform index picks for the shuffle.

use vstd::prelude::*;

verus! {

/// Relies on rand's `Alphanumeric` distribution: a sample is one ASCII byte
/// drawn from `A-Z`, `a-z`, `0-9`.
#[verifier::external_body]
fn sample_alphanumeric_byte() -> (b: u8)
    ensures
        b < 0x80,
        crate::text::is_alphanumeric_char(b as char),
{
    rand::Rng::sample(&mut rand::thread_rng(), rand::distributions::Alphanumeric)
}

/// Relies on rand's `Rng::gen_range` on `0..n`: the sample lies below `n`.
/// (`gen_range` panics on an empty range, so `n` must be positive.)
#[verifier::external_body]
pub(crate) fn sample_below(n: usize) -> (r: usize)
    requires
        n > 0,
    ensures
        r < n,
{
    rand::Rng::gen_range(&mut rand::thread_rng(), 0..n)
}

/// A fresh random string of `n` alphanumeric characters.
pub fn random_alphanumeric(n: usize) -> (r: String)
    ensures
        r@.len() == n,
        crate::text::all_alphanumeric(r@),
{
    let mut bytes: Vec<u8> = Vec::new();
    let mut i: usize = 0;
    while i < n
        invariant
            bytes@.len() == i <= n,
            forall|k: int| 0 <= k < bytes@.len() ==> #[trigger] bytes@[k] < 0x80,
            forall|k: int|
                0 <= k < bytes@.len() ==> crate::text::is_alphanumeric_char(
                    #[trigger] bytes@[k] as char,
                ),
        decreases n - i,
    {
        bytes.push(sample_alphanumeric_byte());
        i = i + 1;
    }
    let r = crate::text::string_from_ascii(bytes);
    proof {
        assert(forall|k: int|
            0 <= k < r@.len() ==> crate::text::is_alphanumeric_char(#[trigger] r@[k]));
    }
    r
}

} // verus!
