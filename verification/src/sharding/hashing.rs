//! The 64-bit hash both hashers place keys and nodes with: std's
//! `DefaultHasher` as built by `DefaultHasher::new()`.
use vstd::prelude::*;

verus! {

/// What `DefaultHasher::new()` yields after hashing the string `s`.
pub uninterp spec fn default_hash_of_text(s: Seq<char>) -> u64;

/// What `DefaultHasher::new()` yields after hashing the string `a`, then the string `b`.
pub uninterp spec fn default_hash_of_text_pair(a: Seq<char>, b: Seq<char>) -> u64;

/// Hashes `s` with a fresh std `DefaultHasher` (SipHash-1-3 with fixed zero keys, so every
/// hasher built by `new` or `default` is the same one) through `BuildHasher::hash_one`,
/// which writes `s` exactly as `s.hash(&mut hasher)` does and returns `finish()`.
/// The contract names the result and claims no more: the algorithm is std's.
#[verifier::external_body]
pub(crate) fn hash_text(s: &str) -> (h: u64)
    ensures
        h == default_hash_of_text(s@),
{
    std::hash::BuildHasher::hash_one(
        &std::hash::BuildHasherDefault::<std::collections::hash_map::DefaultHasher>::default(),
        s,
    )
}

/// Hashes `a` and then `b` into one fresh std `DefaultHasher` (through `hash_one` on the
/// pair, which hashes the two fields in order) and returns `finish()`.
/// The contract names the result and claims no more.
#[verifier::external_body]
pub(crate) fn hash_text_pair(a: &str, b: &str) -> (h: u64)
    ensures
        h == default_hash_of_text_pair(a@, b@),
{
    std::hash::BuildHasher::hash_one(
        &std::hash::BuildHasherDefault::<std::collections::hash_map::DefaultHasher>::default(),
        (a, b),
    )
}

} // verus!
