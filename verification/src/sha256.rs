//! SHA-256 over byte streams, provided by the `sha2` crate.
//!
//! The hasher is held opaquely; what the contracts speak of is the byte
//! stream it has absorbed so far and the SHA-256 digest of a byte stream.

use vstd::prelude::*;
use sha2::Digest;

verus! {

/// An incremental SHA-256 computation (a `sha2::Sha256` inside).
#[verifier::external_body]
pub struct Sha256 {
    inner: sha2::Sha256,
}

/// The bytes that have been fed into `hasher` since it was created.
pub uninterp spec fn sha256_absorbed(hasher: Sha256) -> Seq<u8>;

/// The SHA-256 digest of `data`.
pub uninterp spec fn sha256_digest(data: Seq<u8>) -> Seq<u8>;

/// `sha2::Sha256::new`: a hasher that has absorbed nothing.
#[verifier::external_body]
pub(crate) fn sha256_new() -> (hasher: Sha256)
    ensures
        sha256_absorbed(hasher) == Seq::<u8>::empty(),
{
    Sha256 { inner: sha2::Sha256::new() }
}

/// `sha2::Digest::update`: appends `data` to the absorbed stream.
#[verifier::external_body]
pub(crate) fn sha256_update(hasher: &mut Sha256, data: &[u8])
    ensures
        sha256_absorbed(*final(hasher)) == sha256_absorbed(*old(hasher)) + data@,
{
    hasher.inner.update(data);
}

/// `sha2::Digest::finalize`: the 32-byte digest of everything absorbed.
#[verifier::external_body]
pub(crate) fn sha256_finalize(hasher: Sha256) -> (digest: Vec<u8>)
    ensures
        digest@ == sha256_digest(sha256_absorbed(hasher)),
        digest@.len() == 32,
{
    hasher.inner.finalize().to_vec()
}

impl Sha256 {
    /// A hasher that has absorbed nothing yet.
    pub fn new() -> (hasher: Sha256)
        ensures
            sha256_absorbed(hasher) == Seq::<u8>::empty(),
    {
        sha256_new()
    }
}

} // verus!
