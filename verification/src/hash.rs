//! SHA-256.

use vstd::prelude::*;

verus! {

/// The SHA-256 digest of a byte string: thirty-two bytes.
pub uninterp spec fn sha256_digest(data: Seq<u8>) -> Seq<u8>;

/// `sha2::Sha256`, fed `data` once and finalized: the SHA-256 digest of
/// `data`.
#[verifier::external_body]
pub fn sha256(data: &[u8]) -> (r: [u8; 0x20])
    ensures
        r@ == sha256_digest(data@),
{
    let mut hasher = <sha2::Sha256 as sha2::Digest>::new();
    sha2::Digest::update(&mut hasher, data);
    sha2::Digest::finalize(hasher).into()
}

} // verus!
