//! The checksum of a payload: the first four bytes of its double SHA-256.

use sha2::{Digest, Sha256};
use vstd::prelude::*;

verus! {

/// The number of bytes of a checksum.
pub const CHECKSUM_LENGTH: usize = 4;

/// The SHA-256 digest of `data`, as the `sha2` crate computes it.
pub uninterp spec fn sha256(data: Seq<u8>) -> Seq<u8>;

/// `sha2::Sha256::digest`: the 32-byte SHA-256 digest of `data`.
#[verifier::external_body]
fn sha256_digest(data: &[u8]) -> (digest: [u8; 32])
    ensures
        digest@ == sha256(data@),
{
    Sha256::digest(data).into()
}

/// The checksum of a payload.
pub open spec fn checksum_of(payload: Seq<u8>) -> Seq<u8> {
    Seq::new(CHECKSUM_LENGTH as nat, |i: int| sha256(sha256(payload))[i])
}

/// Computes the checksum of `payload`: SHA-256 of its SHA-256, cut to four bytes.
pub fn build_checksum(payload: &[u8]) -> (checksum: [u8; 4])
    ensures
        checksum@ == checksum_of(payload@),
{
    let first_hash: [u8; 32] = sha256_digest(payload);
    let second_hash: [u8; 32] = sha256_digest(first_hash.as_slice());
    let checksum: [u8; 4] = [second_hash[0], second_hash[1], second_hash[2], second_hash[3]];
    assert(checksum@ =~= checksum_of(payload@));
    checksum
}

} // verus!
