//! Hashing of call payloads.
//!
//! The ledger stores a digest of every sponsored payload in its audit
//! records. The digest itself is computed by an outside hashing back end;
//! the ledger only relies on it being a fixed function of the bytes.

use vstd::prelude::*;

verus! {

/// The digest the hashing back end assigns to a byte string; a fixed
/// function of the bytes alone.
pub uninterp spec fn call_hash_of(data: Seq<u8>) -> Seq<u8>;

/// Relies on blake2's `Blake2b<U32>` (BLAKE2b with 32-byte output): the
/// digest is a function of the input bytes alone, and is 32 bytes long.
#[verifier::external_body]
pub(crate) fn blake2b_256(data: &[u8]) -> (r: Vec<u8>)
    ensures
        r@ == call_hash_of(data@),
        r@.len() == 32,
{
    let mut hasher = <blake2::Blake2b<blake2::digest::consts::U32> as blake2::Digest>::new();
    blake2::Digest::update(&mut hasher, data);
    blake2::Digest::finalize(hasher).to_vec()
}

} // verus!
