//! The hasher that record checksums are computed with.
use crc32fast::Hasher;
use vstd::prelude::*;

verus! {

/// `crc32fast::Hasher`, an in-progress CRC32 computation, is opaque here.
#[verifier::external_type_specification]
#[verifier::external_body]
pub struct ExHasher(Hasher);

/// The checksum that `crc32fast::Hasher::finalize` returns for a hasher as it stands.
pub uninterp spec fn hasher_checksum(hasher: Hasher) -> u32;

/// The number of bytes that `crc32fast::Hasher::total_len` reports for a hasher as it stands.
pub uninterp spec fn hasher_total_len(hasher: Hasher) -> u64;

/// `crc32fast::Hasher::new` is taken to return a hasher in its initial state: finalized
/// at once it gives the checksum of no bytes, which is zero, and it has taken in no
/// byte. Which of the crate's implementations it picked for the running processor is
/// left open.
pub assume_specification[ Hasher::new ]() -> (hasher: Hasher)
    ensures
        hasher_checksum(hasher) == 0,
        hasher_total_len(hasher) == 0,
;

/// `crc32fast::Hasher::finalize` is taken to return the checksum that the hasher stands at.
pub assume_specification[ Hasher::finalize ](hasher: Hasher) -> (checksum: u32)
    ensures
        checksum == hasher_checksum(hasher),
;

/// `crc32fast::Hasher::total_len` is taken to return the number of bytes that the hasher
/// has taken in.
pub assume_specification[ Hasher::total_len ](hasher: &Hasher) -> (len: u64)
    ensures
        len == hasher_total_len(*hasher),
;

/// Creates the hasher that a record's checksum is computed with, with nothing hashed yet.
pub fn create_crc32c_hasher() -> (hasher: Hasher)
    ensures
        hasher_checksum(hasher) == 0,
        hasher_total_len(hasher) == 0,
{
    Hasher::new()
}

} // verus!
