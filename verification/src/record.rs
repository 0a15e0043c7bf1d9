//! The part of the record layout that the configuration depends on.
use vstd::prelude::*;

verus! {

/// Bytes that a record takes on disk beyond its own encoding, at most.
///
/// A record is written behind an 8-byte length delimiter, in a container that
/// holds its checksum, its identifier, its metadata and a pointer to its payload,
/// and the whole is padded to a multiple of 16 bytes.
pub const RECORD_HEADER_LEN: usize = 48;

} // verus!
