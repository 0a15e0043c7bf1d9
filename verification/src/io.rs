//! The filesystem that a buffer opens its data files with.
use vstd::prelude::*;

verus! {

/// A filesystem implementation: how data files are opened and deleted.
///
/// The configuration only carries a value of such a type from the builder to the
/// buffer, so nothing is asked of it here.
pub trait Filesystem {

}

/// The filesystem of the machine that the buffer runs on.
#[derive(Clone, Copy, Debug)]
pub struct ProductionFilesystem;

impl Filesystem for ProductionFilesystem {

}

} // verus!
