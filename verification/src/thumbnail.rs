//! Thumbnail generation interface, implemented per media kind by the
//! surrounding application.

use vstd::prelude::*;

verus! {

/// A thumbnail job did not complete.
#[derive(Debug, Clone, Copy, PartialEq, Eq, Structural)]
pub struct ThumbnailError;

/// Collects thumbnail jobs and runs them.  Implementations do the
/// actual image work outside this library.
pub trait ThumbnailGenerator {
    /// Add a thumbnail to be generated.
    fn add(&mut self, dst_path: String, width: u32, height: u32);

    /// Generate the collected thumbnails.
    fn generate(&self) -> Result<(), ThumbnailError>;
}

/// Which quality profile a thumbnail is made for.
#[derive(Debug, Clone, Copy, PartialEq, Eq, Structural)]
pub enum ThumbnailQuality {
    Post,
}

} // verus!
