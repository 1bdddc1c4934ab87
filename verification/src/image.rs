//! Raster images.
use vstd::prelude::*;

verus! {

/// A handle to the data of a raster image: the identifier under which a
/// backend finds the pixels.
#[derive(Debug, Clone, Copy, PartialEq, Eq, Structural, Hash)]
pub struct Handle {
    /// The identifier of the image data.
    pub id: u64,
}

impl Handle {
    /// The handle of the image data with identifier `id`.
    pub fn new(id: u64) -> (handle: Handle)
        ensures
            handle.id == id,
    {
        Handle { id }
    }

    /// The identifier of the image data.
    pub fn id(&self) -> (id: u64)
        ensures
            id == self.id,
    {
        self.id
    }
}

} // verus!
