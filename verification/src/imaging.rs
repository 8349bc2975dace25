//! Named image bindings: an identifier and the location the host loads the
//! pixel data from.

use vstd::prelude::*;

verus! {

/// One image binding point: where it lives and the identifier generated
/// shader text refers to it by. Pixel data itself is the host's concern.
pub struct Image {
    pub location: String,
    pub id: String,
    pub is_loaded: bool,
}

impl Image {
    /// A fresh, not-yet-loaded binding.
    pub fn new(id: String, location: String) -> (r: Image)
        ensures
            r == (Image { location: location, id: id, is_loaded: false }),
    {
        Image { location, id, is_loaded: false }
    }
}

impl Clone for Image {
    /// Cloning hands back a fresh binding: the loaded state is not carried
    /// over.
    fn clone(&self) -> (r: Image)
        ensures
            r == (Image { location: self.location, id: self.id, is_loaded: false }),
    {
        Image::new(self.id.clone(), self.location.clone())
    }
}

} // verus!
