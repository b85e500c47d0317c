//! A stand-in renderer that only remembers which image it was given.

use vstd::prelude::*;

verus! {

/// A renderer's stand-in for trying the widget without a device.
#[derive(Debug, Default, Clone, PartialEq, Eq)]
pub struct TestShader {
    /// Names the image last loaded.
    pub image_path: String,
}

impl TestShader {
    /// Remembers `path` as the image in use.
    pub fn load_image(&mut self, path: &str)
        ensures
            final(self).image_path@ == path@,
    {
        self.image_path = path.to_owned();
    }
}

} // verus!
