//! On-screen display hooks.
//!
//! A display updater is handed the rendered image, already encoded to sRGB
//! bytes, whenever a tile finishes. The windowing backend implements the
//! trait outside the library; the one updater here does nothing.

use vstd::prelude::*;

verus! {

/// A rendered image as sRGB bytes, three per pixel, row-major.
#[derive(Debug)]
pub struct PixelBuffer {
    pub width: usize,
    pub height: usize,
    pub rgb: Vec<u8>,
}

impl PixelBuffer {
    pub open spec fn wf(self) -> bool {
        self.rgb@.len() == 3 * self.width * self.height
    }
}

/// Something that shows the image as it accumulates.
pub trait DisplayUpdater {
    fn update(&mut self, film: &PixelBuffer);
}

/// A display updater that shows nothing.
pub struct NoopDisplayUpdater;

impl DisplayUpdater for NoopDisplayUpdater {
    fn update(&mut self, _film: &PixelBuffer) {
    }
}

} // verus!
