//! The native window as the core sees it: a handle, given as a plain
//! address value, and the dimensions last read from the platform, together
//! with the byte geometry of a raster buffer for that window.

use vstd::prelude::*;

verus! {

/// One native window: its handle and the dimensions last read for it.
pub struct Window {
    pub width: i32,
    pub height: i32,
    pub handle: usize,
}

impl Window {
    /// Record a window whose dimensions were just read from the platform.
    pub fn create(handle: usize, width: i32, height: i32) -> (w: Window)
        ensures
            w.handle == handle,
            w.width == width,
            w.height == height,
    {
        Window { width, height, handle }
    }

    /// Does `window` refer to the same native window as `self`?
    pub fn same(&self, window: usize) -> (r: bool)
        ensures
            r == (window == self.handle),
    {
        self.handle == window
    }

    /// Take over the dimensions just re-read from the platform.
    pub fn resize(&mut self, width: i32, height: i32)
        ensures
            final(self).width == width,
            final(self).height == height,
            final(self).handle == old(self).handle,
    {
        self.width = width;
        self.height = height;
    }

    /// How many bytes of a locked raster buffer the demo maps for one frame
    /// of this window: thirty-two per pixel.
    pub fn buffer_len(&self) -> (n: usize)
        requires
            0 <= self.width,
            0 <= self.height,
            self.width * self.height * 32 <= i32::MAX,
        ensures
            n == self.width * self.height * 32,
    {
        proof {
            assert(0 <= self.width * self.height) by (nonlinear_arith)
                requires
                    0 <= self.width,
                    0 <= self.height,
            ;
            assert(self.width * self.height <= self.width * self.height * 32) by (nonlinear_arith)
                requires
                    0 <= self.width * self.height,
            ;
        }
        let area: i32 = self.width * self.height;
        let len: i32 = area * 32;
        len as usize
    }
}

/// Bytes per row handed to the raster canvas for a buffer with the given
/// stride in pixels: four bytes per pixel.
pub fn row_bytes(stride: i32) -> (n: usize)
    requires
        0 <= stride,
        stride * 4 <= i32::MAX,
    ensures
        n == stride * 4,
{
    (stride * 4) as usize
}

} // verus!
