//! What one frame of the demo looks like: a single red rectangle, and the
//! byte geometry under which the raster path maps the frame.

use vstd::prelude::*;
use crate::native::ARect;
use crate::window::Window;
use crate::window::row_bytes;

verus! {

/// An RGBA color with eight-bit channels.
pub struct Rgba {
    pub red: u8,
    pub green: u8,
    pub blue: u8,
    pub alpha: u8,
}

/// The one rectangle every backend paints.
pub open spec fn spec_scene_rect() -> ARect {
    ARect { left: 300, top: 500, right: 700, bottom: 1000 }
}

/// The rectangle's fill: opaque red.
pub open spec fn spec_scene_color() -> Rgba {
    Rgba { red: 255, green: 0, blue: 0, alpha: 255 }
}

/// The one rectangle every backend paints.
pub fn scene_rect() -> (r: ARect)
    ensures
        r == spec_scene_rect(),
{
    ARect { left: 300, top: 500, right: 700, bottom: 1000 }
}

/// The rectangle's fill: opaque red.
pub fn scene_color() -> (c: Rgba)
    ensures
        c == spec_scene_color(),
{
    Rgba { red: 255, green: 0, blue: 0, alpha: 255 }
}

/// Everything the raster path must know before it touches a locked buffer:
/// how many bytes to map, how long a row is, and what to paint.
pub struct FramePlan {
    pub byte_len: usize,
    pub row_bytes: usize,
    pub rect: ARect,
    pub color: Rgba,
}

/// Work out one frame for `window`, drawn into a buffer with the given
/// stride in pixels.
pub fn plan_frame(window: &Window, stride: i32) -> (p: FramePlan)
    requires
        0 <= window.width,
        0 <= window.height,
        window.width * window.height * 32 <= i32::MAX,
        0 <= stride,
        stride * 4 <= i32::MAX,
    ensures
        p.byte_len == window.width * window.height * 32,
        p.row_bytes == stride * 4,
        p.rect == spec_scene_rect(),
        p.color == spec_scene_color(),
{
    FramePlan {
        byte_len: window.buffer_len(),
        row_bytes: row_bytes(stride),
        rect: scene_rect(),
        color: scene_color(),
    }
}

} // verus!
