//! Plain counterparts of the platform's window types. The glue code passes
//! pointers to the opaque ones around; the rectangle type carries ordinary
//! coordinates and is all this crate ever reads.

use vstd::prelude::*;

verus! {

/// The platform's window, opaque to everyone but the platform itself.
#[derive(Clone, Copy, Debug)]
pub struct ANativeWindow {
    _unused: [u8; 0],
}

/// The platform's input queue, equally opaque.
#[derive(Clone, Copy, Debug)]
pub struct AInputQueue {
    _unused: [u8; 0],
}

/// An axis-aligned rectangle in pixel coordinates, `left`/`top` inclusive.
#[derive(Clone, Copy, Debug, PartialEq, Eq, Structural)]
pub struct ARect {
    pub left: i32,
    pub top: i32,
    pub right: i32,
    pub bottom: i32,
}

} // verus!
