//! What the GL bring-up asks of the platform. The sequence of EGL and GPU
//! calls is the glue's; the values it asks with are fixed here.

use vstd::prelude::*;

verus! {

/// The channel depths requested when a framebuffer configuration is chosen.
pub struct FramebufferRequest {
    pub red_bits: i32,
    pub green_bits: i32,
    pub blue_bits: i32,
}

/// The demo renders into eight bits per color channel.
pub fn framebuffer_request() -> (c: FramebufferRequest)
    ensures
        c.red_bits == 8,
        c.green_bits == 8,
        c.blue_bits == 8,
{
    FramebufferRequest { red_bits: 8, green_bits: 8, blue_bits: 8 }
}

/// The OpenGL ES major version the demo's context is created with.
pub fn context_major_version() -> (v: i32)
    ensures
        v == 3,
{
    3
}

} // verus!
