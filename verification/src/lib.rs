//! Decision core of an Android native-activity demo that paints one red
//! rectangle. The platform glue (activity callbacks, EGL and GPU bring-up,
//! buffer locking) lives outside this crate; what stands here is everything
//! the glue has to decide or compute: which window is which, when a surface
//! is brought up, when a frame is painted, and the exact geometry of the
//! frame and of the rectangle.

pub mod android;
pub mod gl;
pub mod looper;
pub mod native;
pub mod paint;
pub mod window;
