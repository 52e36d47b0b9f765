//! The presentation surface as the renderer sees it: its size, how it is
//! configured, and how acquiring an image from it can fail.

use vstd::prelude::*;

verus! {

/// The width of the window when it opens, in pixels.
pub const WIDTH: u32 = 1280;

/// The height of the window when it opens, in pixels.
pub const HEIGHT: u32 = 720;

/// A size in physical pixels.
#[derive(Clone, Copy, Debug, PartialEq, Eq, Structural)]
pub struct PhysicalSize {
    pub width: u32,
    pub height: u32,
}

impl PhysicalSize {
    /// Whether a surface can have this size: neither dimension is zero.
    pub open spec fn is_positive(self) -> bool {
        self.width > 0 && self.height > 0
    }
}

/// How finished frames are paced.
#[derive(Clone, Copy, Debug, PartialEq, Eq, Structural)]
pub enum PresentMode {
    Immediate,
    Mailbox,
    /// First in, first out, one frame per vertical blank.
    Fifo,
}

/// The configuration of the surface. Its usage is always that of a render
/// target and its format is the one the adapter prefers; neither is a choice.
#[derive(Clone, Copy, Debug, PartialEq, Eq, Structural)]
pub struct SurfaceConfiguration {
    pub width: u32,
    pub height: u32,
    pub present_mode: PresentMode,
}

/// How the window is set up.
#[derive(Clone, Copy, Debug, PartialEq, Eq, Structural)]
pub struct WindowAttributes {
    pub inner_size: PhysicalSize,
    pub resizable: bool,
}

/// The attributes of the window: the opening size, fixed.
pub fn window_attributes() -> (attributes: WindowAttributes)
    ensures
        attributes == (WindowAttributes {
            inner_size: PhysicalSize { width: WIDTH, height: HEIGHT },
            resizable: false,
        }),
{
    WindowAttributes { inner_size: PhysicalSize { width: WIDTH, height: HEIGHT }, resizable: false }
}

/// Why no image could be acquired from the surface.
#[derive(Clone, Copy, Debug, PartialEq, Eq, Structural)]
pub enum SurfaceError {
    /// No image became free in time.
    Timeout,
    /// The surface has changed under the swap chain.
    Outdated,
    /// The swap chain is gone and must be made anew.
    Lost,
    /// No memory is left for a new frame.
    OutOfMemory,
}

} // verus!
