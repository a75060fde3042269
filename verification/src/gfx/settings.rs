//! Renderer settings and messages.

use vstd::prelude::*;

verus! {

#[derive(Copy, Clone, Debug, PartialEq)]
pub struct GfxSettings {
    /// The physical size of the application.
    pub physical_resolution: (u32, u32),
    /// The target render resolution, independent of hardware.
    pub render_resolution: (u32, u32),
    pub fps: u32,
}

/// Behavior for double buffering two things.
#[derive(Copy, Clone, Debug, PartialEq, Eq, Structural)]
pub enum DoubleBuffer {
    UpdateARenderB,
    UpdateBRenderA,
}

/// Messages to the render thread.
#[derive(Copy, Clone, Debug, PartialEq, Eq, Structural)]
pub enum GfxMsgs {
    Render,
    Resize { width: u32, height: u32 },
}

/// Options that may be performed when loading a model.
#[derive(Copy, Clone, PartialEq, Eq, Debug, Structural)]
pub enum LoadingOptions {
    /// Adjust the model so it is centered at [0,0,0].
    CenterModel,
    /// Scale the model so it is in the bounds of [-1,-1,-1] to [1,1,1].
    Normalize,
}

} // verus!
