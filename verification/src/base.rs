//! Surface/device bookkeeping: the physical size and surface configuration a
//! GPU-backed window surface is driven by, and the resize rules it obeys.

pub mod imgui_state;

use vstd::prelude::*;

verus! {

/// A window or surface extent in physical pixels.
#[derive(Debug, Clone, Copy, PartialEq, Eq, Structural)]
pub struct PixelSize {
    pub width: u32,
    pub height: u32,
}

impl PixelSize {
    pub fn new(width: u32, height: u32) -> (r: PixelSize)
        ensures
            r == (PixelSize { width, height }),
    {
        PixelSize { width, height }
    }
}

/// The presentable-surface configuration the library maintains: its extent in
/// pixels. Once established, both dimensions stay above zero.
#[derive(Debug, Clone, Copy, PartialEq, Eq, Structural)]
pub struct SurfaceConfig {
    pub width: u32,
    pub height: u32,
}

/// Owner of the surface lifecycle state: the current window size and the
/// configuration the surface was last configured with.
#[derive(Debug, Clone, Copy, PartialEq, Eq, Structural)]
pub struct State {
    pub size: PixelSize,
    pub config: SurfaceConfig,
}

/// The state after a resize request: a request with a zero dimension leaves
/// the last valid configuration untouched; any other request reconfigures
/// both the recorded size and the surface configuration in place.
pub open spec fn spec_resize(s: State, size: PixelSize) -> State {
    if size.width > 0 && size.height > 0 {
        State { size, config: SurfaceConfig { width: size.width, height: size.height } }
    } else {
        s
    }
}

impl State {
    /// The configuration always mirrors the recorded size and keeps both
    /// dimensions above zero.
    pub open spec fn well_formed(self) -> bool {
        self.config.width == self.size.width && self.config.height == self.size.height
            && self.config.width > 0 && self.config.height > 0
    }

    /// Establishes the initial configuration from the window's size.
    pub fn new(size: PixelSize) -> (r: State)
        requires
            size.width > 0,
            size.height > 0,
        ensures
            r == (State {
                size,
                config: SurfaceConfig { width: size.width, height: size.height },
            }),
            r.well_formed(),
    {
        State { size, config: SurfaceConfig { width: size.width, height: size.height } }
    }

    pub fn size(&self) -> (r: PixelSize)
        ensures
            r == self.size,
    {
        self.size
    }

    pub fn surface_config(&self) -> (r: SurfaceConfig)
        ensures
            r == self.config,
    {
        self.config
    }

    /// Applies a resize request; see [`spec_resize`].
    pub fn resize(&mut self, size: &PixelSize)
        ensures
            *final(self) == spec_resize(*old(self), *size),
            old(self).well_formed() ==> final(self).well_formed(),
    {
        if size.width > 0 && size.height > 0 {
            self.size = *size;
            self.config.width = size.width;
            self.config.height = size.height;
        }
    }
}

/// Resizing to a non-zero extent is idempotent: applying the same request
/// twice leaves exactly the configuration of applying it once.
pub proof fn lemma_resize_idempotent(s: State, size: PixelSize)
    requires
        size.width > 0,
        size.height > 0,
    ensures
        spec_resize(spec_resize(s, size), size) == spec_resize(s, size),
{
}

/// A resize request with a zero width or height never mutates the current
/// configuration.
pub proof fn lemma_resize_zero_is_no_op(s: State, size: PixelSize)
    requires
        size.width == 0 || size.height == 0,
    ensures
        spec_resize(s, size) == s,
{
}

} // verus!
