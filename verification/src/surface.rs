//! The presentation surface and the render targets tied to it.
//!
//! The surface's configuration (format, size, present mode) is the single
//! source of truth for target sizing. The lifecycle is a small state
//! machine: `Configured` normally; `Resizing` between a size-change
//! notification and the reconfiguration it triggers; `Lost` after image
//! acquisition signals the surface was lost, until it is reconstructed from
//! the last known configuration.

use vstd::prelude::*;

verus! {

/// Where the surface stands in its lifecycle.
#[derive(Clone, Copy, PartialEq, Eq, Structural, Debug)]
pub enum SurfaceState {
    /// The surface matches its configuration and images can be acquired.
    Configured,
    /// A size change was recorded and the surface awaits reconfiguration.
    Resizing,
    /// Acquisition reported the surface lost; it awaits reconstruction.
    Lost,
}

/// The surface's configuration. Format and present mode are opaque codes
/// chosen by the device layer; the library only carries them.
#[derive(Clone, Copy, PartialEq, Eq, Structural, Debug)]
pub struct SurfaceConfig {
    pub width: u32,
    pub height: u32,
    pub format: u32,
    pub present_mode: u32,
}

/// The swappable surface the final image is resolved into.
pub struct PresentationSurface {
    pub config: SurfaceConfig,
    pub state: SurfaceState,
}

impl PresentationSurface {
    /// A freshly configured surface.
    pub fn new(config: SurfaceConfig) -> (s: PresentationSurface)
        ensures
            s.config == config,
            s.state == SurfaceState::Configured,
    {
        PresentationSurface { config, state: SurfaceState::Configured }
    }

    /// Record a size-change notification: the stored size moves to the new
    /// one, the rest of the configuration is kept, and the surface awaits
    /// reconfiguration.
    pub fn request_resize(&mut self, width: u32, height: u32)
        ensures
            final(self).config == (SurfaceConfig { width, height, ..old(self).config }),
            final(self).state == SurfaceState::Resizing,
    {
        self.config.width = width;
        self.config.height = height;
        self.state = SurfaceState::Resizing;
    }

    /// Reconfigure the surface to its stored configuration; it is then ready
    /// to deliver images again.
    pub fn configure(&mut self)
        ensures
            final(self).config == old(self).config,
            final(self).state == SurfaceState::Configured,
    {
        self.state = SurfaceState::Configured;
    }

    /// Record that image acquisition reported the surface lost. The
    /// configuration is kept: reconstruction reuses it unchanged.
    pub fn note_lost(&mut self)
        ensures
            final(self).config == old(self).config,
            final(self).state == SurfaceState::Lost,
    {
        self.state = SurfaceState::Lost;
    }

    /// Reconstruct the surface from the last known configuration: same
    /// size, same format, same present mode.
    pub fn recreate(&mut self)
        ensures
            final(self).config == old(self).config,
            final(self).state == SurfaceState::Configured,
    {
        self.state = SurfaceState::Configured;
    }
}

/// The multisampled color and depth images drawn into each frame, resolved
/// into the presentation surface. Rebuilt whenever the surface size
/// changes; dimensions always equal the surface's.
#[derive(Clone, Copy, PartialEq, Eq, Structural, Debug)]
pub struct RenderTargets {
    pub width: u32,
    pub height: u32,
}

impl RenderTargets {
    /// Build targets at the given size.
    pub fn new(width: u32, height: u32) -> (t: RenderTargets)
        ensures
            t == (RenderTargets { width, height }),
    {
        RenderTargets { width, height }
    }
}

} // verus!
