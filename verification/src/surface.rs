//! The presentable surface and its lifecycle.
//!
//! A [`SwapSurface`] records how the set of presentable images is configured.
//! The [`SurfaceManager`] owns the current one and replaces it wholesale each
//! time the drawable size changes.

use vstd::prelude::*;

verus! {

/// Pixel format of a colour target.
#[derive(Clone, Copy, Debug, PartialEq, Eq, Structural)]
pub enum TextureFormat {
    Rgba8Unorm,
    Rgba8UnormSrgb,
    Bgra8Unorm,
    Bgra8UnormSrgb,
}

/// What a texture is used for.
#[derive(Clone, Copy, Debug, PartialEq, Eq, Structural)]
pub enum TextureUsage {
    CopySrc,
    CopyDst,
    Sampled,
    Storage,
    OutputAttachment,
}

/// How finished images reach the screen.
#[derive(Clone, Copy, Debug, PartialEq, Eq, Structural)]
pub enum PresentMode {
    NoVsync,
    Vsync,
}

/// The colour format every swap-surface and the pipeline's colour target use.
pub open spec fn surface_format() -> TextureFormat {
    TextureFormat::Bgra8UnormSrgb
}

/// Configuration of one set of presentable images.
#[derive(Clone, Copy, Debug, PartialEq, Eq, Structural)]
pub struct SwapSurface {
    pub usage: TextureUsage,
    pub format: TextureFormat,
    pub width: u32,
    pub height: u32,
    pub present_mode: PresentMode,
}

impl SwapSurface {
    /// The surface that a drawable of `width` by `height` pixels gets.
    pub open spec fn configured(width: u32, height: u32) -> SwapSurface {
        SwapSurface {
            usage: TextureUsage::OutputAttachment,
            format: surface_format(),
            width,
            height,
            present_mode: PresentMode::Vsync,
        }
    }

    /// Width and height in pixels.
    pub open spec fn spec_dimensions(&self) -> (u32, u32) {
        (self.width, self.height)
    }

    /// Width and height in pixels.
    #[verifier::when_used_as_spec(spec_dimensions)]
    pub fn dimensions(&self) -> (size: (u32, u32))
        ensures
            size == self.spec_dimensions(),
    {
        (self.width, self.height)
    }
}

/// Describes the swap-surface for a drawable of `width` by `height` pixels:
/// an output attachment in BGRA8 sRGB, presented with vertical sync.
pub fn create_swap_chain(width: u32, height: u32) -> (surface: SwapSurface)
    ensures
        surface == SwapSurface::configured(width, height),
{
    SwapSurface {
        usage: TextureUsage::OutputAttachment,
        format: TextureFormat::Bgra8UnormSrgb,
        width,
        height,
        present_mode: PresentMode::Vsync,
    }
}

/// Owner of the current swap-surface.
#[derive(Debug, PartialEq, Eq, Structural)]
pub struct SurfaceManager {
    current: SwapSurface,
}

impl SurfaceManager {
    /// The surface that frames are drawn into.
    pub closed spec fn view(&self) -> SwapSurface {
        self.current
    }

    /// The manager after the surface was rebuilt for `width` by `height`.
    pub closed spec fn recreated(self, width: u32, height: u32) -> SurfaceManager {
        SurfaceManager { current: SwapSurface::configured(width, height) }
    }

    /// Builds the first surface, for the initial drawable size.
    pub fn new(width: u32, height: u32) -> (manager: SurfaceManager)
        ensures
            manager@ == SwapSurface::configured(width, height),
    {
        SurfaceManager { current: create_swap_chain(width, height) }
    }

    /// Discards the current surface and builds a new one for `width` by
    /// `height`. Always a full rebuild: nothing of the old surface is kept.
    pub fn create_or_resize(&mut self, width: u32, height: u32) -> (surface: SwapSurface)
        ensures
            *final(self) == old(self).recreated(width, height),
            final(self)@ == surface,
            surface == SwapSurface::configured(width, height),
            surface.dimensions() == (width, height),
    {
        self.current = create_swap_chain(width, height);
        self.current
    }

    /// The surface that frames are drawn into.
    pub fn current(&self) -> (surface: SwapSurface)
        ensures
            surface == self@,
    {
        self.current
    }

    /// Pixel size of the current surface.
    pub fn dimensions(&self) -> (size: (u32, u32))
        ensures
            size == self@.dimensions(),
    {
        (self.current.width, self.current.height)
    }
}

/// A rebuilt manager holds the surface configured for the new size, whatever
/// it held before.
pub proof fn lemma_recreated_view(manager: SurfaceManager, width: u32, height: u32)
    ensures
        manager.recreated(width, height)@ == SwapSurface::configured(width, height),
        manager.recreated(width, height)@.dimensions() == (width, height),
{
}

/// Rebuilding twice for the same size gives the same surface as rebuilding
/// once.
pub proof fn lemma_recreate_idempotent(manager: SurfaceManager, width: u32, height: u32)
    ensures
        manager.recreated(width, height).recreated(width, height) == manager.recreated(
            width,
            height,
        ),
        manager.recreated(width, height).recreated(width, height)@.dimensions()
            == manager.recreated(width, height)@.dimensions(),
{
}

} // verus!
