//! The presentation surface as plain data: its size, its colour format and how it presents.
//!
//! The graphics device is driven elsewhere; what is decided about the surface is decided
//! here, on integers and flags, so that each decision has a contract.

use vstd::prelude::*;

verus! {

/// Why a renderer could not be brought up. None of these can be recovered from at this level.
#[derive(Clone, Copy, Debug, PartialEq, Eq, Structural)]
pub enum InitError {
    /// No adapter is compatible with the presentation target.
    NoAdapter,
    /// The adapter did not hand out a device.
    NoDevice,
    /// The surface reports no colour format at all.
    SurfaceUnsupported,
}

/// Why a frame was not drawn. The session goes on: the caller reconfigures the surface
/// and tries again on a later tick.
#[derive(Clone, Copy, Debug, PartialEq, Eq, Structural)]
pub enum FrameError {
    /// The surface texture could not be acquired in time.
    Timeout,
    /// The surface no longer matches its configuration.
    Outdated,
    /// The surface was lost.
    Lost,
    /// The device is out of memory.
    OutOfMemory,
}

impl FrameError {
    /// The surface and its configuration have come apart, as after a resize that the
    /// renderer was not told of: the caller resizes, which configures the surface anew,
    /// and draws again.
    pub open spec fn is_stale_surface(self) -> bool {
        self is Outdated || self is Lost
    }

    /// Whether the error calls for a resize before the next frame.
    pub fn calls_for_resize(&self) -> (stale: bool)
        ensures
            stale == self.is_stale_surface(),
    {
        match self {
            FrameError::Outdated => true,
            FrameError::Lost => true,
            _ => false,
        }
    }
}

/// How finished frames reach the display.
#[derive(Clone, Copy, Debug, PartialEq, Eq, Structural)]
pub enum PresentMode {
    /// Wait for the display's refresh.
    AutoVsync,
    /// Present as fast as frames are produced.
    AutoNoVsync,
}

/// The presentation mode that a vsync flag asks for.
pub open spec fn present_mode_of(vsync: bool) -> PresentMode {
    if vsync {
        PresentMode::AutoVsync
    } else {
        PresentMode::AutoNoVsync
    }
}

/// Picks the presentation mode for a vsync flag.
pub fn present_mode(vsync: bool) -> (mode: PresentMode)
    ensures
        mode == present_mode_of(vsync),
{
    if vsync {
        PresentMode::AutoVsync
    } else {
        PresentMode::AutoNoVsync
    }
}

/// `index` is the format to take from a surface whose formats are gamma-correct where
/// `srgb` is true: the first gamma-correct one, or the first of all where there is none.
pub open spec fn is_preferred_format(srgb: Seq<bool>, index: int) -> bool {
    &&& 0 <= index < srgb.len()
    &&& forall|j: int| 0 <= j < index ==> !srgb[j]
    &&& srgb[index] || (index == 0 && forall|j: int| 0 <= j < srgb.len() ==> !srgb[j])
}

/// Chooses the surface's colour format from the formats it reports, given for each whether
/// it is gamma-correct. A surface without formats is not supported.
pub fn choose_format(srgb: &Vec<bool>) -> (choice: Result<usize, InitError>)
    ensures
        srgb.len() == 0 <==> choice is Err,
        choice is Err ==> choice == Err::<usize, InitError>(InitError::SurfaceUnsupported),
        choice matches Ok(index) ==> is_preferred_format(srgb@, index as int),
{
    if srgb.len() == 0 {
        return Err(InitError::SurfaceUnsupported);
    }
    let mut i: usize = 0;
    while i < srgb.len()
        invariant
            i <= srgb.len(),
            forall|j: int| 0 <= j < i ==> !srgb[j],
        decreases srgb.len() - i,
    {
        if srgb[i] {
            return Ok(i);
        }
        i += 1;
    }
    Ok(0)
}

/// What the surface is configured with.
#[derive(Clone, Copy, Debug, PartialEq, Eq, Structural)]
pub struct SurfaceConfig {
    /// Width in pixels.
    pub width: u32,
    /// Height in pixels.
    pub height: u32,
    /// Which of the formats that the surface reports is in use.
    pub format: usize,
    /// How frames are presented.
    pub present_mode: PresentMode,
}

impl SurfaceConfig {
    /// A viewport of this size cannot be drawn to.
    pub open spec fn is_degenerate_size(width: u32, height: u32) -> bool {
        width == 0 || height == 0
    }

    /// The configuration after a resize to `width` by `height`: unchanged where either is
    /// zero, else the same surface at the new size.
    pub open spec fn resized(self, width: u32, height: u32) -> SurfaceConfig {
        if Self::is_degenerate_size(width, height) {
            self
        } else {
            SurfaceConfig { width, height, ..self }
        }
    }

    /// The first configuration of a surface: the given size, the preferred format among
    /// those it reports, and the presentation mode that `vsync` asks for.
    pub fn new(size: (u32, u32), srgb: &Vec<bool>, vsync: bool) -> (config: Result<
        SurfaceConfig,
        InitError,
    >)
        ensures
            srgb.len() == 0 <==> config is Err,
            config is Err ==> config == Err::<SurfaceConfig, InitError>(
                InitError::SurfaceUnsupported,
            ),
            config matches Ok(c) ==> {
                &&& c.width == size.0
                &&& c.height == size.1
                &&& is_preferred_format(srgb@, c.format as int)
                &&& c.present_mode == present_mode_of(vsync)
            },
    {
        match choose_format(srgb) {
            Ok(format) => Ok(
                SurfaceConfig {
                    width: size.0,
                    height: size.1,
                    format,
                    present_mode: present_mode(vsync),
                },
            ),
            Err(e) => Err(e),
        }
    }

    /// Takes a new viewport size. A size with a zero dimension changes nothing; any other is
    /// stored. Returns whether the surface has to be configured again.
    pub fn resize(&mut self, width: u32, height: u32) -> (reconfigure: bool)
        ensures
            *final(self) == old(self).resized(width, height),
            reconfigure == !Self::is_degenerate_size(width, height),
    {
        if width > 0 && height > 0 {
            self.width = width;
            self.height = height;
            true
        } else {
            false
        }
    }

    /// The viewport size in pixels, width first.
    pub fn size(&self) -> (size: (u32, u32))
        ensures
            size == (self.width, self.height),
    {
        (self.width, self.height)
    }
}

/// Resizing twice to one size leaves what resizing once leaves, so a resize may be
/// issued on every frame.
pub proof fn lemma_resize_idempotent(config: SurfaceConfig, width: u32, height: u32)
    ensures
        config.resized(width, height).resized(width, height) == config.resized(width, height),
{
}

/// A resize never touches the colour format or the presentation mode, and a size it
/// stores has no zero dimension: a surface whose size was drawable stays drawable.
pub proof fn lemma_resize_keeps_surface(config: SurfaceConfig, width: u32, height: u32)
    ensures
        config.resized(width, height).format == config.format,
        config.resized(width, height).present_mode == config.present_mode,
        !SurfaceConfig::is_degenerate_size(config.width, config.height)
            ==> !SurfaceConfig::is_degenerate_size(
            config.resized(width, height).width,
            config.resized(width, height).height,
        ),
{
}

} // verus!
