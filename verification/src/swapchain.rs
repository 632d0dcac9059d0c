//! Swapchain negotiation and the render objects built around it.
//!
//! The windowed path queries the surface's capabilities from the chosen
//! physical device and must pick deterministically from what is advertised:
//! the first supported format, the first supported composite-alpha mode, the
//! surface's current extent (a fixed default, clamped to the advertised
//! bounds, when the surface reports none), the minimum image count, and FIFO
//! presentation.  The render pass, framebuffer and pipeline built afterwards
//! must agree with the negotiated values.  Querying talks to the driver and
//! happens outside this crate; every choice is made and proved here.

use vstd::prelude::*;

verus! {

/// A two-dimensional extent in pixels.
#[derive(Clone, Copy, PartialEq, Eq, Structural, Debug)]
pub struct Extent {
    pub width: u32,
    pub height: u32,
}

/// Extent the windowed path falls back to when the surface reports no fixed
/// current extent.
pub open spec fn spec_fallback_extent() -> Extent {
    Extent { width: 1280, height: 1024 }
}

/// What the surface advertises, as reported by the capability query.
/// Formats and composite-alpha modes are carried as the backend's numeric
/// codes; their order is the order the surface advertised them in.
pub struct SurfaceCapabilities {
    pub min_image_count: u32,
    pub max_image_count: Option<u32>,
    pub current_extent: Option<Extent>,
    pub min_image_extent: Extent,
    pub max_image_extent: Extent,
    pub supported_formats: Vec<u32>,
    pub supported_composite_alpha: Vec<u32>,
    pub supported_usage_flags: u32,
}

impl SurfaceCapabilities {
    /// What every surface guarantees of its own report: the advertised
    /// extent bounds are ordered, and a reported current extent lies within
    /// them.
    pub open spec fn wf(&self) -> bool {
        &&& self.min_image_extent.width <= self.max_image_extent.width
        &&& self.min_image_extent.height <= self.max_image_extent.height
        &&& self.current_extent matches Some(e) ==> {
            &&& self.min_image_extent.width <= e.width <= self.max_image_extent.width
            &&& self.min_image_extent.height <= e.height <= self.max_image_extent.height
        }
    }
}

/// Presentation ordering mode of a swapchain.
#[derive(Clone, Copy, PartialEq, Eq, Structural, Debug)]
pub enum PresentMode {
    /// First-in first-out: vsync-style ordering, no tearing.
    Fifo,
    /// Present immediately, possibly tearing.
    Immediate,
    /// Replace the queued image, no tearing.
    Mailbox,
}

/// How the presentation engine transforms images before showing them.
#[derive(Clone, Copy, PartialEq, Eq, Structural, Debug)]
pub enum SurfaceTransform {
    /// Show images as rendered, untransformed.
    Identity,
    /// Rotate a quarter turn clockwise.
    Rotate90,
    /// Rotate a half turn.
    Rotate180,
    /// Rotate three quarter turns clockwise.
    Rotate270,
}

/// Everything the swapchain is created with.
#[derive(Clone, Copy, PartialEq, Eq, Structural, Debug)]
pub struct SwapchainConfig {
    pub image_count: u32,
    pub format: u32,
    pub extent: Extent,
    pub layers: u32,
    pub composite_alpha: u32,
    pub usage_flags: u32,
    pub transform: SurfaceTransform,
    pub present_mode: PresentMode,
}

/// Why negotiation gave up.
#[derive(Clone, Copy, PartialEq, Eq, Structural, Debug)]
pub enum NegotiateError {
    /// The surface advertised no supported format.
    NoFormats,
    /// The surface advertised no supported composite-alpha mode.
    NoCompositeAlpha,
}

/// `x` forced into the closed interval `[lo, hi]`.
pub open spec fn spec_clamp(x: u32, lo: u32, hi: u32) -> u32 {
    if x < lo {
        lo
    } else if x > hi {
        hi
    } else {
        x
    }
}

fn clamp_u32(x: u32, lo: u32, hi: u32) -> (r: u32)
    ensures
        r == spec_clamp(x, lo, hi),
{
    if x < lo {
        lo
    } else if x > hi {
        hi
    } else {
        x
    }
}

/// The extent the swapchain is created with: the surface's current extent
/// when it reports one, else the fixed default; either way forced into the
/// advertised bounds.
pub open spec fn spec_chosen_extent(caps: SurfaceCapabilities) -> Extent {
    let base = match caps.current_extent {
        Some(e) => e,
        None => spec_fallback_extent(),
    };
    Extent {
        width: spec_clamp(base.width, caps.min_image_extent.width, caps.max_image_extent.width),
        height: spec_clamp(
            base.height,
            caps.min_image_extent.height,
            caps.max_image_extent.height,
        ),
    }
}

/// Pick the swapchain's creation values from the advertised capabilities.
/// Fails exactly when the surface advertises no format, or no
/// composite-alpha mode; otherwise every chosen value is determined by the
/// capability report alone.
pub fn negotiate_swapchain(caps: &SurfaceCapabilities) -> (r: Result<
    SwapchainConfig,
    NegotiateError,
>)
    ensures
        r is Err <==> caps.supported_formats@.len() == 0 || caps.supported_composite_alpha@.len()
            == 0,
        r matches Err(e) ==> (e is NoFormats <==> caps.supported_formats@.len() == 0),
        r matches Ok(c) ==> {
            &&& c.image_count == caps.min_image_count
            &&& c.format == caps.supported_formats@[0]
            &&& c.extent == spec_chosen_extent(*caps)
            &&& c.layers == 1
            &&& c.composite_alpha == caps.supported_composite_alpha@[0]
            &&& c.usage_flags == caps.supported_usage_flags
            &&& c.transform is Identity
            &&& c.present_mode is Fifo
        },
{
    if caps.supported_formats.len() == 0 {
        return Err(NegotiateError::NoFormats);
    }
    if caps.supported_composite_alpha.len() == 0 {
        return Err(NegotiateError::NoCompositeAlpha);
    }
    let base = match caps.current_extent {
        Some(e) => e,
        None => Extent { width: 1280, height: 1024 },
    };
    let extent = Extent {
        width: clamp_u32(base.width, caps.min_image_extent.width, caps.max_image_extent.width),
        height: clamp_u32(
            base.height,
            caps.min_image_extent.height,
            caps.max_image_extent.height,
        ),
    };
    Ok(
        SwapchainConfig {
            image_count: caps.min_image_count,
            format: caps.supported_formats[0],
            extent,
            layers: 1,
            composite_alpha: caps.supported_composite_alpha[0],
            usage_flags: caps.supported_usage_flags,
            transform: SurfaceTransform::Identity,
            present_mode: PresentMode::Fifo,
        },
    )
}

/// A negotiated choice never leaves the advertised capability set: the
/// chosen format is one of the advertised formats, the chosen
/// composite-alpha mode one of the advertised modes, and the chosen extent
/// lies within the advertised minimum and maximum image extents.
pub proof fn lemma_negotiation_respects_caps(caps: SurfaceCapabilities, c: SwapchainConfig)
    requires
        caps.wf(),
        caps.supported_formats@.len() > 0,
        caps.supported_composite_alpha@.len() > 0,
        c.format == caps.supported_formats@[0],
        c.composite_alpha == caps.supported_composite_alpha@[0],
        c.extent == spec_chosen_extent(caps),
    ensures
        caps.supported_formats@.contains(c.format),
        caps.supported_composite_alpha@.contains(c.composite_alpha),
        caps.min_image_extent.width <= c.extent.width <= caps.max_image_extent.width,
        caps.min_image_extent.height <= c.extent.height <= caps.max_image_extent.height,
{
    assert(caps.supported_formats@[0] == caps.supported_formats@.index(0));
}

} // verus!
