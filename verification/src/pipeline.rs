//! The render objects the windowed path builds around its swapchain: a
//! single-subpass render pass, a framebuffer wrapping one swapchain image,
//! and a graphics pipeline drawing one triangle.
//!
//! Each object must agree with the negotiated swapchain: the render pass's
//! one color attachment carries the swapchain's format, the framebuffer
//! wraps an image the swapchain actually has and spans the swapchain's
//! extent, and the pipeline targets that render pass's only subpass.

use vstd::prelude::*;
use crate::raster::{clear_color, spec_clear_color, Rgba};
use crate::swapchain::{
    lemma_negotiation_respects_caps, negotiate_swapchain, spec_chosen_extent, Extent,
    NegotiateError, SurfaceCapabilities, SwapchainConfig,
};

verus! {

/// What a render pass does with its attachment's prior contents.
#[derive(Clone, Copy, PartialEq, Eq, Structural, Debug)]
pub enum LoadOp {
    /// Clear the attachment before the subpass runs.
    Clear,
    /// Keep the prior contents.
    Load,
}

/// What a render pass does with its attachment's contents afterwards.
#[derive(Clone, Copy, PartialEq, Eq, Structural, Debug)]
pub enum StoreOp {
    /// Keep the rendered contents.
    Store,
    /// Allow them to be discarded.
    DontCare,
}

/// The one-attachment, one-subpass render pass the windowed path uses.
#[derive(Clone, Copy, PartialEq, Eq, Structural, Debug)]
pub struct RenderPassConfig {
    pub format: u32,
    pub samples: u32,
    pub load: LoadOp,
    pub store: StoreOp,
    pub clear_to: Rgba,
}

/// The framebuffer wrapping one swapchain image for the frame.
#[derive(Clone, Copy, PartialEq, Eq, Structural, Debug)]
pub struct FramebufferConfig {
    pub attachment_format: u32,
    pub extent: Extent,
    pub image_index: u32,
}

/// How the pipeline's scissor rectangle is chosen.
#[derive(Clone, Copy, PartialEq, Eq, Structural, Debug)]
pub enum ScissorMode {
    /// The scissor covers whatever the viewport covers.
    FollowsViewport,
    /// The scissor is set on its own.
    Independent,
}

/// The graphics pipeline and its one draw: a three-vertex triangle with a
/// single fixed viewport anchored at the origin.
#[derive(Clone, Copy, PartialEq, Eq, Structural, Debug)]
pub struct PipelineConfig {
    pub render_pass_format: u32,
    pub subpass: u32,
    pub vertex_count: u32,
    pub viewport_origin_x: u32,
    pub viewport_origin_y: u32,
    pub viewport: Extent,
    pub scissor: ScissorMode,
}

/// Why building the frame's render objects failed.
#[derive(Clone, Copy, PartialEq, Eq, Structural, Debug)]
pub enum BuildError {
    /// The acquired image index names no image of the swapchain.
    ImageIndexOutOfRange,
}

/// The render pass for the negotiated swapchain: one color attachment in
/// the swapchain's format, single-sampled, cleared to the fixed color on
/// load and kept on store, no depth or stencil.
pub fn render_pass_for(sc: &SwapchainConfig) -> (rp: RenderPassConfig)
    ensures
        rp.format == sc.format,
        rp.samples == 1,
        rp.load is Clear,
        rp.store is Store,
        rp.clear_to == spec_clear_color(),
{
    RenderPassConfig {
        format: sc.format,
        samples: 1,
        load: LoadOp::Clear,
        store: StoreOp::Store,
        clear_to: clear_color(),
    }
}

/// The framebuffer wrapping the acquired swapchain image.  Succeeds exactly
/// when the acquired index names an image the swapchain has, and then spans
/// the swapchain's extent in the render pass's format.
pub fn framebuffer_for(sc: &SwapchainConfig, rp: &RenderPassConfig, image_index: u32) -> (r:
    Result<FramebufferConfig, BuildError>)
    ensures
        r is Ok <==> image_index < sc.image_count,
        r matches Ok(fb) ==> {
            &&& fb.attachment_format == rp.format
            &&& fb.extent == sc.extent
            &&& fb.image_index == image_index
        },
        r matches Err(e) ==> e is ImageIndexOutOfRange,
{
    if image_index < sc.image_count {
        Ok(
            FramebufferConfig {
                attachment_format: rp.format,
                extent: sc.extent,
                image_index,
            },
        )
    } else {
        Err(BuildError::ImageIndexOutOfRange)
    }
}

/// The graphics pipeline for the render pass: bound to its only subpass,
/// drawing the fixed three-vertex triangle with one fixed viewport anchored
/// at the origin, the scissor following the viewport.
pub fn pipeline_for(rp: &RenderPassConfig) -> (p: PipelineConfig)
    ensures
        p.render_pass_format == rp.format,
        p.subpass == 0,
        p.vertex_count == 3,
        p.viewport_origin_x == 0,
        p.viewport_origin_y == 0,
        p.viewport == (Extent { width: 1024, height: 1024 }),
        p.scissor is FollowsViewport,
{
    PipelineConfig {
        render_pass_format: rp.format,
        subpass: 0,
        vertex_count: 3,
        viewport_origin_x: 0,
        viewport_origin_y: 0,
        viewport: Extent { width: 1024, height: 1024 },
        scissor: ScissorMode::FollowsViewport,
    }
}


/// Everything the windowed path decides for its one frame, fixed before any
/// render object is created.
#[derive(Clone, Copy, PartialEq, Eq, Structural, Debug)]
pub struct WindowedPlan {
    pub queue_family_id: u32,
    pub swapchain: SwapchainConfig,
    pub render_pass: RenderPassConfig,
    pub framebuffer: FramebufferConfig,
    pub pipeline: PipelineConfig,
}

/// Why planning the windowed frame failed.
#[derive(Clone, Copy, PartialEq, Eq, Structural, Debug)]
pub enum PlanError {
    /// The surface advertised no supported format.
    NoFormats,
    /// The surface advertised no supported composite-alpha mode.
    NoCompositeAlpha,
    /// The acquired image index names no image of the swapchain.
    ImageIndexOutOfRange,
}

/// Decide the whole windowed frame from the surface's capability report,
/// the chosen queue family and the acquired image index: negotiate the
/// swapchain, then build the render pass, framebuffer and pipeline around
/// it.  On success every object agrees with the negotiated swapchain.
pub fn plan_windowed_frame(
    caps: &SurfaceCapabilities,
    queue_family_id: u32,
    image_index: u32,
) -> (r: Result<WindowedPlan, PlanError>)
    ensures
        r is Ok <==> {
            &&& caps.supported_formats@.len() > 0
            &&& caps.supported_composite_alpha@.len() > 0
            &&& image_index < caps.min_image_count
        },
        r matches Ok(p) ==> {
            &&& p.queue_family_id == queue_family_id
            &&& p.swapchain.image_count == caps.min_image_count
            &&& p.swapchain.format == caps.supported_formats@[0]
            &&& p.swapchain.extent == spec_chosen_extent(*caps)
            &&& p.swapchain.layers == 1
            &&& p.swapchain.composite_alpha == caps.supported_composite_alpha@[0]
            &&& p.swapchain.usage_flags == caps.supported_usage_flags
            &&& p.swapchain.transform is Identity
            &&& p.swapchain.present_mode is Fifo
            &&& p.render_pass.format == p.swapchain.format
            &&& p.render_pass.samples == 1
            &&& p.render_pass.load is Clear
            &&& p.render_pass.clear_to == spec_clear_color()
            &&& p.framebuffer.attachment_format == p.swapchain.format
            &&& p.framebuffer.extent == p.swapchain.extent
            &&& p.framebuffer.image_index == image_index
            &&& p.pipeline.render_pass_format == p.swapchain.format
            &&& p.pipeline.subpass == 0
            &&& p.pipeline.vertex_count == 3
            &&& p.pipeline.viewport_origin_x == 0 && p.pipeline.viewport_origin_y == 0
            &&& p.pipeline.scissor is FollowsViewport
        },
        r matches Err(e) ==> {
            &&& e is NoFormats <==> caps.supported_formats@.len() == 0
            &&& e is NoCompositeAlpha <==> (caps.supported_formats@.len() > 0
                && caps.supported_composite_alpha@.len() == 0)
        },
{
    let swapchain = match negotiate_swapchain(caps) {
        Ok(c) => c,
        Err(e) => {
            return Err(
                match e {
                    NegotiateError::NoFormats => PlanError::NoFormats,
                    NegotiateError::NoCompositeAlpha => PlanError::NoCompositeAlpha,
                },
            );
        },
    };
    let render_pass = render_pass_for(&swapchain);
    let framebuffer = match framebuffer_for(&swapchain, &render_pass, image_index) {
        Ok(fb) => fb,
        Err(_) => {
            return Err(PlanError::ImageIndexOutOfRange);
        },
    };
    let pipeline = pipeline_for(&render_pass);
    Ok(WindowedPlan { queue_family_id, swapchain, render_pass, framebuffer, pipeline })
}

/// The framebuffer attached to the pipeline is consistent with the
/// negotiated surface capabilities: its attachment carries a format the
/// surface advertised, and its extent lies within the surface's minimum and
/// maximum image extents.
pub proof fn lemma_windowed_frame_consistent(caps: SurfaceCapabilities, p: WindowedPlan)
    requires
        caps.wf(),
        caps.supported_formats@.len() > 0,
        caps.supported_composite_alpha@.len() > 0,
        p.swapchain.format == caps.supported_formats@[0],
        p.swapchain.composite_alpha == caps.supported_composite_alpha@[0],
        p.swapchain.extent == spec_chosen_extent(caps),
        p.framebuffer.attachment_format == p.swapchain.format,
        p.framebuffer.extent == p.swapchain.extent,
    ensures
        caps.supported_formats@.contains(p.framebuffer.attachment_format),
        caps.min_image_extent.width <= p.framebuffer.extent.width
            <= caps.max_image_extent.width,
        caps.min_image_extent.height <= p.framebuffer.extent.height
            <= caps.max_image_extent.height,
{
    lemma_negotiation_respects_caps(caps, p.swapchain);
}

} // verus!
