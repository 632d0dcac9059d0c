use vkframe::pipeline::{plan_windowed_frame, BuildError, PlanError};
use vkframe::pipeline::{framebuffer_for, pipeline_for, render_pass_for, LoadOp, StoreOp};
use vkframe::frame::{record_windowed_commands, WindowedCommand};
use vkframe::pipeline::ScissorMode;
use vkframe::raster::clear_color;
use vkframe::swapchain::{
    negotiate_swapchain, Extent, NegotiateError, PresentMode, SurfaceCapabilities,
    SurfaceTransform,
};

fn caps() -> SurfaceCapabilities {
    SurfaceCapabilities {
        min_image_count: 2,
        max_image_count: Some(8),
        current_extent: Some(Extent { width: 1920, height: 1080 }),
        min_image_extent: Extent { width: 1, height: 1 },
        max_image_extent: Extent { width: 4096, height: 4096 },
        supported_formats: vec![44, 50, 37],
        supported_composite_alpha: vec![1, 8],
        supported_usage_flags: 0x1f,
    }
}

#[test]
fn negotiation_takes_first_advertised_values() {
    let c = negotiate_swapchain(&caps()).unwrap();
    assert_eq!(c.format, 44);
    assert_eq!(c.composite_alpha, 1);
    assert_eq!(c.image_count, 2);
    assert_eq!(c.extent, Extent { width: 1920, height: 1080 });
    assert_eq!(c.usage_flags, 0x1f);
    assert_eq!(c.layers, 1);
    assert_eq!(c.transform, SurfaceTransform::Identity);
    assert_eq!(c.present_mode, PresentMode::Fifo);
}

#[test]
fn missing_current_extent_falls_back_to_default() {
    let mut capabilities = caps();
    capabilities.current_extent = None;
    let c = negotiate_swapchain(&capabilities).unwrap();
    assert_eq!(c.extent, Extent { width: 1280, height: 1024 });
}

#[test]
fn fallback_extent_is_clamped_to_advertised_bounds() {
    let mut capabilities = caps();
    capabilities.current_extent = None;
    capabilities.max_image_extent = Extent { width: 800, height: 600 };
    let c = negotiate_swapchain(&capabilities).unwrap();
    assert_eq!(c.extent, Extent { width: 800, height: 600 });
}

#[test]
fn no_advertised_format_is_an_error() {
    let mut capabilities = caps();
    capabilities.supported_formats = Vec::new();
    assert_eq!(negotiate_swapchain(&capabilities), Err(NegotiateError::NoFormats));
}

#[test]
fn no_composite_alpha_is_an_error() {
    let mut capabilities = caps();
    capabilities.supported_composite_alpha = Vec::new();
    assert_eq!(negotiate_swapchain(&capabilities), Err(NegotiateError::NoCompositeAlpha));
}

#[test]
fn render_pass_matches_swapchain_format() {
    let sc = negotiate_swapchain(&caps()).unwrap();
    let rp = render_pass_for(&sc);
    assert_eq!(rp.format, sc.format);
    assert_eq!(rp.samples, 1);
    assert_eq!(rp.load, LoadOp::Clear);
    assert_eq!(rp.store, StoreOp::Store);
    assert_eq!((rp.clear_to.r, rp.clear_to.g, rp.clear_to.b, rp.clear_to.a), (0, 0, 255, 255));
}

#[test]
fn framebuffer_wraps_an_existing_image_at_swapchain_extent() {
    let sc = negotiate_swapchain(&caps()).unwrap();
    let rp = render_pass_for(&sc);
    let fb = framebuffer_for(&sc, &rp, 1).unwrap();
    assert_eq!(fb.attachment_format, sc.format);
    assert_eq!(fb.extent, sc.extent);
    assert_eq!(fb.image_index, 1);
    assert_eq!(framebuffer_for(&sc, &rp, 2), Err(BuildError::ImageIndexOutOfRange));
}

#[test]
fn pipeline_targets_the_only_subpass_with_three_vertices() {
    let sc = negotiate_swapchain(&caps()).unwrap();
    let rp = render_pass_for(&sc);
    let p = pipeline_for(&rp);
    assert_eq!(p.render_pass_format, rp.format);
    assert_eq!(p.subpass, 0);
    assert_eq!(p.vertex_count, 3);
    assert_eq!((p.viewport_origin_x, p.viewport_origin_y), (0, 0));
    assert_eq!(p.viewport, Extent { width: 1024, height: 1024 });
    assert_eq!(p.scissor, ScissorMode::FollowsViewport);
}

#[test]
fn windowed_plan_is_internally_consistent() {
    let p = plan_windowed_frame(&caps(), 0, 1).unwrap();
    assert_eq!(p.queue_family_id, 0);
    assert_eq!(p.render_pass.format, p.swapchain.format);
    assert_eq!(p.framebuffer.attachment_format, p.swapchain.format);
    assert_eq!(p.framebuffer.extent, p.swapchain.extent);
    assert_eq!(p.pipeline.render_pass_format, p.swapchain.format);
    assert!(caps().supported_formats.contains(&p.swapchain.format));
}

#[test]
fn windowed_plan_reports_each_failure() {
    let mut capabilities = caps();
    capabilities.supported_formats = Vec::new();
    assert_eq!(plan_windowed_frame(&capabilities, 0, 0), Err(PlanError::NoFormats));
    let mut capabilities = caps();
    capabilities.supported_composite_alpha = Vec::new();
    assert_eq!(plan_windowed_frame(&capabilities, 0, 0), Err(PlanError::NoCompositeAlpha));
    assert_eq!(plan_windowed_frame(&caps(), 0, 9), Err(PlanError::ImageIndexOutOfRange));
}

#[test]
fn reported_current_extent_is_clamped_too() {
    let mut capabilities = caps();
    capabilities.current_extent = Some(Extent { width: 9000, height: 2 });
    capabilities.min_image_extent = Extent { width: 100, height: 100 };
    let c = negotiate_swapchain(&capabilities).unwrap();
    assert_eq!(c.extent, Extent { width: 4096, height: 100 });
}

#[test]
fn windowed_commands_are_begin_draw_end() {
    let sc = negotiate_swapchain(&caps()).unwrap();
    let rp = render_pass_for(&sc);
    let p = pipeline_for(&rp);
    let cmds = record_windowed_commands(&p);
    assert_eq!(cmds.len(), 3);
    assert_eq!(cmds[0], WindowedCommand::BeginRenderPass { clear_to: clear_color() });
    assert_eq!(cmds[1], WindowedCommand::Draw { vertex_count: 3 });
    assert_eq!(cmds[2], WindowedCommand::EndRenderPass);
}
