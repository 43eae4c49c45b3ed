use atlas_core::commands::{Command, DescriptorSetRef, PipelineKind, RenderTarget, VertexSource};
use atlas_core::egui::{EguiData, FrameEndFuture, UpdateTexturesResult};
use atlas_core::frame::{is_swapchain_usable, run_frame, FatalError, FrameAction, FrameContext, FrameEvent, FramePhase};
use atlas_core::mesh::{load_gltf, ImportedMaterial, ImportedMesh, ImportedScene, Mesh};
use atlas_core::renderer::deferred::{DebugPreviewBuffer, RecreateOutcome};
use atlas_core::resources::{Extent, Format, SwapchainImage};
use atlas_core::system::{AcquireOutcome, FlushOutcome, Submission, Swapchain, SystemInfo};

fn extent(width: u32, height: u32) -> Extent {
    Extent { width, height }
}

fn swapchain(width: u32, height: u32) -> Swapchain {
    Swapchain { image_format: Format::B8G8R8A8Srgb, image_extent: extent(width, height) }
}

fn images(count: usize, width: u32, height: u32) -> Vec<SwapchainImage> {
    vec![SwapchainImage { extent: extent(width, height) }; count]
}

fn context(image_count: usize, width: u32, height: u32) -> FrameContext {
    FrameContext::new(
        SystemInfo { device_name: "Test GPU".to_string(), device_type: "DiscreteGpu".to_string() },
        swapchain(width, height),
        images(image_count, width, height),
        0,
    )
    .unwrap()
}

fn recreated(image_count: usize, width: u32, height: u32) -> FrameEvent {
    FrameEvent::SwapchainRecreated {
        recreation: RecreateOutcome::Recreated {
            swapchain: swapchain(width, height),
            images: images(image_count, width, height),
        },
    }
}

fn acquired(image_num: usize) -> FrameEvent {
    FrameEvent::ImageAcquired { acquisition: AcquireOutcome::Acquired { image_num, suboptimal: false } }
}

fn triangle() -> Mesh {
    let scene = ImportedScene {
        meshes: vec![ImportedMesh {
            vertex_count: 3,
            normal_count: 3,
            tex_coord_count: Some(3),
            faces: vec![vec![0, 1, 2]],
            material_index: 0,
        }],
        materials: vec![ImportedMaterial { base_color: None }],
    };
    load_gltf(&scene, "").unwrap()
}

fn assert_sized(context: &FrameContext, image_count: usize, extent: Extent) {
    let pass = context.render_pass();
    assert_eq!(pass.color_buffer.extent, extent);
    assert_eq!(pass.normal_buffer.extent, extent);
    assert_eq!(pass.position_buffer.extent, extent);
    assert_eq!(pass.deferred_framebuffers.len(), image_count);
    for framebuffer in &pass.deferred_framebuffers {
        assert_eq!(framebuffer.depth.extent, extent);
    }
    assert_eq!(context.system().viewport.dimensions, extent);
    assert_eq!(context.system().images.len(), image_count);
}

/// A context whose first frame, which recreates the swapchain, is over.
/// The frame in flight signals fence 1.
fn settled(image_count: usize, width: u32, height: u32) -> FrameContext {
    let mesh = triangle();
    let mut context = context(image_count, width, height);
    assert_eq!(
        start_frame(&mut context, &mesh, width, height, 0),
        FrameAction::RecreateSwapchain { extent: extent(width, height) }
    );
    assert_eq!(run_frame(&mut context, &mesh, recreated(image_count, width, height)), FrameAction::AcquireImage);
    finish_frame(&mut context, &mesh, 0, 1);
    assert!(!context.system().recreate_swapchain);
    context
}

/// Runs a frame from the acquisition of image `image_num` to its end.
fn finish_frame(context: &mut FrameContext, mesh: &Mesh, image_num: usize, fence: u64) {
    assert_eq!(run_frame(context, mesh, acquired(image_num)), FrameAction::UpdateOverlay);
    let action = run_frame(
        context,
        mesh,
        FrameEvent::OverlayUpdated { clicked: None, textures: UpdateTexturesResult::Unchanged },
    );
    assert!(matches!(action, FrameAction::Submit { .. }));
    let flushed = FrameEvent::Flushed { flush: FlushOutcome::Flushed { fence }, now: 0 };
    assert_eq!(run_frame(context, mesh, flushed), FrameAction::Wait);
}

/// Runs a frame up to the point where an image is to be acquired.
fn start_frame(context: &mut FrameContext, mesh: &Mesh, width: u32, height: u32, now: u64) -> FrameAction {
    let action = run_frame(context, mesh, FrameEvent::Redraw { window_extent: extent(width, height), now });
    assert!(matches!(action, FrameAction::ReclaimFinished { .. }));
    run_frame(context, mesh, FrameEvent::Reclaimed)
}

/// Runs a whole frame on a context whose swapchain is up to date.
fn whole_frame(context: &mut FrameContext, mesh: &Mesh, image_num: usize, fence: u64) {
    let extent = context.system().swapchain.image_extent;
    assert_eq!(start_frame(context, mesh, extent.width, extent.height, 0), FrameAction::AcquireImage);
    finish_frame(context, mesh, image_num, fence);
}

#[test]
fn new_context_is_sized_for_the_swapchain() {
    let context = context(3, 1920, 1080);
    assert_eq!(context.phase(), FramePhase::Idle);
    assert_sized(&context, 3, extent(1920, 1080));
    assert!(context.system().recreate_swapchain);
    assert_eq!(context.system().previous_frame_end, FrameEndFuture::BoxedFuture);
    assert_eq!(*context.egui(), EguiData { subpass: 2 });
    assert_eq!(context.render_pass().params.preview_buffer, DebugPreviewBuffer::FinalOutput);
    assert_eq!(context.shadow_map_pass().shadow_map_buffer.extent, extent(3000, 2000));
    assert_eq!(context.system().info.device_name, "Test GPU");
}

#[test]
fn context_needs_a_usable_swapchain() {
    let info = || SystemInfo { device_name: String::new(), device_type: String::new() };
    assert_eq!(
        FrameContext::new(info(), swapchain(800, 600), Vec::new(), 0),
        Err(FatalError::BadSwapchain)
    );
    assert_eq!(
        FrameContext::new(info(), swapchain(0, 600), images(2, 0, 600), 0),
        Err(FatalError::BadSwapchain)
    );
    assert_eq!(
        FrameContext::new(info(), swapchain(800, 600), images(2, 800, 601), 0),
        Err(FatalError::BadSwapchain)
    );
    assert_eq!(
        FrameContext::new(
            info(),
            Swapchain { image_format: Format::D16Unorm, image_extent: extent(800, 600) },
            images(2, 800, 600),
            0
        ),
        Err(FatalError::BadSwapchain)
    );
}

#[test]
fn usable_swapchains() {
    assert!(is_swapchain_usable(&swapchain(1, 1), &images(1, 1, 1)));
    assert!(is_swapchain_usable(&swapchain(800, 600), &images(3, 800, 600)));
    assert!(!is_swapchain_usable(&swapchain(800, 600), &Vec::new()));
    assert!(!is_swapchain_usable(&swapchain(800, 0), &images(3, 800, 0)));
    let mut mixed = images(3, 800, 600);
    mixed[2].extent.width = 799;
    assert!(!is_swapchain_usable(&swapchain(800, 600), &mixed));
}

#[test]
fn first_frame_recreates_the_swapchain_and_presents() {
    let mesh = triangle();
    let mut context = context(2, 800, 600);

    let action = run_frame(&mut context, &mesh, FrameEvent::Redraw { window_extent: extent(1024, 768), now: 500 });
    assert_eq!(action, FrameAction::ReclaimFinished { fence: None });
    assert_eq!(context.phase(), FramePhase::Reclaiming { window_extent: extent(1024, 768) });
    assert_eq!(context.system().performance_info.last_update, 500);
    assert_eq!(context.system().performance_info.delta_time, 500);

    let action = run_frame(&mut context, &mesh, FrameEvent::Reclaimed);
    assert_eq!(action, FrameAction::RecreateSwapchain { extent: extent(1024, 768) });
    assert_eq!(context.phase(), FramePhase::Recreating);

    let action = run_frame(&mut context, &mesh, recreated(3, 1024, 768));
    assert_eq!(action, FrameAction::AcquireImage);
    assert_eq!(context.phase(), FramePhase::Acquiring);
    assert!(!context.system().recreate_swapchain);
    assert_sized(&context, 3, extent(1024, 768));

    let action = run_frame(&mut context, &mesh, acquired(2));
    assert_eq!(action, FrameAction::UpdateOverlay);
    assert_eq!(context.phase(), FramePhase::UpdatingOverlay { image_num: 2 });

    let action = run_frame(
        &mut context,
        &mesh,
        FrameEvent::OverlayUpdated {
            clicked: Some(DebugPreviewBuffer::Normal),
            textures: UpdateTexturesResult::Changed,
        },
    );
    assert_eq!(context.phase(), FramePhase::Submitting);
    assert_eq!(context.render_pass().params.preview_buffer, DebugPreviewBuffer::Normal);
    let material = Some(DescriptorSetRef::Material { submesh: 0 });
    assert_eq!(
        action,
        FrameAction::Submit {
            commands: vec![
                Command::BeginRenderPass { target: RenderTarget::ShadowMap },
                Command::SetViewport { width: 3000, height: 2000 },
                Command::BindPipeline { pipeline: PipelineKind::ShadowMap },
                Command::BindDescriptorSets {
                    pipeline: PipelineKind::ShadowMap,
                    first: DescriptorSetRef::Light,
                    second: material,
                },
                Command::BindVertexBuffers { source: VertexSource::Submesh { submesh: 0 } },
                Command::BindIndexBuffer { submesh: 0 },
                Command::DrawIndexed { index_count: 3, instance_count: 1 },
                Command::EndRenderPass,
                Command::BeginRenderPass { target: RenderTarget::Swapchain { image: 2 } },
                Command::SetViewport { width: 1024, height: 768 },
                Command::BindPipeline { pipeline: PipelineKind::Deferred },
                Command::BindDescriptorSets {
                    pipeline: PipelineKind::Deferred,
                    first: DescriptorSetRef::Camera,
                    second: material,
                },
                Command::BindVertexBuffers { source: VertexSource::Submesh { submesh: 0 } },
                Command::BindIndexBuffer { submesh: 0 },
                Command::DrawIndexed { index_count: 3, instance_count: 1 },
                Command::NextSubpass,
                Command::BindPipeline { pipeline: PipelineKind::Lighting },
                Command::BindDescriptorSets {
                    pipeline: PipelineKind::Lighting,
                    first: DescriptorSetRef::Lighting,
                    second: None,
                },
                Command::BindVertexBuffers { source: VertexSource::FullscreenQuad },
                Command::Draw { vertex_count: 6, instance_count: 1 },
                Command::DrawOverlay,
                Command::EndRenderPass,
            ],
            submission: Submission { wait_on: None, after: None, image_num: 2 },
        }
    );

    let action =
        run_frame(&mut context, &mesh, FrameEvent::Flushed { flush: FlushOutcome::Flushed { fence: 1 }, now: 900 });
    assert_eq!(action, FrameAction::Wait);
    assert_eq!(context.phase(), FramePhase::Idle);
    assert_eq!(context.system().previous_frame_end, FrameEndFuture::FenceSignalFuture { fence: 1 });
    assert_eq!(context.system().performance_info.render_time, 400);
}

#[test]
fn second_frame_follows_the_first() {
    let mesh = triangle();
    let mut context = context(2, 800, 600);
    assert_eq!(start_frame(&mut context, &mesh, 800, 600, 0), FrameAction::RecreateSwapchain { extent: extent(800, 600) });
    assert_eq!(run_frame(&mut context, &mesh, recreated(2, 800, 600)), FrameAction::AcquireImage);
    assert_eq!(run_frame(&mut context, &mesh, acquired(0)), FrameAction::UpdateOverlay);
    let overlay = || FrameEvent::OverlayUpdated { clicked: None, textures: UpdateTexturesResult::Changed };
    assert!(matches!(run_frame(&mut context, &mesh, overlay()), FrameAction::Submit { .. }));
    let flushed = FrameEvent::Flushed { flush: FlushOutcome::Flushed { fence: 7 }, now: 0 };
    assert_eq!(run_frame(&mut context, &mesh, flushed), FrameAction::Wait);

    let action = run_frame(&mut context, &mesh, FrameEvent::Redraw { window_extent: extent(800, 600), now: 0 });
    assert_eq!(action, FrameAction::ReclaimFinished { fence: Some(7) });
    assert_eq!(run_frame(&mut context, &mesh, FrameEvent::Reclaimed), FrameAction::AcquireImage);
    assert_eq!(run_frame(&mut context, &mesh, acquired(1)), FrameAction::UpdateOverlay);
    match run_frame(&mut context, &mesh, overlay()) {
        FrameAction::Submit { submission, .. } => {
            assert_eq!(submission, Submission { wait_on: Some(7), after: Some(7), image_num: 1 })
        }
        other => panic!("expected a submission, found {:?}", other),
    }
}

#[test]
fn unchanged_overlay_textures_do_not_wait_for_the_last_frame() {
    let mesh = triangle();
    let mut context = settled(2, 800, 600);
    whole_frame(&mut context, &mesh, 0, 3);
    assert_eq!(start_frame(&mut context, &mesh, 800, 600, 0), FrameAction::AcquireImage);
    assert_eq!(run_frame(&mut context, &mesh, acquired(1)), FrameAction::UpdateOverlay);
    let overlay = FrameEvent::OverlayUpdated { clicked: None, textures: UpdateTexturesResult::Unchanged };
    match run_frame(&mut context, &mesh, overlay) {
        FrameAction::Submit { submission, .. } => {
            assert_eq!(submission, Submission { wait_on: None, after: Some(3), image_num: 1 })
        }
        other => panic!("expected a submission, found {:?}", other),
    }
}

#[test]
fn minimised_window_skips_frames_until_it_is_restored() {
    let mesh = triangle();
    let mut context = settled(2, 800, 600);

    assert_eq!(run_frame(&mut context, &mesh, FrameEvent::WindowResized), FrameAction::Wait);
    for _ in 0..3 {
        assert_eq!(start_frame(&mut context, &mesh, 0, 0, 0), FrameAction::Wait);
        assert_eq!(context.phase(), FramePhase::Idle);
        assert!(context.system().recreate_swapchain);
        assert_sized(&context, 2, extent(800, 600));
        assert_eq!(context.system().previous_frame_end, FrameEndFuture::FenceSignalFuture { fence: 1 });
    }

    assert_eq!(
        start_frame(&mut context, &mesh, 800, 600, 0),
        FrameAction::RecreateSwapchain { extent: extent(800, 600) }
    );
    assert_eq!(run_frame(&mut context, &mesh, recreated(2, 800, 600)), FrameAction::AcquireImage);
    assert!(!context.system().recreate_swapchain);
    assert_sized(&context, 2, extent(800, 600));
    finish_frame(&mut context, &mesh, 1, 2);
    assert_eq!(context.system().previous_frame_end, FrameEndFuture::FenceSignalFuture { fence: 2 });
}

#[test]
fn resized_window_flags_the_swapchain_between_frames_only() {
    let mesh = triangle();
    let mut context = settled(2, 800, 600);
    assert_eq!(run_frame(&mut context, &mesh, FrameEvent::WindowResized), FrameAction::Wait);
    assert!(context.system().recreate_swapchain);
    assert_eq!(context.phase(), FramePhase::Idle);

    let mut context = settled(2, 800, 600);
    assert_eq!(start_frame(&mut context, &mesh, 800, 600, 0), FrameAction::AcquireImage);
    assert_eq!(run_frame(&mut context, &mesh, FrameEvent::WindowResized), FrameAction::Ignored);
    assert!(!context.system().recreate_swapchain);
    assert_eq!(context.phase(), FramePhase::Acquiring);
}

#[test]
fn unsupported_extent_skips_the_frame_and_tries_again() {
    let mesh = triangle();
    let mut context = context(2, 800, 600);
    assert_eq!(start_frame(&mut context, &mesh, 5, 5, 0), FrameAction::RecreateSwapchain { extent: extent(5, 5) });
    let event = FrameEvent::SwapchainRecreated { recreation: RecreateOutcome::ExtentNotSupported };
    assert_eq!(run_frame(&mut context, &mesh, event), FrameAction::Wait);
    assert_eq!(context.phase(), FramePhase::Idle);
    assert!(context.system().recreate_swapchain);
    assert_sized(&context, 2, extent(800, 600));
    assert_eq!(start_frame(&mut context, &mesh, 640, 480, 0), FrameAction::RecreateSwapchain { extent: extent(640, 480) });
}

#[test]
fn failed_recreation_aborts() {
    let mesh = triangle();
    let mut context = context(2, 800, 600);
    assert_eq!(start_frame(&mut context, &mesh, 800, 600, 0), FrameAction::RecreateSwapchain { extent: extent(800, 600) });
    let event = FrameEvent::SwapchainRecreated { recreation: RecreateOutcome::Failed };
    assert_eq!(run_frame(&mut context, &mesh, event), FrameAction::Abort { reason: FatalError::SwapchainRecreation });
    assert_sized(&context, 2, extent(800, 600));
}

#[test]
fn unusable_recreated_swapchain_aborts() {
    let mesh = triangle();
    for event in [
        recreated(0, 800, 600),
        recreated(2, 0, 0),
        FrameEvent::SwapchainRecreated {
            recreation: RecreateOutcome::Recreated { swapchain: swapchain(800, 600), images: images(2, 640, 480) },
        },
        FrameEvent::SwapchainRecreated {
            recreation: RecreateOutcome::Recreated {
                swapchain: Swapchain { image_format: Format::R8G8B8A8Srgb, image_extent: extent(800, 600) },
                images: images(2, 800, 600),
            },
        },
    ] {
        let mut context = context(2, 800, 600);
        assert_eq!(start_frame(&mut context, &mesh, 800, 600, 0), FrameAction::RecreateSwapchain { extent: extent(800, 600) });
        assert_eq!(run_frame(&mut context, &mesh, event), FrameAction::Abort { reason: FatalError::BadSwapchain });
        assert_eq!(context.phase(), FramePhase::Idle);
        assert_sized(&context, 2, extent(800, 600));
        assert!(context.system().recreate_swapchain);
    }
}

#[test]
fn stale_swapchain_on_acquire_skips_the_frame() {
    let mesh = triangle();
    let mut context = settled(2, 800, 600);
    assert_eq!(start_frame(&mut context, &mesh, 800, 600, 0), FrameAction::AcquireImage);
    let event = FrameEvent::ImageAcquired { acquisition: AcquireOutcome::OutOfDate };
    assert_eq!(run_frame(&mut context, &mesh, event), FrameAction::Wait);
    assert_eq!(context.phase(), FramePhase::Idle);
    assert!(context.system().recreate_swapchain);
    assert_eq!(start_frame(&mut context, &mesh, 800, 600, 0), FrameAction::RecreateSwapchain { extent: extent(800, 600) });
}

#[test]
fn suboptimal_image_is_drawn_and_the_swapchain_recreated_next_frame() {
    let mesh = triangle();
    let mut context = settled(2, 800, 600);
    assert_eq!(start_frame(&mut context, &mesh, 800, 600, 0), FrameAction::AcquireImage);
    let event = FrameEvent::ImageAcquired { acquisition: AcquireOutcome::Acquired { image_num: 1, suboptimal: true } };
    assert_eq!(run_frame(&mut context, &mesh, event), FrameAction::UpdateOverlay);
    assert!(context.system().recreate_swapchain);
}

#[test]
fn failed_acquisition_aborts() {
    let mesh = triangle();
    for acquisition in [AcquireOutcome::Failed, AcquireOutcome::Acquired { image_num: 2, suboptimal: false }] {
        let mut context = settled(2, 800, 600);
        assert_eq!(start_frame(&mut context, &mesh, 800, 600, 0), FrameAction::AcquireImage);
        assert_eq!(
            run_frame(&mut context, &mesh, FrameEvent::ImageAcquired { acquisition }),
            FrameAction::Abort { reason: FatalError::ImageAcquisition }
        );
        assert_eq!(context.phase(), FramePhase::Idle);
    }
}

#[test]
fn stale_swapchain_on_present_drops_the_frame() {
    let mesh = triangle();
    let mut context = settled(2, 800, 600);
    whole_frame(&mut context, &mesh, 0, 4);
    assert_eq!(start_frame(&mut context, &mesh, 800, 600, 0), FrameAction::AcquireImage);
    assert_eq!(run_frame(&mut context, &mesh, acquired(1)), FrameAction::UpdateOverlay);
    let overlay = FrameEvent::OverlayUpdated { clicked: None, textures: UpdateTexturesResult::Unchanged };
    assert!(matches!(run_frame(&mut context, &mesh, overlay), FrameAction::Submit { .. }));
    let event = FrameEvent::Flushed { flush: FlushOutcome::OutOfDate, now: 0 };
    assert_eq!(run_frame(&mut context, &mesh, event), FrameAction::Wait);
    assert_eq!(context.system().previous_frame_end, FrameEndFuture::BoxedFuture);
    assert!(context.system().recreate_swapchain);
}

#[test]
fn failed_flush_drops_the_frame_and_the_next_frame_goes_on() {
    let mesh = triangle();
    let mut context = settled(2, 800, 600);
    whole_frame(&mut context, &mesh, 0, 4);
    assert_eq!(start_frame(&mut context, &mesh, 800, 600, 0), FrameAction::AcquireImage);
    assert_eq!(run_frame(&mut context, &mesh, acquired(1)), FrameAction::UpdateOverlay);
    let overlay = FrameEvent::OverlayUpdated { clicked: None, textures: UpdateTexturesResult::Unchanged };
    assert!(matches!(run_frame(&mut context, &mesh, overlay), FrameAction::Submit { .. }));
    let event = FrameEvent::Flushed { flush: FlushOutcome::Failed, now: 0 };
    assert_eq!(run_frame(&mut context, &mesh, event), FrameAction::Wait);
    assert_eq!(context.system().previous_frame_end, FrameEndFuture::BoxedFuture);
    assert!(!context.system().recreate_swapchain);
    whole_frame(&mut context, &mesh, 0, 5);
    assert_eq!(context.system().previous_frame_end, FrameEndFuture::FenceSignalFuture { fence: 5 });
}

#[test]
fn events_out_of_order_are_ignored() {
    let mesh = triangle();
    let mut context = context(2, 800, 600);
    let events = || {
        vec![
            FrameEvent::Reclaimed,
            recreated(2, 640, 480),
            acquired(0),
            FrameEvent::OverlayUpdated { clicked: Some(DebugPreviewBuffer::Albedo), textures: UpdateTexturesResult::Changed },
            FrameEvent::Flushed { flush: FlushOutcome::Flushed { fence: 9 }, now: 77 },
        ]
    };
    for event in events() {
        assert_eq!(run_frame(&mut context, &mesh, event), FrameAction::Ignored);
    }
    assert_eq!(context, self::context(2, 800, 600));

    assert!(matches!(
        run_frame(&mut context, &mesh, FrameEvent::Redraw { window_extent: extent(800, 600), now: 0 }),
        FrameAction::ReclaimFinished { .. }
    ));
    let reclaiming = FramePhase::Reclaiming { window_extent: extent(800, 600) };
    for event in events().into_iter().skip(1) {
        assert_eq!(run_frame(&mut context, &mesh, event), FrameAction::Ignored);
        assert_eq!(context.phase(), reclaiming);
    }
    assert_eq!(
        run_frame(&mut context, &mesh, FrameEvent::Redraw { window_extent: extent(1, 1), now: 5 }),
        FrameAction::Ignored
    );
    assert_eq!(context.phase(), reclaiming);
    assert_sized(&context, 2, extent(800, 600));
}

#[test]
fn gbuffer_follows_every_resize() {
    let mesh = triangle();
    let mut context = settled(2, 800, 600);
    for (count, width, height) in [(2, 800, 600), (3, 1920, 1080), (2, 1, 1), (3, 800, 600)] {
        assert_eq!(run_frame(&mut context, &mesh, FrameEvent::WindowResized), FrameAction::Wait);
        assert_eq!(
            start_frame(&mut context, &mesh, width, height, 0),
            FrameAction::RecreateSwapchain { extent: extent(width, height) }
        );
        assert_eq!(run_frame(&mut context, &mesh, recreated(count, width, height)), FrameAction::AcquireImage);
        assert_sized(&context, count, extent(width, height));
        finish_frame(&mut context, &mesh, count - 1, 1);
    }
}
