//! One frame of the deferred renderer, from the redraw request to the
//! presented image.
//!
//! A frame alternates between deciding and doing. The deciding is done here:
//! [`run_frame`] takes what happened and says what to do next. The doing,
//! from reclaiming resources to presenting, is left to whoever owns the
//! device, who reports back with the next event.

use vstd::prelude::*;

use crate::commands::{entered, replay, Command, CommandBuilder, DescriptorSetRef, PipelineKind, Stage};
use crate::egui::{get_egui_context, EguiData, UpdateTexturesResult};
use crate::mesh::{draw_commands, Mesh};
use crate::renderer::deferred;
use crate::renderer::deferred::{deferred_pass_prologue, lighting_commands, DebugPreviewBuffer, DeferredRenderPass};
use crate::renderer::deferred::{RecreateOutcome, Recreation, SwapchainRequest};
use crate::renderer::shadow_map;
use crate::renderer::shadow_map::{shadow_map_extent, shadow_pass_prologue, ShadowMapRenderPass};
use crate::renderer::triangle_draw_system::quad_vertices;
use crate::resources::{Extent, SwapchainImage, Viewport};
use crate::system::{elapsed, init, AcquireError, AcquireOutcome, FlushOutcome, PerformanceInfo, Submission};
use crate::system::{Swapchain, System, SystemInfo};

verus! {

/// The commands of the deferred pass that draws `mesh` to swapchain image
/// `image_num`: the geometry of every submesh in order, then the lighting
/// quad, then the overlay.
pub open spec fn frame_commands(viewport: Viewport, image_num: usize, mesh: &Mesh) -> Seq<Command> {
    deferred_pass_prologue(viewport, image_num) + draw_commands(
        mesh.buffers(),
        PipelineKind::Deferred,
        DescriptorSetRef::Camera,
        mesh.mesh_buffers@.len(),
    ) + lighting_commands() + seq![Command::DrawOverlay, Command::EndRenderPass]
}

/// The commands of the shadow pass that draws `mesh`.
pub open spec fn shadow_commands(mesh: &Mesh) -> Seq<Command> {
    shadow_pass_prologue(Viewport { dimensions: shadow_map_extent() }) + draw_commands(
        mesh.buffers(),
        PipelineKind::ShadowMap,
        DescriptorSetRef::Light,
        mesh.mesh_buffers@.len(),
    ) + seq![Command::EndRenderPass]
}

/// Records the deferred pass of one frame into a command buffer of its own
/// and hands out the commands. The pass goes through the geometry, lighting
/// and overlay subpasses once, in this order, and ends outside the render
/// pass.
pub fn record_frame(
    system: &mut System,
    render_pass: &mut DeferredRenderPass,
    egui: &mut EguiData,
    mesh: &Mesh,
    image_num: usize,
) -> (commands: Vec<Command>)
    requires
        image_num < old(render_pass).deferred_framebuffers@.len(),
        old(system).triangle_system.vertex_buffer@.len() >= 6,
        mesh.drawable(),
    ensures
        *final(system) == *old(system),
        *final(render_pass) == *old(render_pass),
        *final(egui) == *old(egui),
        commands@ == frame_commands(old(system).viewport, image_num, mesh),
        replay(commands@) == Some(entered(Stage::Ready)),
{
    let mut builder = system.start_builder();
    record_deferred_pass(&mut builder, system, render_pass, egui, mesh, image_num);
    builder.build()
}

/// Records the deferred pass of one frame into `builder`.
fn record_deferred_pass(
    builder: &mut CommandBuilder,
    system: &System,
    render_pass: &mut DeferredRenderPass,
    egui: &mut EguiData,
    mesh: &Mesh,
    image_num: usize,
)
    requires
        old(builder).well_formed(),
        old(builder).current().stage == Stage::Ready,
        image_num < old(render_pass).deferred_framebuffers@.len(),
        system.triangle_system.vertex_buffer@.len() >= 6,
        mesh.drawable(),
    ensures
        *final(render_pass) == *old(render_pass),
        *final(egui) == *old(egui),
        final(builder).well_formed(),
        final(builder).current() == entered(Stage::Ready),
        final(builder).recorded() == old(builder).recorded() + frame_commands(system.viewport, image_num, mesh),
{
    render_pass.prepare_deferred_pass(builder, &system.viewport, image_num);
    mesh.render(builder, PipelineKind::Deferred, DescriptorSetRef::Camera);
    render_pass.prepare_lighting_subpass(builder, &system.triangle_system);
    egui.render_egui(builder);
    builder.end_render_pass();
}

/// Why the renderer cannot go on.
#[derive(Clone, Copy, Debug, PartialEq, Eq, Structural)]
pub enum FatalError {
    /// The swapchain has no images, or images without area or of another
    /// size than its own, or a format that is not for colour or not the one
    /// it had before.
    BadSwapchain,
    /// The swapchain could not be recreated, and not because of its size.
    SwapchainRecreation,
    /// No image could be acquired, and not because the swapchain is stale.
    ImageAcquisition,
}

/// Where a frame stands.
#[derive(Clone, Copy, Debug, PartialEq, Eq, Structural)]
pub enum FramePhase {
    /// Between frames.
    Idle,
    /// Finished resources of the frame in flight are being reclaimed.
    Reclaiming { window_extent: Extent },
    /// The swapchain is being recreated.
    Recreating,
    /// The next image is being acquired.
    Acquiring,
    /// The overlay is being laid out for image `image_num`.
    UpdatingOverlay { image_num: usize },
    /// The frame is being submitted and presented.
    Submitting,
}

/// What happened outside.
#[derive(Debug, PartialEq, Eq)]
pub enum FrameEvent {
    /// A frame is due at time `now`, for a window of size `window_extent`.
    Redraw { window_extent: Extent, now: u64 },
    /// Finished resources were reclaimed.
    Reclaimed,
    /// The attempt to recreate the swapchain ended.
    SwapchainRecreated { recreation: RecreateOutcome },
    /// The attempt to acquire an image ended.
    ImageAcquired { acquisition: AcquireOutcome },
    /// The overlay was laid out: `clicked` is the preview entry that was
    /// clicked, if one was, and `textures` says whether its textures changed.
    OverlayUpdated { clicked: Option<DebugPreviewBuffer>, textures: UpdateTexturesResult },
    /// Submission and presentation ended, at time `now`.
    Flushed { flush: FlushOutcome, now: u64 },
    /// The window changed size.
    WindowResized,
}

/// What to do next.
#[derive(Debug, PartialEq, Eq)]
pub enum FrameAction {
    /// The frame is over, presented or skipped: wait for the next redraw.
    Wait,
    /// Reclaim what the frame in flight, which signals `fence`, has finished
    /// with, without waiting for it.
    ReclaimFinished { fence: Option<u64> },
    /// Recreate the swapchain with this extent.
    RecreateSwapchain { extent: Extent },
    /// Acquire the next swapchain image.
    AcquireImage,
    /// Lay out the overlay.
    UpdateOverlay,
    /// Execute `commands` and present as `submission` says.
    Submit { commands: Vec<Command>, submission: Submission },
    /// Give up.
    Abort { reason: FatalError },
    /// The event does not belong here. Nothing has changed.
    Ignored,
}

/// Everything a frame reads and changes. It changes through [`run_frame`]
/// only.
#[derive(Debug, PartialEq, Eq)]
pub struct FrameContext {
    system: System,
    shadow_map_pass: ShadowMapRenderPass,
    render_pass: DeferredRenderPass,
    egui: EguiData,
    phase: FramePhase,
}

/// What a [`FrameContext`] holds.
pub struct FrameView {
    pub system: System,
    pub shadow_map_pass: ShadowMapRenderPass,
    pub render_pass: DeferredRenderPass,
    pub egui: EguiData,
    pub phase: FramePhase,
}

impl View for FrameContext {
    type V = FrameView;

    closed spec fn view(&self) -> FrameView {
        FrameView {
            system: self.system,
            shadow_map_pass: self.shadow_map_pass,
            render_pass: self.render_pass,
            egui: self.egui,
            phase: self.phase,
        }
    }
}

/// Whether a swapchain can be rendered to: it has images, they have an area,
/// each has the size of the swapchain, and its format is one for colour.
pub open spec fn swapchain_usable(swapchain: Swapchain, images: Seq<SwapchainImage>) -> bool {
    &&& images.len() > 0
    &&& !swapchain.image_extent.is_empty()
    &&& !swapchain.image_format.is_depth()
    &&& forall|i: int| 0 <= i < images.len() ==> (#[trigger] images[i]).extent == swapchain.image_extent
}

/// Executable form of [`swapchain_usable`].
pub fn is_swapchain_usable(swapchain: &Swapchain, images: &Vec<SwapchainImage>) -> (usable: bool)
    ensures
        usable == swapchain_usable(*swapchain, images@),
{
    if images.len() == 0 || swapchain.image_extent.has_no_area() || swapchain.image_format.has_depth() {
        return false;
    }
    let mut i: usize = 0;
    while i < images.len()
        invariant
            i <= images@.len(),
            forall|j: int| 0 <= j < i ==> (#[trigger] images@[j]).extent == swapchain.image_extent,
        decreases images@.len() - i,
    {
        if images[i].extent != swapchain.image_extent {
            return false;
        }
        i += 1;
    }
    true
}

impl FrameView {
    /// The passes are what they should be and sized for the swapchain, the
    /// quad is in place, and an acquired image is one that has a framebuffer.
    pub open spec fn well_formed(self) -> bool {
        &&& self.render_pass.well_formed()
        &&& self.render_pass.fits(&self.system)
        &&& self.shadow_map_pass.well_formed()
        &&& self.egui == (EguiData { subpass: 2 })
        &&& self.system.triangle_system.vertex_buffer@ == quad_vertices()
        &&& self.phase matches FramePhase::UpdatingOverlay { image_num } ==> image_num
            < self.render_pass.deferred_framebuffers@.len()
    }

    /// Nothing but the phase differs between `self` and `before`.
    pub open spec fn only_phase_changed(self, before: FrameView) -> bool {
        &&& self.system == before.system
        &&& self.shadow_map_pass == before.shadow_map_pass
        &&& self.render_pass == before.render_pass
        &&& self.egui == before.egui
    }

    /// The passes and what the swapchain is made of are the same in `self`
    /// and `before`.
    pub open spec fn same_passes(self, before: FrameView) -> bool {
        &&& self.system.same_resources(&before.system)
        &&& self.shadow_map_pass == before.shadow_map_pass
        &&& self.render_pass == before.render_pass
        &&& self.egui == before.egui
    }
}

impl FrameContext {
    /// Sets up the frame context for a new swapchain at time `now`: the
    /// shadow pass, then the deferred pass sized for the swapchain, then the
    /// overlay. Nothing is in flight, and the first frame will recreate the
    /// swapchain. Fails if the swapchain cannot be rendered to.
    pub fn new(info: SystemInfo, swapchain: Swapchain, images: Vec<SwapchainImage>, now: u64) -> (result: Result<
        FrameContext,
        FatalError,
    >)
        ensures
            match result {
                Ok(context) => {
                    &&& swapchain_usable(swapchain, images@)
                    &&& context@.well_formed()
                    &&& context@.phase == FramePhase::Idle
                    &&& context@.system.info == info
                    &&& context@.system.swapchain == swapchain
                    &&& context@.system.images == images
                    &&& context@.system.recreate_swapchain
                    &&& context@.system.previous_frame_end == crate::egui::FrameEndFuture::BoxedFuture
                    &&& context@.system.performance_info == (PerformanceInfo {
                        game_start: now,
                        last_update: now,
                        delta_time: 0,
                        last_render: now,
                        render_time: 0,
                    })
                    &&& context@.render_pass.extent() == swapchain.image_extent
                    &&& context@.render_pass.render_pass@ == deferred::deferred_pass_view(swapchain.image_format)
                    &&& context@.render_pass.params.preview_buffer == DebugPreviewBuffer::FinalOutput
                },
                Err(e) => e == FatalError::BadSwapchain && !swapchain_usable(swapchain, images@),
            },
    {
        if !is_swapchain_usable(&swapchain, &images) {
            return Err(FatalError::BadSwapchain);
        }
        let mut system = init(info, swapchain, images, now);
        let shadow_map_pass = shadow_map::init_render_pass(&mut system);
        let render_pass = deferred::init_render_pass(&mut system);
        proof {
            assert(render_pass.render_pass@.subpasses.len() == 3);
        }
        let egui = get_egui_context(&render_pass.render_pass);
        Ok(FrameContext { system, shadow_map_pass, render_pass, egui, phase: FramePhase::Idle })
    }

    /// The frame synchroniser and the swapchain.
    pub fn system(&self) -> (system: &System)
        ensures
            *system == self@.system,
    {
        &self.system
    }

    /// The shadow pass.
    pub fn shadow_map_pass(&self) -> (pass: &ShadowMapRenderPass)
        ensures
            *pass == self@.shadow_map_pass,
    {
        &self.shadow_map_pass
    }

    /// The deferred pass with its G-buffer and framebuffers.
    pub fn render_pass(&self) -> (pass: &DeferredRenderPass)
        ensures
            *pass == self@.render_pass,
    {
        &self.render_pass
    }

    /// The overlay.
    pub fn egui(&self) -> (egui: &EguiData)
        ensures
            *egui == self@.egui,
    {
        &self.egui
    }

    /// Where the frame stands.
    pub fn phase(&self) -> (phase: FramePhase)
        ensures
            phase == self@.phase,
    {
        self.phase
    }
}

/// The fence that a submission has to wait for on the host before anything
/// is submitted: that of the frame in flight, if the overlay changed its
/// textures.
pub open spec fn wait_fence(system: &System, textures: UpdateTexturesResult) -> Option<u64> {
    if textures == UpdateTexturesResult::Changed {
        system.previous_frame_end.fence()
    } else {
        None
    }
}

/// How one step of a frame relates the context before it (`pre`) and after
/// it (`post`), the event and the action.
///
/// A redraw starts a frame: timing is updated and finished resources are to
/// be reclaimed. After that the swapchain is looked after: recreated if that
/// is due, unless the window has no area, in which case the frame is
/// skipped. A recreated swapchain has G-buffer and framebuffers rebuilt, and
/// must be usable and of the old format. Then an image is acquired; a stale
/// swapchain skips the frame and flags recreation. Then the overlay is laid
/// out and may change the preview. Then the frame is recorded, shadow pass
/// first, and submitted. When it has been flushed, it is the frame in
/// flight, unless flushing failed, which drops it. Between frames a resized
/// window flags the swapchain for recreation. An event that does not follow
/// the action before it is ignored.
pub open spec fn frame_step(pre: FrameView, post: FrameView, mesh: &Mesh, event: FrameEvent, action: FrameAction) -> bool {
    match (pre.phase, event) {
        (FramePhase::Idle, FrameEvent::WindowResized) => {
            &&& action == FrameAction::Wait
            &&& post.phase == FramePhase::Idle
            &&& post.system == (System { recreate_swapchain: true, ..pre.system })
            &&& post.shadow_map_pass == pre.shadow_map_pass
            &&& post.render_pass == pre.render_pass
            &&& post.egui == pre.egui
        },
        (FramePhase::Idle, FrameEvent::Redraw { window_extent, now }) => {
            &&& action == FrameAction::ReclaimFinished { fence: pre.system.previous_frame_end.fence() }
            &&& post.phase == FramePhase::Reclaiming { window_extent }
            &&& post.system == (System {
                performance_info: PerformanceInfo {
                    delta_time: elapsed(pre.system.performance_info.last_update, now),
                    last_update: now,
                    last_render: now,
                    ..pre.system.performance_info
                },
                ..pre.system
            })
            &&& post.shadow_map_pass == pre.shadow_map_pass
            &&& post.render_pass == pre.render_pass
            &&& post.egui == pre.egui
        },
        (FramePhase::Reclaiming { window_extent }, FrameEvent::Reclaimed) => {
            &&& post.only_phase_changed(pre)
            &&& match deferred::swapchain_request_for(pre.system.recreate_swapchain, window_extent) {
                SwapchainRequest::Keep => action == FrameAction::AcquireImage && post.phase
                    == FramePhase::Acquiring,
                SwapchainRequest::SkipFrame => action == FrameAction::Wait && post.phase == FramePhase::Idle,
                SwapchainRequest::Recreate { extent } => action == FrameAction::RecreateSwapchain { extent }
                    && post.phase == FramePhase::Recreating,
            }
        },
        (FramePhase::Recreating, FrameEvent::SwapchainRecreated { recreation: outcome }) => match outcome {
            RecreateOutcome::Recreated { swapchain, images } => if swapchain_usable(swapchain, images@)
                && swapchain.image_format == pre.system.swapchain.image_format {
                &&& action == FrameAction::AcquireImage
                &&& post.phase == FramePhase::Acquiring
                &&& post.system.swapchain == swapchain
                &&& post.system.images == images
                &&& !post.system.recreate_swapchain
                &&& post.system.info == pre.system.info
                &&& post.system.previous_frame_end == pre.system.previous_frame_end
                &&& post.system.performance_info == pre.system.performance_info
                &&& post.system.triangle_system == pre.system.triangle_system
                &&& post.render_pass.extent() == swapchain.image_extent
                &&& post.render_pass.render_pass == pre.render_pass.render_pass
                &&& post.render_pass.deferred_pipeline == pre.render_pass.deferred_pipeline
                &&& post.render_pass.lighting_pipeline == pre.render_pass.lighting_pipeline
                &&& post.render_pass.params == pre.render_pass.params
                &&& post.shadow_map_pass == pre.shadow_map_pass
                &&& post.egui == pre.egui
            } else {
                &&& action == FrameAction::Abort { reason: FatalError::BadSwapchain }
                &&& post.phase == FramePhase::Idle
                &&& post.only_phase_changed(pre)
            },
            RecreateOutcome::ExtentNotSupported => {
                &&& action == FrameAction::Wait
                &&& post.phase == FramePhase::Idle
                &&& post.only_phase_changed(pre)
            },
            RecreateOutcome::Failed => {
                &&& action == FrameAction::Abort { reason: FatalError::SwapchainRecreation }
                &&& post.phase == FramePhase::Idle
                &&& post.only_phase_changed(pre)
            },
        },
        (FramePhase::Acquiring, FrameEvent::ImageAcquired { acquisition: outcome }) => {
            &&& post.same_passes(pre)
            &&& post.system.previous_frame_end == pre.system.previous_frame_end
            &&& post.system.recreate_swapchain == (pre.system.recreate_swapchain || crate::system::stale_after(
                pre.system.images@.len(),
                outcome,
            ))
            &&& match crate::system::acquisition(pre.system.images@.len(), outcome) {
                Ok(image_num) => action == FrameAction::UpdateOverlay && post.phase
                    == FramePhase::UpdatingOverlay { image_num },
                Err(AcquireError::OutOfDate) => action == FrameAction::Wait && post.phase == FramePhase::Idle,
                Err(AcquireError::AcquisitionFailure) => action == FrameAction::Abort {
                    reason: FatalError::ImageAcquisition,
                } && post.phase == FramePhase::Idle,
            }
        },
        (FramePhase::UpdatingOverlay { image_num }, FrameEvent::OverlayUpdated { clicked, textures }) => {
            &&& post.phase == FramePhase::Submitting
            &&& post.system == pre.system
            &&& post.shadow_map_pass == pre.shadow_map_pass
            &&& post.egui == pre.egui
            &&& post.render_pass == (DeferredRenderPass {
                params: deferred::RendererParams {
                    preview_buffer: match clicked {
                        Some(item) => item,
                        None => pre.render_pass.params.preview_buffer,
                    },
                },
                ..pre.render_pass
            })
            &&& action matches FrameAction::Submit { commands, submission }
            &&& commands@ == shadow_commands(mesh) + frame_commands(pre.system.viewport, image_num, mesh)
            &&& replay(commands@) == Some(entered(Stage::Ready))
            &&& submission == (Submission {
                wait_on: wait_fence(&pre.system, textures),
                after: pre.system.previous_frame_end.fence(),
                image_num,
            })
        },
        (FramePhase::Submitting, FrameEvent::Flushed { flush: outcome, now }) => {
            &&& action == FrameAction::Wait
            &&& post.phase == FramePhase::Idle
            &&& post.system == (System {
                previous_frame_end: match outcome {
                    FlushOutcome::Flushed { fence } => crate::egui::FrameEndFuture::FenceSignalFuture { fence },
                    _ => crate::egui::FrameEndFuture::BoxedFuture,
                },
                recreate_swapchain: pre.system.recreate_swapchain || outcome == FlushOutcome::OutOfDate,
                performance_info: PerformanceInfo {
                    render_time: elapsed(pre.system.performance_info.last_render, now),
                    ..pre.system.performance_info
                },
                ..pre.system
            })
            &&& post.shadow_map_pass == pre.shadow_map_pass
            &&& post.render_pass == pre.render_pass
            &&& post.egui == pre.egui
        },
        _ => action == FrameAction::Ignored && post == pre,
    }
}

/// Takes one step of a frame: takes in what happened and says what to do
/// next.
pub fn run_frame(context: &mut FrameContext, mesh: &Mesh, event: FrameEvent) -> (action: FrameAction)
    requires
        old(context)@.well_formed(),
        mesh.drawable(),
    ensures
        final(context)@.well_formed(),
        frame_step(old(context)@, final(context)@, mesh, event, action),
{
    match (context.phase, event) {
        (FramePhase::Idle, FrameEvent::WindowResized) => {
            context.system.window_resized();
            FrameAction::Wait
        },
        (FramePhase::Idle, FrameEvent::Redraw { window_extent, now }) => {
            context.system.performance_info.update(now);
            let fence = context.system.cleanup_finished();
            context.phase = FramePhase::Reclaiming { window_extent };
            FrameAction::ReclaimFinished { fence }
        },
        (FramePhase::Reclaiming { window_extent }, FrameEvent::Reclaimed) => {
            match context.render_pass.swapchain_request(&context.system, window_extent) {
                SwapchainRequest::Keep => {
                    context.phase = FramePhase::Acquiring;
                    FrameAction::AcquireImage
                },
                SwapchainRequest::SkipFrame => {
                    context.phase = FramePhase::Idle;
                    FrameAction::Wait
                },
                SwapchainRequest::Recreate { extent } => {
                    context.phase = FramePhase::Recreating;
                    FrameAction::RecreateSwapchain { extent }
                },
            }
        },
        (FramePhase::Recreating, FrameEvent::SwapchainRecreated { recreation: outcome }) => {
            let usable = match &outcome {
                RecreateOutcome::Recreated { swapchain, images } => is_swapchain_usable(swapchain, images)
                    && swapchain.image_format == context.system.swapchain.image_format,
                _ => true,
            };
            if !usable {
                context.phase = FramePhase::Idle;
                return FrameAction::Abort { reason: FatalError::BadSwapchain };
            }
            match context.render_pass.handle_recreate_swapchain(&mut context.system, outcome) {
                Ok(Recreation::Rebuilt) => {
                    context.phase = FramePhase::Acquiring;
                    FrameAction::AcquireImage
                },
                Ok(Recreation::Skipped) => {
                    context.phase = FramePhase::Idle;
                    FrameAction::Wait
                },
                Err(_) => {
                    context.phase = FramePhase::Idle;
                    FrameAction::Abort { reason: FatalError::SwapchainRecreation }
                },
            }
        },
        (FramePhase::Acquiring, FrameEvent::ImageAcquired { acquisition: outcome }) => {
            match context.system.acquire_image(outcome) {
                Ok(image_num) => {
                    context.phase = FramePhase::UpdatingOverlay { image_num };
                    FrameAction::UpdateOverlay
                },
                Err(AcquireError::OutOfDate) => {
                    context.phase = FramePhase::Idle;
                    FrameAction::Wait
                },
                Err(AcquireError::AcquisitionFailure) => {
                    context.phase = FramePhase::Idle;
                    FrameAction::Abort { reason: FatalError::ImageAcquisition }
                },
            }
        },
        (FramePhase::UpdatingOverlay { image_num }, FrameEvent::OverlayUpdated { clicked, textures }) => {
            let wait_for_last_frame = context.egui.update_textures_egui(
                &mut context.render_pass.params,
                clicked,
                textures,
            );
            let mut builder = context.system.start_builder();
            let shadow_viewport = Viewport { dimensions: context.shadow_map_pass.shadow_map_buffer.extent };
            context.shadow_map_pass.render(&mut builder, &shadow_viewport, mesh);
            record_deferred_pass(
                &mut builder,
                &context.system,
                &mut context.render_pass,
                &mut context.egui,
                mesh,
                image_num,
            );
            let submission = context.system.submission(image_num, wait_for_last_frame);
            context.phase = FramePhase::Submitting;
            let commands = builder.build();
            FrameAction::Submit { commands, submission }
        },
        (FramePhase::Submitting, FrameEvent::Flushed { flush: outcome, now }) => {
            context.system.performance_info.handle_render_end(now);
            context.system.finish_frame(outcome);
            context.phase = FramePhase::Idle;
            FrameAction::Wait
        },
        _ => FrameAction::Ignored,
    }
}

/// While the window has no area, a frame that finds the swapchain due for
/// recreation ends without touching anything: the swapchain stays due, and
/// swapchain, G-buffer and framebuffers stay what they were.
pub proof fn lemma_minimised_window_skips_frame(
    pre: FrameView,
    post: FrameView,
    mesh: &Mesh,
    window_extent: Extent,
    action: FrameAction,
)
    requires
        pre.phase == (FramePhase::Reclaiming { window_extent }),
        pre.system.recreate_swapchain,
        window_extent.is_empty(),
        frame_step(pre, post, mesh, FrameEvent::Reclaimed, action),
    ensures
        action == FrameAction::Wait,
        post.phase == FramePhase::Idle,
        post.system == pre.system,
        post.render_pass == pre.render_pass,
        post.system.recreate_swapchain,
{
}

/// After the swapchain was recreated, the G-buffer has the size of the new
/// swapchain, and there is one framebuffer for each of its images, each over
/// that G-buffer and a depth buffer of the same size.
pub proof fn lemma_rebuild_follows_swapchain(
    pre: FrameView,
    post: FrameView,
    mesh: &Mesh,
    swapchain: Swapchain,
    images: Vec<SwapchainImage>,
    action: FrameAction,
)
    requires
        pre.phase == FramePhase::Recreating,
        post.well_formed(),
        swapchain_usable(swapchain, images@),
        swapchain.image_format == pre.system.swapchain.image_format,
        frame_step(
            pre,
            post,
            mesh,
            FrameEvent::SwapchainRecreated { recreation: RecreateOutcome::Recreated { swapchain, images } },
            action,
        ),
    ensures
        post.render_pass.color_buffer.extent == swapchain.image_extent,
        post.render_pass.normal_buffer.extent == swapchain.image_extent,
        post.render_pass.position_buffer.extent == swapchain.image_extent,
        post.system.viewport.dimensions == swapchain.image_extent,
        post.render_pass.deferred_framebuffers@.len() == images@.len(),
        forall|i: int|
            0 <= i < images@.len() ==> {
                let framebuffer = #[trigger] post.render_pass.deferred_framebuffers@[i];
                &&& framebuffer.image == i
                &&& framebuffer.albedo == post.render_pass.color_buffer
                &&& framebuffer.normal == post.render_pass.normal_buffer
                &&& framebuffer.position == post.render_pass.position_buffer
                &&& framebuffer.depth.extent == swapchain.image_extent
            },
{
    let framebuffers = post.render_pass.deferred_framebuffers;
    assert(framebuffers@.len() <= usize::MAX) by {
        vstd::std_specs::vec::axiom_spec_len(&framebuffers);
    }
    assert forall|i: int| 0 <= i < images@.len() implies {
        let framebuffer = #[trigger] post.render_pass.deferred_framebuffers@[i];
        &&& framebuffer.image == i
        &&& framebuffer.albedo == post.render_pass.color_buffer
        &&& framebuffer.normal == post.render_pass.normal_buffer
        &&& framebuffer.position == post.render_pass.position_buffer
        &&& framebuffer.depth.extent == swapchain.image_extent
    } by {
    }
}

/// A frame keeps its order. Swapchain, G-buffer and framebuffers change
/// only when a recreated swapchain is taken in, which happens only after
/// finished resources were reclaimed; and a frame is submitted only for an
/// image that was acquired for it.
pub proof fn lemma_frame_order(pre: FrameView, post: FrameView, mesh: &Mesh, event: FrameEvent, action: FrameAction)
    requires
        frame_step(pre, post, mesh, event, action),
    ensures
        !(pre.phase == FramePhase::Recreating && event is SwapchainRecreated) ==> {
            &&& post.system.swapchain == pre.system.swapchain
            &&& post.system.images == pre.system.images
            &&& post.render_pass.deferred_framebuffers == pre.render_pass.deferred_framebuffers
            &&& post.render_pass.color_buffer == pre.render_pass.color_buffer
            &&& post.render_pass.normal_buffer == pre.render_pass.normal_buffer
            &&& post.render_pass.position_buffer == pre.render_pass.position_buffer
        },
        post.phase == FramePhase::Recreating ==> (pre.phase is Reclaiming && event is Reclaimed) || (
        action == FrameAction::Ignored),
        action is Submit ==> pre.phase is UpdatingOverlay,
        action is RecreateSwapchain ==> pre.system.recreate_swapchain,
{
}

} // verus!
