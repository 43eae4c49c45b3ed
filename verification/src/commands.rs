//! Command recording.
//!
//! A [`CommandBuilder`] collects the commands of one command buffer and
//! tracks where in a render pass the recording stands and what is bound.
//! Only commands that the current subpass admits can be recorded, and a draw
//! only once everything it reads is bound.

use vstd::prelude::*;

verus! {

/// The graphics pipelines of the renderer.
#[derive(Clone, Copy, Debug, PartialEq, Eq, Structural)]
pub enum PipelineKind {
    /// Writes surface attributes into the G-buffer.
    Deferred,
    /// Shades the screen from the G-buffer.
    Lighting,
    /// Writes depth as seen from the light.
    ShadowMap,
}

/// A descriptor set, named by what it holds.
#[derive(Clone, Copy, Debug, PartialEq, Eq, Structural)]
pub enum DescriptorSetRef {
    /// The per-frame camera matrices.
    Camera,
    /// The light's view of the scene.
    Light,
    /// The material of one submesh.
    Material { submesh: usize },
    /// G-buffer inputs, shadow map and light parameters.
    Lighting,
}

/// Where vertex data comes from.
#[derive(Clone, Copy, Debug, PartialEq, Eq, Structural)]
pub enum VertexSource {
    /// Positions, normals and texture coordinates of one submesh.
    Submesh { submesh: usize },
    /// The two triangles that cover the screen.
    FullscreenQuad,
}

/// The framebuffer a render pass draws into.
#[derive(Clone, Copy, Debug, PartialEq, Eq, Structural)]
pub enum RenderTarget {
    /// The framebuffer of one swapchain image.
    Swapchain { image: usize },
    /// The shadow map.
    ShadowMap,
}

/// One recorded command.
#[derive(Clone, Copy, Debug, PartialEq, Eq, Structural)]
pub enum Command {
    BeginRenderPass { target: RenderTarget },
    SetViewport { width: u32, height: u32 },
    BindPipeline { pipeline: PipelineKind },
    BindDescriptorSets { pipeline: PipelineKind, first: DescriptorSetRef, second: Option<DescriptorSetRef> },
    BindVertexBuffers { source: VertexSource },
    BindIndexBuffer { submesh: usize },
    /// Draws `index_count` indices from the start of the bound index buffer.
    DrawIndexed { index_count: u32, instance_count: u32 },
    /// Draws `vertex_count` vertices from the start of the bound vertex
    /// buffers.
    Draw { vertex_count: u32, instance_count: u32 },
    /// Moves on to the next subpass.
    NextSubpass,
    /// Moves on to the overlay subpass and draws the overlay there.
    DrawOverlay,
    EndRenderPass,
}

/// Where in a render pass a recording stands.
#[derive(Clone, Copy, Debug, PartialEq, Eq, Structural)]
pub enum Stage {
    /// Outside any render pass.
    Ready,
    /// In the geometry subpass of the deferred pass.
    Geometry,
    /// In the lighting subpass of the deferred pass.
    Lighting,
    /// In the overlay subpass of the deferred pass.
    Overlay,
    /// In the only subpass of the shadow pass.
    ShadowMap,
}

/// The descriptor sets bound for a pipeline: its per-frame set, and where
/// the pipeline draws meshes, the material of a submesh.
#[derive(Clone, Copy, Debug, PartialEq, Eq, Structural)]
pub struct BoundSets {
    pub first: DescriptorSetRef,
    pub second: Option<DescriptorSetRef>,
}

/// The state of a recording: where it stands and what is bound.
#[derive(Clone, Copy, Debug, PartialEq, Eq, Structural)]
pub struct Recording {
    pub stage: Stage,
    /// A viewport was set in this render pass.
    pub viewport: bool,
    /// The pipeline bound in this subpass.
    pub pipeline: Option<PipelineKind>,
    /// The descriptor sets bound for the bound pipeline.
    pub sets: Option<BoundSets>,
    /// The vertex buffers bound in this subpass.
    pub vertices: Option<VertexSource>,
    /// The submesh whose index buffer is bound in this subpass.
    pub indices: Option<usize>,
}

/// The state on entering `stage`: nothing is bound.
pub open spec fn entered(stage: Stage) -> Recording {
    Recording { stage, viewport: false, pipeline: None, sets: None, vertices: None, indices: None }
}

/// The state in `stage` once a viewport is set and the pipeline of the stage
/// is bound.
pub open spec fn prepared(stage: Stage) -> Recording {
    Recording { viewport: true, pipeline: stage_pipeline(stage), ..entered(stage) }
}

/// The pipeline that draws in a stage, if any pipeline of the renderer does.
pub open spec fn stage_pipeline(stage: Stage) -> Option<PipelineKind> {
    match stage {
        Stage::Geometry => Some(PipelineKind::Deferred),
        Stage::Lighting => Some(PipelineKind::Lighting),
        Stage::ShadowMap => Some(PipelineKind::ShadowMap),
        _ => None,
    }
}

/// The per-frame descriptor set that a pipeline reads as its first set.
pub open spec fn per_frame_set(pipeline: PipelineKind) -> DescriptorSetRef {
    match pipeline {
        PipelineKind::Deferred => DescriptorSetRef::Camera,
        PipelineKind::Lighting => DescriptorSetRef::Lighting,
        PipelineKind::ShadowMap => DescriptorSetRef::Light,
    }
}

/// Whether `first` and `second` are the descriptor sets that `pipeline`
/// reads: its per-frame set, and for the pipelines that draw meshes the
/// material of a submesh.
pub open spec fn sets_suit(pipeline: PipelineKind, first: DescriptorSetRef, second: Option<DescriptorSetRef>) -> bool {
    first == per_frame_set(pipeline) && match pipeline {
        PipelineKind::Lighting => second is None,
        _ => second matches Some(DescriptorSetRef::Material { .. }),
    }
}

/// Whether everything is bound that an indexed draw reads: a viewport, the
/// pipeline of the stage, and descriptor sets, vertex buffers and index
/// buffer of one and the same submesh.
pub open spec fn ready_to_draw_indexed(state: Recording) -> bool {
    &&& state.stage == Stage::Geometry || state.stage == Stage::ShadowMap
    &&& state.viewport
    &&& state.pipeline is Some
    &&& state.pipeline == stage_pipeline(state.stage)
    &&& state.indices matches Some(submesh) && state.vertices == Some(VertexSource::Submesh { submesh })
        && state.sets == Some(
        BoundSets {
            first: per_frame_set(state.pipeline.unwrap()),
            second: Some(DescriptorSetRef::Material { submesh }),
        },
    )
}

/// Whether everything is bound that the draw of the full-screen quad reads.
pub open spec fn ready_to_draw_quad(state: Recording) -> bool {
    &&& state.stage == Stage::Lighting
    &&& state.viewport
    &&& state.pipeline == Some(PipelineKind::Lighting)
    &&& state.sets == Some(BoundSets { first: DescriptorSetRef::Lighting, second: None })
    &&& state.vertices == Some(VertexSource::FullscreenQuad)
}

/// The state reached by recording `command` in `state`, or `None` where the
/// state does not admit the command.
///
/// A render pass begins outside any other, with nothing bound. Inside a
/// subpass that draws with a pipeline of the renderer, the viewport can be
/// set, and that pipeline and what it reads can be bound; binding the
/// pipeline unbinds the descriptor sets. A draw is admitted once everything
/// it reads is bound. Moving on to the next subpass keeps the viewport and
/// nothing else. The deferred pass ends after the overlay subpass, the
/// shadow pass after its only one.
pub open spec fn step(state: Recording, command: Command) -> Option<Recording> {
    match command {
        Command::BeginRenderPass { target } => if state.stage == Stage::Ready {
            Some(
                entered(
                    match target {
                        RenderTarget::Swapchain { .. } => Stage::Geometry,
                        RenderTarget::ShadowMap => Stage::ShadowMap,
                    },
                ),
            )
        } else {
            None
        },
        Command::SetViewport { .. } => if stage_pipeline(state.stage) is Some {
            Some(Recording { viewport: true, ..state })
        } else {
            None
        },
        Command::BindPipeline { pipeline } => if stage_pipeline(state.stage) == Some(pipeline) {
            Some(Recording { pipeline: Some(pipeline), sets: None, ..state })
        } else {
            None
        },
        Command::BindDescriptorSets { pipeline, first, second } => if state.pipeline == Some(pipeline)
            && sets_suit(pipeline, first, second) {
            Some(Recording { sets: Some(BoundSets { first, second }), ..state })
        } else {
            None
        },
        Command::BindVertexBuffers { source } => if match source {
            VertexSource::Submesh { .. } => state.stage == Stage::Geometry || state.stage == Stage::ShadowMap,
            VertexSource::FullscreenQuad => state.stage == Stage::Lighting,
        } {
            Some(Recording { vertices: Some(source), ..state })
        } else {
            None
        },
        Command::BindIndexBuffer { submesh } => if state.stage == Stage::Geometry || state.stage
            == Stage::ShadowMap {
            Some(Recording { indices: Some(submesh), ..state })
        } else {
            None
        },
        Command::DrawIndexed { .. } => if ready_to_draw_indexed(state) {
            Some(state)
        } else {
            None
        },
        Command::Draw { .. } => if ready_to_draw_quad(state) {
            Some(state)
        } else {
            None
        },
        Command::NextSubpass => match state.stage {
            Stage::Geometry => Some(Recording { viewport: state.viewport, ..entered(Stage::Lighting) }),
            Stage::Lighting => Some(Recording { viewport: state.viewport, ..entered(Stage::Overlay) }),
            _ => None,
        },
        Command::DrawOverlay => if state.stage == Stage::Lighting {
            Some(entered(Stage::Overlay))
        } else {
            None
        },
        Command::EndRenderPass => if state.stage == Stage::Overlay || state.stage == Stage::ShadowMap {
            Some(entered(Stage::Ready))
        } else {
            None
        },
    }
}

/// The state reached by recording `commands` in order from outside any
/// render pass, or `None` if some command is not admitted where it stands.
pub open spec fn replay(commands: Seq<Command>) -> Option<Recording>
    decreases commands.len(),
{
    if commands.len() == 0 {
        Some(entered(Stage::Ready))
    } else {
        match replay(commands.drop_last()) {
            Some(state) => step(state, commands.last()),
            None => None,
        }
    }
}

/// Recording one more command advances the replay by one step.
pub proof fn lemma_replay_push(commands: Seq<Command>, command: Command)
    ensures
        replay(commands.push(command)) == match replay(commands) {
            Some(state) => step(state, command),
            None => None,
        },
{
    assert(commands.push(command).drop_last() =~= commands);
}

/// Every prefix of an admitted recording is admitted, and each command is
/// admitted by the state that the commands before it reach.
pub proof fn lemma_replay_prefix(commands: Seq<Command>, k: int)
    requires
        replay(commands) is Some,
        0 <= k <= commands.len(),
    ensures
        replay(commands.take(k)) is Some,
        k < commands.len() ==> replay(commands.take(k + 1)) == step(
            replay(commands.take(k)).unwrap(),
            commands[k],
        ),
    decreases commands.len() - k,
{
    if k == commands.len() {
        assert(commands.take(k) =~= commands);
    } else {
        lemma_replay_prefix(commands, k + 1);
        assert(commands.take(k + 1).drop_last() =~= commands.take(k));
    }
}

/// Once the lighting subpass has begun, no indexed draw follows before the
/// render pass ends: geometry is drawn in the geometry subpass or not at all.
pub proof fn lemma_no_geometry_after_lighting(commands: Seq<Command>, k: int)
    requires
        replay(commands) is Some,
        0 <= k < commands.len(),
        replay(commands.take(k)).unwrap().stage == Stage::Lighting || replay(
            commands.take(k),
        ).unwrap().stage == Stage::Overlay,
    ensures
        !(commands[k] is DrawIndexed),
        !(commands[k] is BindIndexBuffer),
        !(commands[k] is BeginRenderPass),
{
    lemma_replay_prefix(commands, k);
    lemma_replay_prefix(commands, k + 1);
}

/// Every draw of an admitted recording finds bound what it reads: an
/// indexed draw a viewport, the pipeline of its subpass, and the descriptor
/// sets, vertex buffers and index buffer of one submesh; the draw of the
/// full-screen quad a viewport, the lighting pipeline, the lighting set and
/// the quad.
pub proof fn lemma_draws_find_their_bindings(commands: Seq<Command>, k: int)
    requires
        replay(commands) is Some,
        0 <= k < commands.len(),
    ensures
        commands[k] is DrawIndexed ==> ready_to_draw_indexed(replay(commands.take(k)).unwrap()),
        commands[k] is Draw ==> ready_to_draw_quad(replay(commands.take(k)).unwrap()),
{
    lemma_replay_prefix(commands, k);
    lemma_replay_prefix(commands, k + 1);
}

/// A command buffer in the making. Commands get in through [`record`] only,
/// so what a builder holds is always an admitted recording.
///
/// [`record`]: CommandBuilder::record
#[derive(Debug, PartialEq, Eq)]
pub struct CommandBuilder {
    commands: Vec<Command>,
    state: Recording,
}

impl CommandBuilder {
    /// The commands recorded so far, in recording order.
    pub closed spec fn recorded(&self) -> Seq<Command> {
        self.commands@
    }

    /// The state of the recording.
    pub closed spec fn current(&self) -> Recording {
        self.state
    }

    /// The recorded commands are admitted in order and lead to the current
    /// state.
    pub open spec fn well_formed(&self) -> bool {
        replay(self.recorded()) == Some(self.current())
    }

    /// A builder with nothing recorded.
    pub fn new() -> (builder: CommandBuilder)
        ensures
            builder.well_formed(),
            builder.recorded() == Seq::<Command>::empty(),
            builder.current() == entered(Stage::Ready),
    {
        CommandBuilder {
            commands: Vec::new(),
            state: Recording {
                stage: Stage::Ready,
                viewport: false,
                pipeline: None,
                sets: None,
                vertices: None,
                indices: None,
            },
        }
    }

    /// The commands recorded so far, in recording order.
    pub fn commands(&self) -> (commands: &Vec<Command>)
        ensures
            commands@ == self.recorded(),
    {
        &self.commands
    }

    /// The state of the recording.
    pub fn state(&self) -> (state: Recording)
        ensures
            state == self.current(),
    {
        self.state
    }

    /// Where in a render pass the recording stands.
    pub fn stage(&self) -> (stage: Stage)
        ensures
            stage == self.current().stage,
    {
        self.state.stage
    }

    /// Records `command` if the current state admits it. Returns whether it
    /// was recorded; a refused command leaves the builder unchanged.
    pub fn record(&mut self, command: Command) -> (recorded: bool)
        requires
            old(self).well_formed(),
        ensures
            final(self).well_formed(),
            recorded == step(old(self).current(), command).is_some(),
            recorded ==> final(self).recorded() == old(self).recorded().push(command) && Some(
                final(self).current(),
            ) == step(old(self).current(), command),
            !recorded ==> *final(self) == *old(self),
    {
        match next_state(self.state, command) {
            Some(state) => {
                proof {
                    lemma_replay_push(self.commands@, command);
                }
                self.commands.push(command);
                self.state = state;
                true
            },
            None => false,
        }
    }

    /// Ends the current render pass. The deferred pass can only end after
    /// its overlay subpass, the shadow pass at any time.
    pub fn end_render_pass(&mut self)
        requires
            old(self).well_formed(),
            old(self).current().stage == Stage::Overlay || old(self).current().stage == Stage::ShadowMap,
        ensures
            final(self).well_formed(),
            final(self).recorded() == old(self).recorded().push(Command::EndRenderPass),
            final(self).current() == entered(Stage::Ready),
    {
        let recorded = self.record(Command::EndRenderPass);
    }

    /// Finishes the recording and hands out the commands in the order in
    /// which they were recorded.
    pub fn build(self) -> (commands: Vec<Command>)
        requires
            self.well_formed(),
            self.current().stage == Stage::Ready,
        ensures
            commands@ == self.recorded(),
            replay(commands@) == Some(self.current()),
    {
        self.commands
    }
}

/// The state on entering `stage`.
fn enter(stage: Stage) -> (state: Recording)
    ensures
        state == entered(stage),
{
    Recording { stage, viewport: false, pipeline: None, sets: None, vertices: None, indices: None }
}

/// Whether a stage draws meshes.
fn draws_meshes(stage: Stage) -> (draws: bool)
    ensures
        draws == (stage == Stage::Geometry || stage == Stage::ShadowMap),
{
    match stage {
        Stage::Geometry | Stage::ShadowMap => true,
        _ => false,
    }
}

/// The pipeline that draws in a stage, if any pipeline of the renderer does.
fn pipeline_of(stage: Stage) -> (pipeline: Option<PipelineKind>)
    ensures
        pipeline == stage_pipeline(stage),
{
    match stage {
        Stage::Geometry => Some(PipelineKind::Deferred),
        Stage::Lighting => Some(PipelineKind::Lighting),
        Stage::ShadowMap => Some(PipelineKind::ShadowMap),
        _ => None,
    }
}

/// Whether `first` and `second` are the descriptor sets that `pipeline`
/// reads.
fn sets_fit(pipeline: PipelineKind, first: DescriptorSetRef, second: Option<DescriptorSetRef>) -> (fit: bool)
    ensures
        fit == sets_suit(pipeline, first, second),
{
    match pipeline {
        PipelineKind::Deferred => first == DescriptorSetRef::Camera && matches!(
            second,
            Some(DescriptorSetRef::Material { .. })
        ),
        PipelineKind::ShadowMap => first == DescriptorSetRef::Light && matches!(
            second,
            Some(DescriptorSetRef::Material { .. })
        ),
        PipelineKind::Lighting => first == DescriptorSetRef::Lighting && second.is_none(),
    }
}

/// Whether everything is bound that an indexed draw reads.
fn can_draw_indexed(state: Recording) -> (can: bool)
    ensures
        can == ready_to_draw_indexed(state),
{
    if !draws_meshes(state.stage) || !state.viewport {
        return false;
    }
    let pipeline = match state.pipeline {
        Some(pipeline) => pipeline,
        None => {
            return false;
        },
    };
    if Some(pipeline) != pipeline_of(state.stage) {
        return false;
    }
    let general = match pipeline {
        PipelineKind::Deferred => DescriptorSetRef::Camera,
        PipelineKind::Lighting => DescriptorSetRef::Lighting,
        PipelineKind::ShadowMap => DescriptorSetRef::Light,
    };
    match state.indices {
        Some(submesh) => state.vertices == Some(VertexSource::Submesh { submesh }) && state.sets == Some(
            BoundSets { first: general, second: Some(DescriptorSetRef::Material { submesh }) },
        ),
        None => false,
    }
}

/// Whether everything is bound that the draw of the full-screen quad reads.
fn can_draw_quad(state: Recording) -> (can: bool)
    ensures
        can == ready_to_draw_quad(state),
{
    state.stage == Stage::Lighting && state.viewport && state.pipeline == Some(PipelineKind::Lighting)
        && state.sets == Some(BoundSets { first: DescriptorSetRef::Lighting, second: None })
        && state.vertices == Some(
        VertexSource::FullscreenQuad,
    )
}

/// Executable form of [`step`].
pub fn next_state(state: Recording, command: Command) -> (next: Option<Recording>)
    ensures
        next == step(state, command),
{
    match command {
        Command::BeginRenderPass { target } => if state.stage == Stage::Ready {
            Some(
                enter(
                    match target {
                        RenderTarget::Swapchain { .. } => Stage::Geometry,
                        RenderTarget::ShadowMap => Stage::ShadowMap,
                    },
                ),
            )
        } else {
            None
        },
        Command::SetViewport { .. } => if pipeline_of(state.stage).is_some() {
            Some(Recording { viewport: true, ..state })
        } else {
            None
        },
        Command::BindPipeline { pipeline } => if pipeline_of(state.stage) == Some(pipeline) {
            Some(Recording { pipeline: Some(pipeline), sets: None, ..state })
        } else {
            None
        },
        Command::BindDescriptorSets { pipeline, first, second } => if state.pipeline == Some(pipeline)
            && sets_fit(pipeline, first, second) {
            Some(Recording { sets: Some(BoundSets { first, second }), ..state })
        } else {
            None
        },
        Command::BindVertexBuffers { source } => {
            let admitted = match source {
                VertexSource::Submesh { .. } => draws_meshes(state.stage),
                VertexSource::FullscreenQuad => state.stage == Stage::Lighting,
            };
            if admitted {
                Some(Recording { vertices: Some(source), ..state })
            } else {
                None
            }
        },
        Command::BindIndexBuffer { submesh } => if draws_meshes(state.stage) {
            Some(Recording { indices: Some(submesh), ..state })
        } else {
            None
        },
        Command::DrawIndexed { .. } => if can_draw_indexed(state) {
            Some(state)
        } else {
            None
        },
        Command::Draw { .. } => if can_draw_quad(state) {
            Some(state)
        } else {
            None
        },
        Command::NextSubpass => match state.stage {
            Stage::Geometry => Some(Recording { viewport: state.viewport, ..enter(Stage::Lighting) }),
            Stage::Lighting => Some(Recording { viewport: state.viewport, ..enter(Stage::Overlay) }),
            _ => None,
        },
        Command::DrawOverlay => if state.stage == Stage::Lighting {
            Some(enter(Stage::Overlay))
        } else {
            None
        },
        Command::EndRenderPass => if state.stage == Stage::Overlay || state.stage == Stage::ShadowMap {
            Some(enter(Stage::Ready))
        } else {
            None
        },
    }
}

} // verus!
