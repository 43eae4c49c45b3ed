//! The shadow pass: depth as seen from the light, at a fixed size that does
//! not follow the window.

use vstd::prelude::*;

use crate::commands::{entered, prepared, Command, CommandBuilder, DescriptorSetRef, PipelineKind};
use crate::commands::{RenderTarget, Stage};
use crate::mesh::{draw_commands, Mesh};
use crate::renderer::deferred::{depth_attachment, mesh_vertex_bindings, mesh_vertex_input, BlendState};
use crate::renderer::deferred::{PipelineDesc, PipelineView};
use crate::renderer::render_pass::{AttachmentDesc, LoadOp, RenderPassDesc, RenderPassView, StoreOp};
use crate::renderer::render_pass::{SubpassDesc, SubpassView};
use crate::resources::{AttachmentImage, ClearValue, Extent, Format, ImageKind, Viewport};
use crate::system::System;

verus! {

/// The size of the shadow map.
pub open spec fn shadow_map_extent() -> Extent {
    Extent { width: 3000, height: 2000 }
}

/// The shadow map: a depth image that is sampled after the pass.
pub open spec fn shadow_map_image() -> AttachmentImage {
    AttachmentImage { format: Format::D16Unorm, extent: shadow_map_extent(), kind: ImageKind::Sampled }
}

/// The shadow pass: one depth attachment, cleared to the far plane and kept
/// when the pass ends, written by the only subpass.
pub open spec fn shadow_pass_view() -> RenderPassView {
    RenderPassView {
        attachments: seq![depth_attachment(StoreOp::Store)],
        subpasses: seq![SubpassView { color: seq![], depth_stencil: Some(0usize), input: seq![] }],
    }
}

/// The pipeline of the shadow pass, whose subpass has `color_attachments`
/// colour attachments.
pub open spec fn shadow_pipeline_view(color_attachments: u32) -> PipelineView {
    PipelineView {
        kind: PipelineKind::ShadowMap,
        subpass: 0,
        vertex_bindings: mesh_vertex_bindings(),
        color_blend: BlendState::Alpha { attachments: color_attachments },
        depth_test: true,
    }
}

/// The shadow pass can be created, writes depth only, and keeps what it
/// writes.
pub proof fn lemma_shadow_pass_well_formed()
    ensures
        shadow_pass_view().well_formed(),
        shadow_pass_view().subpasses.len() == 1,
        shadow_pass_view().subpasses[0].color.len() == 0,
        shadow_pass_view().attachments[0].store == StoreOp::Store,
{
}

/// The framebuffer of the shadow pass: the shadow map and nothing else.
#[derive(Clone, Copy, Debug, PartialEq, Eq, Structural)]
pub struct ShadowFramebuffer {
    pub depth: AttachmentImage,
}

/// The shadow pass with everything that belongs to it.
#[derive(Debug, PartialEq, Eq)]
pub struct ShadowMapRenderPass {
    pub render_pass: RenderPassDesc,
    /// Index of the only subpass.
    pub sub_pass: usize,
    pub framebuffer: ShadowFramebuffer,
    pub shadow_map_buffer: AttachmentImage,
    pub pipeline: PipelineDesc,
}

/// Builds the shadow pass with its pipeline and its shadow map. The
/// viewport of `system` takes the size of the shadow map.
pub fn init_render_pass(system: &mut System) -> (pass: ShadowMapRenderPass)
    ensures
        pass.well_formed(),
        final(system).viewport.dimensions == shadow_map_extent(),
        *final(system) == (System { viewport: final(system).viewport, ..*old(system) }),
{
    let mut attachments: Vec<AttachmentDesc> = Vec::new();
    attachments.push(
        AttachmentDesc {
            format: Format::D16Unorm,
            load: LoadOp::Clear,
            store: StoreOp::Store,
            samples: 1,
            clear: ClearValue::Depth { depth: 1 },
        },
    );
    let mut subpasses: Vec<SubpassDesc> = Vec::new();
    subpasses.push(SubpassDesc { color: Vec::new(), depth_stencil: Some(0), input: Vec::new() });
    let render_pass = RenderPassDesc { attachments, subpasses };
    proof {
        let want = shadow_pass_view();
        assert(render_pass@.subpasses =~= want.subpasses);
    }
    let (framebuffer, shadow_map_buffer) = image_setup(&mut system.viewport);
    let pipeline = init_pipeline(&render_pass);
    ShadowMapRenderPass { render_pass, sub_pass: 0, framebuffer, shadow_map_buffer, pipeline }
}

/// Builds the pipeline that draws meshes in the first subpass of
/// `render_pass`.
pub fn init_pipeline(render_pass: &RenderPassDesc) -> (pipeline: PipelineDesc)
    requires
        render_pass.subpasses@.len() >= 1,
        render_pass.subpasses@[0].color@.len() <= u32::MAX,
    ensures
        pipeline@ == shadow_pipeline_view(render_pass.subpasses@[0].color@.len() as u32),
{
    let color_attachments = render_pass.subpasses[0].color.len() as u32;
    PipelineDesc {
        kind: PipelineKind::ShadowMap,
        subpass: 0,
        vertex_bindings: mesh_vertex_input(),
        color_blend: BlendState::Alpha { attachments: color_attachments },
        depth_test: true,
    }
}

/// Describes the shadow map and its framebuffer, and sets `viewport` to the
/// size of the shadow map.
pub fn image_setup(viewport: &mut Viewport) -> (result: (ShadowFramebuffer, AttachmentImage))
    ensures
        final(viewport).dimensions == shadow_map_extent(),
        result.1 == shadow_map_image(),
        result.0 == (ShadowFramebuffer { depth: shadow_map_image() }),
{
    let dimensions = Extent { width: 3000, height: 2000 };
    viewport.dimensions = dimensions;
    let shadow_map_buffer = AttachmentImage {
        format: Format::D16Unorm,
        extent: dimensions,
        kind: ImageKind::Sampled,
    };
    (ShadowFramebuffer { depth: shadow_map_buffer }, shadow_map_buffer)
}

/// The commands that open the shadow pass.
pub open spec fn shadow_pass_prologue(viewport: Viewport) -> Seq<Command> {
    seq![
        Command::BeginRenderPass { target: RenderTarget::ShadowMap },
        Command::SetViewport { width: viewport.dimensions.width, height: viewport.dimensions.height },
        Command::BindPipeline { pipeline: PipelineKind::ShadowMap },
    ]
}

impl ShadowMapRenderPass {
    /// The pass is the shadow pass with its pipeline, and the shadow map has
    /// its fixed size.
    pub open spec fn well_formed(&self) -> bool {
        &&& self.render_pass@ == shadow_pass_view()
        &&& self.sub_pass == 0
        &&& self.pipeline@ == shadow_pipeline_view(0)
        &&& self.shadow_map_buffer == shadow_map_image()
        &&& self.framebuffer == (ShadowFramebuffer { depth: shadow_map_image() })
    }

    /// Begins the shadow pass, sets the viewport and binds the shadow
    /// pipeline.
    pub fn prepare_shadow_map_pass(&mut self, builder: &mut CommandBuilder, viewport: &Viewport)
        requires
            old(builder).well_formed(),
            old(builder).current().stage == Stage::Ready,
        ensures
            *final(self) == *old(self),
            final(builder).well_formed(),
            final(builder).current() == prepared(Stage::ShadowMap),
            final(builder).recorded() == old(builder).recorded() + shadow_pass_prologue(*viewport),
    {
        builder.record(Command::BeginRenderPass { target: RenderTarget::ShadowMap });
        builder.record(
            Command::SetViewport { width: viewport.dimensions.width, height: viewport.dimensions.height },
        );
        builder.record(Command::BindPipeline { pipeline: PipelineKind::ShadowMap });
    }

    /// Records the whole shadow pass: every submesh of `mesh` is drawn into
    /// the shadow map as seen from the light, and the pass is ended, which
    /// leaves the shadow map ready to be sampled.
    pub fn render(&mut self, builder: &mut CommandBuilder, viewport: &Viewport, mesh: &Mesh)
        requires
            old(builder).well_formed(),
            old(builder).current().stage == Stage::Ready,
            mesh.drawable(),
        ensures
            *final(self) == *old(self),
            final(builder).well_formed(),
            final(builder).current() == entered(Stage::Ready),
            final(builder).recorded() == old(builder).recorded() + shadow_pass_prologue(*viewport)
                + draw_commands(
                mesh.buffers(),
                PipelineKind::ShadowMap,
                DescriptorSetRef::Light,
                mesh.mesh_buffers@.len(),
            ) + seq![Command::EndRenderPass],
    {
        self.prepare_shadow_map_pass(builder, viewport);
        mesh.render(builder, PipelineKind::ShadowMap, DescriptorSetRef::Light);
        builder.end_render_pass();
    }
}

} // verus!
