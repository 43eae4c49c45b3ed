//! The deferred pass: geometry into the G-buffer, lighting out of it, the
//! overlay on top.

use vstd::prelude::*;

use crate::commands::{prepared, BoundSets, Command, CommandBuilder, DescriptorSetRef, PipelineKind};
use crate::commands::Recording;
use crate::commands::{RenderTarget, Stage, VertexSource};
use crate::renderer::render_pass::{AttachmentDesc, LoadOp, RenderPassDesc, RenderPassView, StoreOp};
use crate::renderer::render_pass::{SubpassDesc, SubpassView};
use crate::renderer::shadow_map::ShadowMapRenderPass;
use crate::renderer::triangle_draw_system::TriangleDrawSystem;
use crate::resources::{AttachmentImage, ClearValue, Extent, Format, ImageKind, Sampler};
use crate::resources::{SwapchainImage, Viewport};
use crate::system::{Swapchain, System};
use crate::texture::{default_sampler, get_default_sampler};

verus! {

/// Which buffer the lighting stage shows.
#[derive(Clone, Copy, Debug, PartialEq, Eq, Structural)]
pub enum DebugPreviewBuffer {
    /// The lit image.
    FinalOutput,
    Albedo,
    Normal,
    Position,
}

impl DebugPreviewBuffer {
    /// The label under which the selector is offered.
    pub open spec fn label(self) -> Seq<char> {
        match self {
            DebugPreviewBuffer::FinalOutput => "Final Output"@,
            DebugPreviewBuffer::Albedo => "Albedo"@,
            DebugPreviewBuffer::Normal => "Normal"@,
            DebugPreviewBuffer::Position => "Position"@,
        }
    }

    pub fn get_text(&self) -> (text: &'static str)
        ensures
            text@ == self.label(),
    {
        match self {
            DebugPreviewBuffer::FinalOutput => "Final Output",
            DebugPreviewBuffer::Albedo => "Albedo",
            DebugPreviewBuffer::Normal => "Normal",
            DebugPreviewBuffer::Position => "Position",
        }
    }

    /// The number by which the lighting stage knows the selection.
    pub open spec fn code(self) -> i32 {
        match self {
            DebugPreviewBuffer::FinalOutput => 0,
            DebugPreviewBuffer::Albedo => 1,
            DebugPreviewBuffer::Normal => 2,
            DebugPreviewBuffer::Position => 3,
        }
    }

    pub fn preview_type(&self) -> (code: i32)
        ensures
            code == self.code(),
    {
        match self {
            DebugPreviewBuffer::FinalOutput => 0,
            DebugPreviewBuffer::Albedo => 1,
            DebugPreviewBuffer::Normal => 2,
            DebugPreviewBuffer::Position => 3,
        }
    }
}

/// The lighting stage can tell the selections apart: different selections
/// have different numbers, and only the lit image has the number zero.
pub proof fn lemma_preview_codes_distinct(a: DebugPreviewBuffer, b: DebugPreviewBuffer)
    ensures
        a.code() == b.code() <==> a == b,
        a.code() == 0 <==> a == DebugPreviewBuffer::FinalOutput,
        0 <= a.code() <= 3,
{
}

/// What the overlay can change about the renderer. Light colours are kept
/// by the overlay itself.
#[derive(Clone, Copy, Debug, PartialEq, Eq, Structural)]
pub struct RendererParams {
    pub preview_buffer: DebugPreviewBuffer,
}

/// The parameters the renderer starts with: the lit image is shown.
pub fn get_default_params() -> (params: RendererParams)
    ensures
        params.preview_buffer == DebugPreviewBuffer::FinalOutput,
{
    RendererParams { preview_buffer: DebugPreviewBuffer::FinalOutput }
}

/// The integer part of the lighting stage's uniform data.
#[derive(Clone, Copy, Debug, PartialEq, Eq, Structural)]
pub struct LightingData {
    pub preview_type: i32,
}

/// The lighting uniform data for `params`.
pub fn get_lighting_uniform_buffer(params: &RendererParams) -> (data: LightingData)
    ensures
        data.preview_type == params.preview_buffer.code(),
{
    LightingData { preview_type: params.preview_buffer.preview_type() }
}

/// The attachments of the G-buffer that the lighting subpass reads.
#[derive(Clone, Copy, Debug, PartialEq, Eq, Structural)]
pub enum GBufferSlot {
    Albedo,
    Normal,
    Position,
}

/// One vertex buffer binding of a pipeline: tightly packed attributes of one
/// format.
#[derive(Clone, Copy, Debug, PartialEq, Eq, Structural)]
pub struct VertexBinding {
    pub format: Format,
    pub stride: u32,
}

/// How a pipeline blends into its colour attachments.
#[derive(Clone, Copy, Debug, PartialEq, Eq, Structural)]
pub enum BlendState {
    /// Whatever the pipeline does when nothing is asked for.
    Default,
    /// Alpha blending into each of `attachments` colour attachments.
    Alpha { attachments: u32 },
}

/// A graphics pipeline. Every pipeline draws triangle lists into a viewport
/// that is set while recording.
#[derive(Debug, PartialEq, Eq)]
pub struct PipelineDesc {
    pub kind: PipelineKind,
    /// The subpass the pipeline draws in.
    pub subpass: usize,
    pub vertex_bindings: Vec<VertexBinding>,
    pub color_blend: BlendState,
    pub depth_test: bool,
}

/// Mathematical form of [`PipelineDesc`].
pub struct PipelineView {
    pub kind: PipelineKind,
    pub subpass: usize,
    pub vertex_bindings: Seq<VertexBinding>,
    pub color_blend: BlendState,
    pub depth_test: bool,
}

impl View for PipelineDesc {
    type V = PipelineView;

    open spec fn view(&self) -> PipelineView {
        PipelineView {
            kind: self.kind,
            subpass: self.subpass,
            vertex_bindings: self.vertex_bindings@,
            color_blend: self.color_blend,
            depth_test: self.depth_test,
        }
    }
}

/// The vertex buffers of a mesh: positions, normals, texture coordinates.
pub open spec fn mesh_vertex_bindings() -> Seq<VertexBinding> {
    seq![
        VertexBinding { format: Format::R32G32B32Sfloat, stride: 12 },
        VertexBinding { format: Format::R32G32B32Sfloat, stride: 12 },
        VertexBinding { format: Format::R32G32Sfloat, stride: 8 },
    ]
}

/// The vertex buffer of the full-screen quad.
pub open spec fn quad_vertex_bindings() -> Seq<VertexBinding> {
    seq![VertexBinding { format: Format::R32G32Sfloat, stride: 8 }]
}

/// The pipeline of the geometry subpass, which has `color_attachments`
/// colour attachments.
pub open spec fn deferred_pipeline_view(color_attachments: u32) -> PipelineView {
    PipelineView {
        kind: PipelineKind::Deferred,
        subpass: 0,
        vertex_bindings: mesh_vertex_bindings(),
        color_blend: BlendState::Alpha { attachments: color_attachments },
        depth_test: true,
    }
}

/// The pipeline of the lighting subpass.
pub open spec fn lighting_pipeline_view() -> PipelineView {
    PipelineView {
        kind: PipelineKind::Lighting,
        subpass: 1,
        vertex_bindings: quad_vertex_bindings(),
        color_blend: BlendState::Default,
        depth_test: false,
    }
}

/// Vertex buffers are tightly packed: the stride of each binding is the size
/// of its format.
pub proof fn lemma_vertex_bindings_packed()
    ensures
        forall|b: int|
            0 <= b < mesh_vertex_bindings().len() ==> (#[trigger] mesh_vertex_bindings()[b]).stride
                == mesh_vertex_bindings()[b].format.texel_size(),
        forall|b: int|
            0 <= b < quad_vertex_bindings().len() ==> (#[trigger] quad_vertex_bindings()[b]).stride
                == quad_vertex_bindings()[b].format.texel_size(),
{
}

/// A vertex buffer of tightly packed attributes of one format.
pub fn packed_binding(format: Format) -> (binding: VertexBinding)
    ensures
        binding.format == format,
        binding.stride == format.texel_size(),
{
    VertexBinding { format, stride: format.size_in_bytes() }
}

/// The vertex input of a pipeline that draws meshes.
pub fn mesh_vertex_input() -> (bindings: Vec<VertexBinding>)
    ensures
        bindings@ == mesh_vertex_bindings(),
{
    let mut bindings: Vec<VertexBinding> = Vec::new();
    bindings.push(packed_binding(Format::R32G32B32Sfloat));
    bindings.push(packed_binding(Format::R32G32B32Sfloat));
    bindings.push(packed_binding(Format::R32G32Sfloat));
    bindings
}

/// A colour attachment that is cleared to opaque black when the pass begins.
pub open spec fn color_attachment(format: Format, store: StoreOp) -> AttachmentDesc {
    AttachmentDesc {
        format,
        load: LoadOp::Clear,
        store,
        samples: 1,
        clear: ClearValue::Color { red: 0, green: 0, blue: 0, alpha: 1 },
    }
}

/// A depth attachment that is cleared to the far plane when the pass begins.
pub open spec fn depth_attachment(store: StoreOp) -> AttachmentDesc {
    AttachmentDesc {
        format: Format::D16Unorm,
        load: LoadOp::Clear,
        store,
        samples: 1,
        clear: ClearValue::Depth { depth: 1 },
    }
}

/// The deferred pass for a swapchain of format `final_format`.
///
/// Attachments: 0 the swapchain image, 1 albedo, 2 normals, 3 positions,
/// 4 depth. Only the swapchain image is kept when the pass ends.
/// Subpasses: geometry writes 1 to 3 and depth; lighting reads 1 to 3 and
/// writes 0; the overlay writes 0.
pub open spec fn deferred_pass_view(final_format: Format) -> RenderPassView {
    RenderPassView {
        attachments: seq![
            color_attachment(final_format, StoreOp::Store),
            color_attachment(Format::A2B10G10R10UnormPack32, StoreOp::DontCare),
            color_attachment(Format::R16G16B16A16Sfloat, StoreOp::DontCare),
            color_attachment(Format::R16G16B16A16Sfloat, StoreOp::DontCare),
            depth_attachment(StoreOp::DontCare),
        ],
        subpasses: seq![
            SubpassView { color: seq![1usize, 2usize, 3usize], depth_stencil: Some(4usize), input: seq![] },
            SubpassView { color: seq![0usize], depth_stencil: None, input: seq![1usize, 2usize, 3usize] },
            SubpassView { color: seq![0usize], depth_stencil: None, input: seq![] },
        ],
    }
}

/// The deferred pass can be created for every colour format, and its
/// lighting subpass reads exactly what its geometry subpass writes as
/// colour.
pub proof fn lemma_deferred_pass_well_formed(final_format: Format)
    requires
        !final_format.is_depth(),
    ensures
        deferred_pass_view(final_format).well_formed(),
        deferred_pass_view(final_format).subpasses[1].input == deferred_pass_view(
            final_format,
        ).subpasses[0].color,
{
    let pass = deferred_pass_view(final_format);
    assert forall|s: int| 0 <= s < pass.subpasses.len() implies #[trigger] pass.subpass_consistent(s) by {
        let subpass = pass.subpasses[s];
        assert forall|i: int| 0 <= i < subpass.input.len() implies !subpass.writes(
            #[trigger] subpass.input[i],
        ) by {}
    }
    assert forall|s: int| 0 <= s < pass.subpasses.len() implies #[trigger] pass.inputs_written_before(s) by {
        assert forall|i: int| 0 <= i < pass.subpasses[s].input.len() implies exists|earlier: int|
            0 <= earlier < s && (#[trigger] pass.subpasses[earlier]).writes(
                #[trigger] pass.subpasses[s].input[i],
            ) by {}
    }
}

/// One framebuffer of the deferred pass. Its attachments, in the order of
/// the pass: the swapchain image, albedo, normals, positions, depth.
#[derive(Clone, Copy, Debug, PartialEq, Eq, Structural)]
pub struct Framebuffer {
    /// The swapchain image that receives the final colour.
    pub image: usize,
    pub albedo: AttachmentImage,
    pub normal: AttachmentImage,
    pub position: AttachmentImage,
    pub depth: AttachmentImage,
}

/// An attachment of the G-buffer of size `extent`.
pub open spec fn gbuffer_image(slot: GBufferSlot, extent: Extent) -> AttachmentImage {
    AttachmentImage {
        format: match slot {
            GBufferSlot::Albedo => Format::A2B10G10R10UnormPack32,
            GBufferSlot::Normal => Format::R16G16B16A16Sfloat,
            GBufferSlot::Position => Format::R16G16B16A16Sfloat,
        },
        extent,
        kind: ImageKind::TransientInput,
    }
}

/// The depth buffer of the geometry subpass, of size `extent`.
pub open spec fn depth_image(extent: Extent) -> AttachmentImage {
    AttachmentImage { format: Format::D16Unorm, extent, kind: ImageKind::Transient }
}

/// The framebuffer of swapchain image `image` over a G-buffer of size
/// `extent`.
pub open spec fn framebuffer_for(image: int, extent: Extent) -> Framebuffer {
    Framebuffer {
        image: image as usize,
        albedo: gbuffer_image(GBufferSlot::Albedo, extent),
        normal: gbuffer_image(GBufferSlot::Normal, extent),
        position: gbuffer_image(GBufferSlot::Position, extent),
        depth: depth_image(extent),
    }
}

/// The framebuffers of `count` swapchain images over a G-buffer of size
/// `extent`.
pub open spec fn framebuffers_for(count: nat, extent: Extent) -> Seq<Framebuffer> {
    Seq::new(count, |i: int| framebuffer_for(i, extent))
}

/// Sizes everything that depends on the window: the viewport and a new
/// G-buffer take the size of the first swapchain image, and every swapchain
/// image gets a framebuffer over that G-buffer. Returns the framebuffers and
/// the albedo, normal and position attachments.
pub fn window_size_dependent_setup(images: &Vec<SwapchainImage>, viewport: &mut Viewport) -> (result: (
    Vec<Framebuffer>,
    AttachmentImage,
    AttachmentImage,
    AttachmentImage,
))
    requires
        images@.len() > 0,
        !images@[0].extent.is_empty(),
    ensures
        final(viewport).dimensions == images@[0].extent,
        result.0@ == framebuffers_for(images@.len(), images@[0].extent),
        result.0@.len() == images@.len(),
        result.1 == gbuffer_image(GBufferSlot::Albedo, images@[0].extent),
        result.2 == gbuffer_image(GBufferSlot::Normal, images@[0].extent),
        result.3 == gbuffer_image(GBufferSlot::Position, images@[0].extent),
{
    let extent = images[0].extent;
    viewport.dimensions = extent;
    let depth_buffer = AttachmentImage { format: Format::D16Unorm, extent, kind: ImageKind::Transient };
    let color_buffer = AttachmentImage {
        format: Format::A2B10G10R10UnormPack32,
        extent,
        kind: ImageKind::TransientInput,
    };
    let normal_buffer = AttachmentImage {
        format: Format::R16G16B16A16Sfloat,
        extent,
        kind: ImageKind::TransientInput,
    };
    let position_buffer = AttachmentImage {
        format: Format::R16G16B16A16Sfloat,
        extent,
        kind: ImageKind::TransientInput,
    };
    let mut framebuffers: Vec<Framebuffer> = Vec::new();
    let mut i: usize = 0;
    while i < images.len()
        invariant
            i <= images@.len(),
            framebuffers@ == framebuffers_for(i as nat, extent),
            depth_buffer == depth_image(extent),
            color_buffer == gbuffer_image(GBufferSlot::Albedo, extent),
            normal_buffer == gbuffer_image(GBufferSlot::Normal, extent),
            position_buffer == gbuffer_image(GBufferSlot::Position, extent),
        decreases images@.len() - i,
    {
        framebuffers.push(
            Framebuffer {
                image: i,
                albedo: color_buffer,
                normal: normal_buffer,
                position: position_buffer,
                depth: depth_buffer,
            },
        );
        i += 1;
    }
    (framebuffers, color_buffer, normal_buffer, position_buffer)
}

/// Builds the geometry and the lighting pipeline for a pass whose first two
/// subpasses they draw in.
pub fn init_pipelines(render_pass: &RenderPassDesc) -> (pipelines: (PipelineDesc, PipelineDesc))
    requires
        render_pass.subpasses@.len() >= 2,
        render_pass.subpasses@[0].color@.len() <= u32::MAX,
    ensures
        pipelines.0@ == deferred_pipeline_view(render_pass.subpasses@[0].color@.len() as u32),
        pipelines.1@ == lighting_pipeline_view(),
{
    let color_attachments = render_pass.subpasses[0].color.len() as u32;
    let deferred_pipeline = PipelineDesc {
        kind: PipelineKind::Deferred,
        subpass: 0,
        vertex_bindings: mesh_vertex_input(),
        color_blend: BlendState::Alpha { attachments: color_attachments },
        depth_test: true,
    };
    let mut quad_bindings: Vec<VertexBinding> = Vec::new();
    quad_bindings.push(packed_binding(Format::R32G32Sfloat));
    let lighting_pipeline = PipelineDesc {
        kind: PipelineKind::Lighting,
        subpass: 1,
        vertex_bindings: quad_bindings,
        color_blend: BlendState::Default,
        depth_test: false,
    };
    (deferred_pipeline, lighting_pipeline)
}

/// What a descriptor binding refers to.
#[derive(Clone, Copy, Debug, PartialEq, Eq, Structural)]
pub enum DescriptorResource {
    /// The camera matrices of the frame.
    CameraUniform,
    /// A G-buffer attachment, read in place by the lighting subpass.
    InputAttachment { slot: GBufferSlot, image: AttachmentImage },
    /// The shadow map with the sampler it is read through.
    ShadowMap { image: AttachmentImage, sampler: Sampler },
    /// The light parameters of the frame.
    LightingUniform { data: LightingData },
}

/// One binding of a descriptor set.
#[derive(Clone, Copy, Debug, PartialEq, Eq, Structural)]
pub struct DescriptorWrite {
    pub binding: u32,
    pub resource: DescriptorResource,
}

/// The per-frame descriptor set of the geometry pipeline: the camera.
pub open spec fn deferred_set_writes() -> Seq<DescriptorWrite> {
    seq![DescriptorWrite { binding: 0, resource: DescriptorResource::CameraUniform }]
}

/// The per-frame descriptor set of the lighting pipeline: the three G-buffer
/// attachments as they are now, the shadow map, and the light parameters.
pub open spec fn lighting_set_writes(
    albedo: AttachmentImage,
    normal: AttachmentImage,
    position: AttachmentImage,
    shadow_map: AttachmentImage,
    preview: DebugPreviewBuffer,
) -> Seq<DescriptorWrite> {
    seq![
        DescriptorWrite {
            binding: 0,
            resource: DescriptorResource::InputAttachment { slot: GBufferSlot::Albedo, image: albedo },
        },
        DescriptorWrite {
            binding: 1,
            resource: DescriptorResource::InputAttachment { slot: GBufferSlot::Normal, image: normal },
        },
        DescriptorWrite {
            binding: 2,
            resource: DescriptorResource::InputAttachment { slot: GBufferSlot::Position, image: position },
        },
        DescriptorWrite {
            binding: 3,
            resource: DescriptorResource::ShadowMap { image: shadow_map, sampler: default_sampler() },
        },
        DescriptorWrite {
            binding: 10,
            resource: DescriptorResource::LightingUniform {
                data: LightingData { preview_type: preview.code() },
            },
        },
    ]
}

/// The deferred pass with everything that belongs to it.
#[derive(Debug, PartialEq, Eq)]
pub struct DeferredRenderPass {
    pub render_pass: RenderPassDesc,
    /// Index of the geometry subpass.
    pub deferred_pass: usize,
    /// Index of the lighting subpass.
    pub lighting_pass: usize,
    pub params: RendererParams,
    /// One framebuffer per swapchain image.
    pub deferred_framebuffers: Vec<Framebuffer>,
    pub deferred_pipeline: PipelineDesc,
    pub lighting_pipeline: PipelineDesc,
    /// The albedo attachment.
    pub color_buffer: AttachmentImage,
    pub normal_buffer: AttachmentImage,
    pub position_buffer: AttachmentImage,
}

/// What an attempt to recreate the swapchain came to.
#[derive(Debug, PartialEq, Eq)]
pub enum RecreateOutcome {
    /// There is a new swapchain with these images.
    Recreated { swapchain: Swapchain, images: Vec<SwapchainImage> },
    /// The surface cannot have a swapchain of the window's size right now,
    /// as happens while the window is minimised.
    ExtentNotSupported,
    /// Any other failure.
    Failed,
}

/// How a frame goes on after the swapchain was looked after.
#[derive(Clone, Copy, Debug, PartialEq, Eq, Structural)]
pub enum Recreation {
    /// Swapchain, G-buffer and framebuffers are up to date.
    Rebuilt,
    /// Nothing could be rebuilt: skip this frame and try again.
    Skipped,
}

/// The swapchain could not be recreated, and not because of its size.
#[derive(Clone, Copy, Debug, PartialEq, Eq, Structural)]
pub struct RecreateError;

/// What to do about the swapchain before a frame.
#[derive(Clone, Copy, Debug, PartialEq, Eq, Structural)]
pub enum SwapchainRequest {
    /// The swapchain is up to date.
    Keep,
    /// The window has no area: skip the frame, keep everything.
    SkipFrame,
    /// Recreate the swapchain with this extent.
    Recreate { extent: Extent },
}

/// What to do about the swapchain before a frame, given whether recreation
/// is flagged and the size of the window.
pub open spec fn swapchain_request_for(recreate: bool, window_extent: Extent) -> SwapchainRequest {
    if !recreate {
        SwapchainRequest::Keep
    } else if window_extent.is_empty() {
        SwapchainRequest::SkipFrame
    } else {
        SwapchainRequest::Recreate { extent: window_extent }
    }
}

/// Builds the deferred pass for the swapchain of `system`: the pass itself,
/// both pipelines, and a G-buffer with framebuffers for the current images.
/// The viewport of `system` takes the size of the images.
pub fn init_render_pass(system: &mut System) -> (pass: DeferredRenderPass)
    requires
        old(system).images@.len() > 0,
        !old(system).images@[0].extent.is_empty(),
        !old(system).swapchain.image_format.is_depth(),
    ensures
        pass.render_pass@ == deferred_pass_view(old(system).swapchain.image_format),
        pass.well_formed(),
        pass.extent() == old(system).images@[0].extent,
        pass.deferred_framebuffers@.len() == old(system).images@.len(),
        pass.params == (RendererParams { preview_buffer: DebugPreviewBuffer::FinalOutput }),
        final(system).viewport.dimensions == old(system).images@[0].extent,
        *final(system) == (System { viewport: final(system).viewport, ..*old(system) }),
{
    let render_pass = deferred_render_pass(system.swapchain.image_format);
    let (deferred_framebuffers, color_buffer, normal_buffer, position_buffer) = window_size_dependent_setup(
        &system.images,
        &mut system.viewport,
    );
    proof {
        assert(render_pass@.subpasses.len() == 3);
    }
    let (deferred_pipeline, lighting_pipeline) = init_pipelines(&render_pass);
    DeferredRenderPass {
        render_pass,
        deferred_pass: 0,
        lighting_pass: 1,
        params: get_default_params(),
        deferred_framebuffers,
        deferred_pipeline,
        lighting_pipeline,
        color_buffer,
        normal_buffer,
        position_buffer,
    }
}

/// The description of the deferred pass for a swapchain of format
/// `final_format`.
pub fn deferred_render_pass(final_format: Format) -> (pass: RenderPassDesc)
    ensures
        pass@ == deferred_pass_view(final_format),
{
    let opaque_black = ClearValue::Color { red: 0, green: 0, blue: 0, alpha: 1 };
    let mut attachments: Vec<AttachmentDesc> = Vec::new();
    attachments.push(
        AttachmentDesc {
            format: final_format,
            load: LoadOp::Clear,
            store: StoreOp::Store,
            samples: 1,
            clear: opaque_black,
        },
    );
    attachments.push(
        AttachmentDesc {
            format: Format::A2B10G10R10UnormPack32,
            load: LoadOp::Clear,
            store: StoreOp::DontCare,
            samples: 1,
            clear: opaque_black,
        },
    );
    attachments.push(
        AttachmentDesc {
            format: Format::R16G16B16A16Sfloat,
            load: LoadOp::Clear,
            store: StoreOp::DontCare,
            samples: 1,
            clear: opaque_black,
        },
    );
    attachments.push(
        AttachmentDesc {
            format: Format::R16G16B16A16Sfloat,
            load: LoadOp::Clear,
            store: StoreOp::DontCare,
            samples: 1,
            clear: opaque_black,
        },
    );
    attachments.push(
        AttachmentDesc {
            format: Format::D16Unorm,
            load: LoadOp::Clear,
            store: StoreOp::DontCare,
            samples: 1,
            clear: ClearValue::Depth { depth: 1 },
        },
    );
    let mut gbuffer: Vec<usize> = Vec::new();
    gbuffer.push(1);
    gbuffer.push(2);
    gbuffer.push(3);
    let mut gbuffer_inputs: Vec<usize> = Vec::new();
    gbuffer_inputs.push(1);
    gbuffer_inputs.push(2);
    gbuffer_inputs.push(3);
    let mut lit: Vec<usize> = Vec::new();
    lit.push(0);
    let mut overlaid: Vec<usize> = Vec::new();
    overlaid.push(0);
    let mut subpasses: Vec<SubpassDesc> = Vec::new();
    subpasses.push(SubpassDesc { color: gbuffer, depth_stencil: Some(4), input: Vec::new() });
    subpasses.push(SubpassDesc { color: lit, depth_stencil: None, input: gbuffer_inputs });
    subpasses.push(SubpassDesc { color: overlaid, depth_stencil: None, input: Vec::new() });
    let pass = RenderPassDesc { attachments, subpasses };
    proof {
        let want = deferred_pass_view(final_format);
        assert(pass@.attachments =~= want.attachments);
        assert(pass@.subpasses[1].input =~= want.subpasses[1].input);
        assert(pass@.subpasses =~= want.subpasses);
    }
    pass
}

/// Builds the two descriptor sets that change with every frame: the camera
/// for the geometry pipeline, and for the lighting pipeline the G-buffer as
/// it is now, the shadow map and the light parameters.
pub fn get_layouts(deferred_render_pass: &DeferredRenderPass, shadow_map_render_pass: &ShadowMapRenderPass) -> (sets:
    (Vec<DescriptorWrite>, Vec<DescriptorWrite>))
    ensures
        sets.0@ == deferred_set_writes(),
        sets.1@ == lighting_set_writes(
            deferred_render_pass.color_buffer,
            deferred_render_pass.normal_buffer,
            deferred_render_pass.position_buffer,
            shadow_map_render_pass.shadow_map_buffer,
            deferred_render_pass.params.preview_buffer,
        ),
{
    let mut deferred_set: Vec<DescriptorWrite> = Vec::new();
    deferred_set.push(DescriptorWrite { binding: 0, resource: DescriptorResource::CameraUniform });
    let mut lighting_set: Vec<DescriptorWrite> = Vec::new();
    lighting_set.push(
        DescriptorWrite {
            binding: 0,
            resource: DescriptorResource::InputAttachment {
                slot: GBufferSlot::Albedo,
                image: deferred_render_pass.color_buffer,
            },
        },
    );
    lighting_set.push(
        DescriptorWrite {
            binding: 1,
            resource: DescriptorResource::InputAttachment {
                slot: GBufferSlot::Normal,
                image: deferred_render_pass.normal_buffer,
            },
        },
    );
    lighting_set.push(
        DescriptorWrite {
            binding: 2,
            resource: DescriptorResource::InputAttachment {
                slot: GBufferSlot::Position,
                image: deferred_render_pass.position_buffer,
            },
        },
    );
    lighting_set.push(
        DescriptorWrite {
            binding: 3,
            resource: DescriptorResource::ShadowMap {
                image: shadow_map_render_pass.shadow_map_buffer,
                sampler: get_default_sampler(),
            },
        },
    );
    lighting_set.push(
        DescriptorWrite {
            binding: 10,
            resource: DescriptorResource::LightingUniform {
                data: get_lighting_uniform_buffer(&deferred_render_pass.params),
            },
        },
    );
    (deferred_set, lighting_set)
}

impl DeferredRenderPass {
    /// The size of the G-buffer.
    pub open spec fn extent(&self) -> Extent {
        self.color_buffer.extent
    }

    /// The pass is the deferred pass for some colour format, with its two
    /// pipelines, and G-buffer and framebuffers belong together: the three
    /// attachments have one size and their proper formats, and every
    /// framebuffer is the framebuffer of its swapchain image over them.
    pub open spec fn well_formed(&self) -> bool {
        &&& self.render_pass@.attachments.len() == 5
        &&& !self.render_pass@.attachments[0].format.is_depth()
        &&& self.render_pass@ == deferred_pass_view(self.render_pass@.attachments[0].format)
        &&& self.deferred_pass == 0
        &&& self.lighting_pass == 1
        &&& self.deferred_pipeline@ == deferred_pipeline_view(3)
        &&& self.lighting_pipeline@ == lighting_pipeline_view()
        &&& !self.extent().is_empty()
        &&& self.color_buffer == gbuffer_image(GBufferSlot::Albedo, self.extent())
        &&& self.normal_buffer == gbuffer_image(GBufferSlot::Normal, self.extent())
        &&& self.position_buffer == gbuffer_image(GBufferSlot::Position, self.extent())
        &&& self.deferred_framebuffers@ == framebuffers_for(self.deferred_framebuffers@.len(), self.extent())
    }

    /// The pass is sized for the swapchain of `system`: as many framebuffers
    /// as swapchain images, and a G-buffer of the size of the images.
    pub open spec fn fits(&self, system: &System) -> bool {
        &&& self.deferred_framebuffers@.len() == system.images@.len()
        &&& forall|i: int| 0 <= i < system.images@.len() ==> (#[trigger] system.images@[i]).extent == self.extent()
        &&& system.viewport.dimensions == self.extent()
    }

    /// Begins the deferred pass on the framebuffer of swapchain image
    /// `image_num`, sets the viewport and binds the geometry pipeline.
    pub fn prepare_deferred_pass(&mut self, builder: &mut CommandBuilder, viewport: &Viewport, image_num: usize)
        requires
            old(builder).well_formed(),
            old(builder).current().stage == Stage::Ready,
            image_num < old(self).deferred_framebuffers@.len(),
        ensures
            *final(self) == *old(self),
            final(builder).well_formed(),
            final(builder).current() == prepared(Stage::Geometry),
            final(builder).recorded() == old(builder).recorded() + deferred_pass_prologue(*viewport, image_num),
    {
        builder.record(
            Command::BeginRenderPass { target: RenderTarget::Swapchain { image: image_num } },
        );
        builder.record(
            Command::SetViewport { width: viewport.dimensions.width, height: viewport.dimensions.height },
        );
        builder.record(Command::BindPipeline { pipeline: PipelineKind::Deferred });
    }

    /// Moves on to the lighting subpass and draws the full-screen quad with
    /// the lighting pipeline.
    pub fn prepare_lighting_subpass(&mut self, builder: &mut CommandBuilder, triangle_system: &TriangleDrawSystem)
        requires
            old(builder).well_formed(),
            old(builder).current().stage == Stage::Geometry,
            old(builder).current().viewport,
            triangle_system.vertex_buffer@.len() >= 6,
        ensures
            *final(self) == *old(self),
            final(builder).well_formed(),
            final(builder).current() == (Recording {
                sets: Some(BoundSets { first: DescriptorSetRef::Lighting, second: None }),
                vertices: Some(VertexSource::FullscreenQuad),
                ..prepared(Stage::Lighting)
            }),
            final(builder).recorded() == old(builder).recorded() + lighting_commands(),
    {
        builder.record(Command::NextSubpass);
        builder.record(Command::BindPipeline { pipeline: PipelineKind::Lighting });
        builder.record(
            Command::BindDescriptorSets {
                pipeline: PipelineKind::Lighting,
                first: DescriptorSetRef::Lighting,
                second: None,
            },
        );
        builder.record(Command::BindVertexBuffers { source: VertexSource::FullscreenQuad });
        builder.record(Command::Draw { vertex_count: 6, instance_count: 1 });
    }

    /// What to do about the swapchain before a frame, for a window of size
    /// `window_extent`: nothing unless recreation is flagged; and while the
    /// window has no area, nothing but skipping the frame.
    pub fn swapchain_request(&self, system: &System, window_extent: Extent) -> (request: SwapchainRequest)
        ensures
            request == swapchain_request_for(system.recreate_swapchain, window_extent),
    {
        if !system.recreate_swapchain {
            SwapchainRequest::Keep
        } else if window_extent.has_no_area() {
            SwapchainRequest::SkipFrame
        } else {
            SwapchainRequest::Recreate { extent: window_extent }
        }
    }

    /// Takes in the outcome of recreating the swapchain. With a new
    /// swapchain, G-buffer, framebuffers and viewport are rebuilt for its
    /// images and the recreation flag is cleared; pass and pipelines stay as
    /// they are. Without one nothing changes, and the flag stays set.
    pub fn handle_recreate_swapchain(&mut self, system: &mut System, outcome: RecreateOutcome) -> (result: Result<
        Recreation,
        RecreateError,
    >)
        requires
            outcome matches RecreateOutcome::Recreated { swapchain, images } ==> {
                &&& images@.len() > 0
                &&& !swapchain.image_extent.is_empty()
                &&& forall|i: int| 0 <= i < images@.len() ==> (#[trigger] images@[i]).extent == swapchain.image_extent
            },
        ensures
            old(self).well_formed() ==> final(self).well_formed(),
            final(self).render_pass == old(self).render_pass,
            final(self).deferred_pipeline == old(self).deferred_pipeline,
            final(self).lighting_pipeline == old(self).lighting_pipeline,
            final(self).params == old(self).params,
            final(system).info == old(system).info,
            final(system).previous_frame_end == old(system).previous_frame_end,
            final(system).performance_info == old(system).performance_info,
            final(system).triangle_system == old(system).triangle_system,
            match outcome {
                RecreateOutcome::Recreated { swapchain, images } => {
                    &&& result == Ok::<Recreation, RecreateError>(Recreation::Rebuilt)
                    &&& final(system).swapchain == swapchain
                    &&& final(system).images == images
                    &&& !final(system).recreate_swapchain
                    &&& final(self).extent() == swapchain.image_extent
                    &&& final(self).fits(final(system))
                },
                RecreateOutcome::ExtentNotSupported => {
                    &&& result == Ok::<Recreation, RecreateError>(Recreation::Skipped)
                    &&& *final(self) == *old(self)
                    &&& *final(system) == *old(system)
                },
                RecreateOutcome::Failed => {
                    &&& result == Err::<Recreation, RecreateError>(RecreateError)
                    &&& *final(self) == *old(self)
                    &&& *final(system) == *old(system)
                },
            },
    {
        match outcome {
            RecreateOutcome::Recreated { swapchain, images } => {
                system.swapchain = swapchain;
                let (new_framebuffers, new_color_buffer, new_normal_buffer, new_position_buffer) =
                    window_size_dependent_setup(&images, &mut system.viewport);
                system.images = images;
                self.deferred_framebuffers = new_framebuffers;
                self.color_buffer = new_color_buffer;
                self.normal_buffer = new_normal_buffer;
                self.position_buffer = new_position_buffer;
                system.recreate_swapchain = false;
                Ok(Recreation::Rebuilt)
            },
            RecreateOutcome::ExtentNotSupported => Ok(Recreation::Skipped),
            RecreateOutcome::Failed => Err(RecreateError),
        }
    }
}

impl Framebuffer {
    /// The G-buffer and depth attachments of the framebuffer, in the order
    /// of the render pass, where they follow the swapchain image.
    pub open spec fn attachments(self) -> Seq<AttachmentImage> {
        seq![self.albedo, self.normal, self.position, self.depth]
    }
}

/// The G-buffer attachment that input attachment `k` of the lighting
/// subpass is.
pub open spec fn input_slot(k: int) -> GBufferSlot {
    if k == 0 {
        GBufferSlot::Albedo
    } else if k == 1 {
        GBufferSlot::Normal
    } else {
        GBufferSlot::Position
    }
}

/// Every framebuffer suits the pass: after the swapchain image, its
/// attachments have the formats of the attachments of the pass, in the same
/// order, and all of them one size.
pub proof fn lemma_framebuffers_suit_pass(pass: DeferredRenderPass, i: int)
    requires
        pass.well_formed(),
        0 <= i < pass.deferred_framebuffers@.len(),
    ensures
        pass.deferred_framebuffers@[i].attachments().len() + 1 == pass.render_pass@.attachments.len(),
        forall|a: int|
            0 <= a < 4 ==> {
                &&& (#[trigger] pass.deferred_framebuffers@[i].attachments()[a]).format
                    == pass.render_pass@.attachments[a + 1].format
                &&& pass.deferred_framebuffers@[i].attachments()[a].extent == pass.extent()
            },
{
}

/// The lighting pipeline reads what the geometry subpass wrote: input
/// attachment `k` of the lighting subpass is bound at binding `k` of the
/// lighting set, and is the attachment of every framebuffer that the
/// geometry subpass writes as its colour output `k`.
pub proof fn lemma_lighting_reads_gbuffer(
    pass: DeferredRenderPass,
    shadow_map: AttachmentImage,
    k: int,
    i: int,
)
    requires
        pass.well_formed(),
        0 <= k < 3,
        0 <= i < pass.deferred_framebuffers@.len(),
    ensures
        pass.render_pass@.subpasses[1].input[k] == pass.render_pass@.subpasses[0].color[k],
        lighting_set_writes(
            pass.color_buffer,
            pass.normal_buffer,
            pass.position_buffer,
            shadow_map,
            pass.params.preview_buffer,
        )[k] == (DescriptorWrite {
            binding: k as u32,
            resource: DescriptorResource::InputAttachment {
                slot: input_slot(k),
                image: pass.deferred_framebuffers@[i].attachments()[pass.render_pass@.subpasses[0].color[k]
                    - 1],
            },
        }),
{
}

/// The commands that open the deferred pass on swapchain image `image_num`.
pub open spec fn deferred_pass_prologue(viewport: Viewport, image_num: usize) -> Seq<Command> {
    seq![
        Command::BeginRenderPass { target: RenderTarget::Swapchain { image: image_num } },
        Command::SetViewport { width: viewport.dimensions.width, height: viewport.dimensions.height },
        Command::BindPipeline { pipeline: PipelineKind::Deferred },
    ]
}

/// The commands of the lighting subpass: one draw of the six vertices of
/// the full-screen quad.
pub open spec fn lighting_commands() -> Seq<Command> {
    seq![
        Command::NextSubpass,
        Command::BindPipeline { pipeline: PipelineKind::Lighting },
        Command::BindDescriptorSets {
            pipeline: PipelineKind::Lighting,
            first: DescriptorSetRef::Lighting,
            second: None,
        },
        Command::BindVertexBuffers { source: VertexSource::FullscreenQuad },
        Command::Draw { vertex_count: 6, instance_count: 1 },
    ]
}

} // verus!
