//! The debug overlay's share of a frame: the end-of-frame future that the
//! overlay may have to wait on, the preview selector, and the overlay's
//! subpass.

use vstd::prelude::*;

use crate::commands::{entered, Command, CommandBuilder, Stage};
use crate::renderer::deferred::{DebugPreviewBuffer, RendererParams};
use crate::renderer::render_pass::RenderPassDesc;

verus! {

/// What the previous frame left behind for the next one to wait on.
#[derive(Clone, Copy, Debug, PartialEq, Eq, Structural)]
pub enum FrameEndFuture {
    /// The previous frame is on the device; `fence` signals when it is done.
    FenceSignalFuture { fence: u64 },
    /// Nothing is pending.
    BoxedFuture,
}

impl FrameEndFuture {
    /// A future that is already complete.
    pub fn now() -> (future: FrameEndFuture)
        ensures
            future == FrameEndFuture::BoxedFuture,
    {
        FrameEndFuture::BoxedFuture
    }

    /// The fence that work joined with this future has to wait for, if any.
    pub open spec fn fence(self) -> Option<u64> {
        match self {
            FrameEndFuture::FenceSignalFuture { fence } => Some(fence),
            FrameEndFuture::BoxedFuture => None,
        }
    }

    /// Consumes the future and yields the fence to wait for, if any.
    pub fn get(self) -> (fence: Option<u64>)
        ensures
            fence == self.fence(),
    {
        match self {
            FrameEndFuture::FenceSignalFuture { fence } => Some(fence),
            FrameEndFuture::BoxedFuture => None,
        }
    }
}

/// Whether the overlay's texture atlas was written this frame.
#[derive(Clone, Copy, Debug, PartialEq, Eq, Structural)]
pub enum UpdateTexturesResult {
    Unchanged,
    Changed,
}

/// One entry of the preview selector. A click on an entry that is not
/// selected selects it. Returns whether the selection changed.
pub fn preview_type_checkbox_item(item: DebugPreviewBuffer, value: &mut DebugPreviewBuffer, clicked: bool) -> (changed:
    bool)
    ensures
        changed == (clicked && *old(value) != item),
        *final(value) == if clicked {
            item
        } else {
            *old(value)
        },
{
    if clicked && *value != item {
        *value = item;
        true
    } else {
        false
    }
}

/// The entries of the preview selector: every buffer that can be shown, the
/// lit image first.
pub open spec fn preview_entries() -> Seq<DebugPreviewBuffer> {
    seq![
        DebugPreviewBuffer::FinalOutput,
        DebugPreviewBuffer::Albedo,
        DebugPreviewBuffer::Normal,
        DebugPreviewBuffer::Position,
    ]
}

/// The entries of the preview selector, in the order in which they are shown.
pub fn preview_items() -> (items: Vec<DebugPreviewBuffer>)
    ensures
        items@ == preview_entries(),
{
    let mut items: Vec<DebugPreviewBuffer> = Vec::new();
    items.push(DebugPreviewBuffer::FinalOutput);
    items.push(DebugPreviewBuffer::Albedo);
    items.push(DebugPreviewBuffer::Normal);
    items.push(DebugPreviewBuffer::Position);
    items
}

/// The overlay as the renderer knows it.
#[derive(Clone, Copy, Debug, PartialEq, Eq, Structural)]
pub struct EguiData {
    /// The subpass that the overlay draws in.
    pub subpass: usize,
}

/// Sets the overlay up to draw in the third subpass of `render_pass`.
pub fn get_egui_context(render_pass: &RenderPassDesc) -> (egui: EguiData)
    requires
        render_pass.subpasses@.len() > 2,
    ensures
        egui == (EguiData { subpass: 2 }),
{
    EguiData { subpass: 2 }
}

impl EguiData {
    /// Applies what happened in the overlay during a frame: a click on a
    /// preview entry selects it. Returns whether the coming submission has to
    /// wait for the previous frame, which is the case exactly when the
    /// overlay's textures changed.
    pub fn update_textures_egui(
        &mut self,
        params: &mut RendererParams,
        clicked: Option<DebugPreviewBuffer>,
        textures: UpdateTexturesResult,
    ) -> (wait_for_last_frame: bool)
        ensures
            *final(self) == *old(self),
            wait_for_last_frame == (textures == UpdateTexturesResult::Changed),
            final(params).preview_buffer == match clicked {
                Some(item) => item,
                None => old(params).preview_buffer,
            },
    {
        match clicked {
            Some(item) => {
                preview_type_checkbox_item(item, &mut params.preview_buffer, true);
            },
            None => {},
        }
        textures == UpdateTexturesResult::Changed
    }

    /// Moves on to the overlay subpass and records the overlay's draw.
    pub fn render_egui(&mut self, builder: &mut CommandBuilder)
        requires
            old(builder).well_formed(),
            old(builder).current().stage == Stage::Lighting,
        ensures
            *final(self) == *old(self),
            final(builder).well_formed(),
            final(builder).current() == entered(Stage::Overlay),
            final(builder).recorded() == old(builder).recorded().push(Command::DrawOverlay),
    {
        builder.record(Command::DrawOverlay);
    }
}

} // verus!
