//! Render pass descriptions: attachments, and the subpasses that write and
//! read them.

use vstd::prelude::*;

use crate::resources::{ClearValue, Format};

verus! {

/// What happens to an attachment's contents when the pass begins.
#[derive(Clone, Copy, Debug, PartialEq, Eq, Structural)]
pub enum LoadOp {
    Clear,
    Load,
    DontCare,
}

/// What happens to an attachment's contents when the pass ends.
#[derive(Clone, Copy, Debug, PartialEq, Eq, Structural)]
pub enum StoreOp {
    Store,
    DontCare,
}

/// One attachment of a render pass.
#[derive(Clone, Copy, Debug, PartialEq, Eq, Structural)]
pub struct AttachmentDesc {
    pub format: Format,
    pub load: LoadOp,
    pub store: StoreOp,
    pub samples: u32,
    /// The value the attachment is cleared to if `load` is `Clear`.
    pub clear: ClearValue,
}

impl AttachmentDesc {
    /// The clear value suits the format: a depth for depth formats, a colour
    /// for the others.
    pub open spec fn clear_suits_format(self) -> bool {
        self.format.is_depth() == (self.clear is Depth)
    }
}

/// One subpass: the attachments it writes and reads, by index.
#[derive(Debug, PartialEq, Eq)]
pub struct SubpassDesc {
    pub color: Vec<usize>,
    pub depth_stencil: Option<usize>,
    pub input: Vec<usize>,
}

/// Mathematical form of [`SubpassDesc`].
pub struct SubpassView {
    pub color: Seq<usize>,
    pub depth_stencil: Option<usize>,
    pub input: Seq<usize>,
}

impl View for SubpassDesc {
    type V = SubpassView;

    open spec fn view(&self) -> SubpassView {
        SubpassView { color: self.color@, depth_stencil: self.depth_stencil, input: self.input@ }
    }
}

impl SubpassView {
    /// The subpass writes attachment `a`.
    pub open spec fn writes(self, a: usize) -> bool {
        self.color.contains(a) || self.depth_stencil == Some(a)
    }

    /// The subpass reads attachment `a` as an input attachment.
    pub open spec fn reads(self, a: usize) -> bool {
        self.input.contains(a)
    }
}

/// A render pass: attachments and ordered subpasses.
#[derive(Debug, PartialEq, Eq)]
pub struct RenderPassDesc {
    pub attachments: Vec<AttachmentDesc>,
    pub subpasses: Vec<SubpassDesc>,
}

/// Mathematical form of [`RenderPassDesc`].
pub struct RenderPassView {
    pub attachments: Seq<AttachmentDesc>,
    pub subpasses: Seq<SubpassView>,
}

impl View for RenderPassDesc {
    type V = RenderPassView;

    open spec fn view(&self) -> RenderPassView {
        RenderPassView {
            attachments: self.attachments@,
            subpasses: Seq::new(self.subpasses@.len(), |s: int| self.subpasses@[s]@),
        }
    }
}

impl RenderPassView {
    /// Subpass `s` names only attachments that exist, writes colour to
    /// colour formats and depth to a depth format, and does not read what it
    /// writes.
    pub open spec fn subpass_consistent(self, s: int) -> bool {
        let subpass = self.subpasses[s];
        &&& forall|c: int|
            0 <= c < subpass.color.len() ==> {
                &&& (#[trigger] subpass.color[c]) < self.attachments.len()
                &&& !self.attachments[subpass.color[c] as int].format.is_depth()
            }
        &&& subpass.depth_stencil matches Some(d) ==> {
            &&& d < self.attachments.len()
            &&& self.attachments[d as int].format.is_depth()
        }
        &&& forall|i: int|
            0 <= i < subpass.input.len() ==> {
                &&& (#[trigger] subpass.input[i]) < self.attachments.len()
                &&& !subpass.writes(subpass.input[i])
            }
    }

    /// Whatever subpass `s` reads was written by an earlier subpass.
    pub open spec fn inputs_written_before(self, s: int) -> bool {
        forall|i: int|
            0 <= i < self.subpasses[s].input.len() ==> exists|earlier: int|
                0 <= earlier < s && (#[trigger] self.subpasses[earlier]).writes(
                    #[trigger] self.subpasses[s].input[i],
                )
    }

    /// The pass can be created: it has a subpass, every attachment is single
    /// sampled with a clear value of its own kind, and every subpass is
    /// consistent and reads only what was written before it.
    pub open spec fn well_formed(self) -> bool {
        &&& self.subpasses.len() > 0
        &&& forall|a: int|
            0 <= a < self.attachments.len() ==> {
                &&& (#[trigger] self.attachments[a]).samples == 1
                &&& self.attachments[a].clear_suits_format()
            }
        &&& forall|s: int| 0 <= s < self.subpasses.len() ==> #[trigger] self.subpass_consistent(s)
        &&& forall|s: int| 0 <= s < self.subpasses.len() ==> #[trigger] self.inputs_written_before(s)
    }
}

impl RenderPassDesc {
    /// The clear values to begin the pass with, one per attachment in
    /// attachment order.
    pub fn clear_values(&self) -> (values: Vec<ClearValue>)
        ensures
            values@.len() == self.attachments@.len(),
            forall|a: int| 0 <= a < values@.len() ==> values@[a] == self.attachments@[a].clear,
    {
        let mut values: Vec<ClearValue> = Vec::new();
        let mut a: usize = 0;
        while a < self.attachments.len()
            invariant
                a <= self.attachments@.len(),
                values@.len() == a,
                forall|b: int| 0 <= b < a ==> values@[b] == self.attachments@[b].clear,
            decreases self.attachments@.len() - a,
        {
            values.push(self.attachments[a].clear);
            a += 1;
        }
        values
    }
}

} // verus!
