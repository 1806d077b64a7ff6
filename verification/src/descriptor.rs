//! The descriptors that the builders produce, and the mathematical value that stands for
//! the attachments of one render pass.

use vstd::prelude::*;
use crate::operations::{
    spec_default_color_ops, spec_default_depth_ops, spec_default_stencil_ops,
    AttachmentOperations, Color, Depth,
};

verus! {

/// A texture view as an application holds it: the handle that the graphics backend
/// understands, wrapped for the application's own bookkeeping.
#[derive(Debug, PartialEq, Eq)]
pub struct TextureView<H> {
    /// The backend's handle of this view.
    pub handle: H,
}

impl<H> TextureView<H> {
    /// The handle of the texture view in `target`, if there is one.
    pub open spec fn handle_of<'a>(target: Option<&'a TextureView<H>>) -> Option<&'a H> {
        match target {
            Some(texture_view) => Some(&texture_view.handle),
            None => None,
        }
    }
}

/// One colour attachment of a render pass.
#[derive(Debug, PartialEq, Eq)]
pub struct ColorAttachmentDescriptor<'a, H> {
    /// The texture view that is drawn into.
    pub view: &'a H,
    /// The texture view that receives the resolved output of a multisampled attachment.
    pub resolve_target: Option<&'a H>,
    /// What is done with the attachment when the pass starts and ends.
    pub ops: AttachmentOperations<Color>,
}

impl<'a, H> Clone for ColorAttachmentDescriptor<'a, H> {
    fn clone(&self) -> (out: Self)
        ensures
            out == *self,
    {
        *self
    }
}

impl<'a, H> Copy for ColorAttachmentDescriptor<'a, H> {
}

impl<'a, H> ColorAttachmentDescriptor<'a, H> {
    /// The descriptor of a colour attachment on `view` that nobody configured:
    /// no resolve target, cleared to transparent black, stored.
    pub open spec fn fresh(view: &'a H) -> Self {
        ColorAttachmentDescriptor { view, resolve_target: None, ops: spec_default_color_ops() }
    }

    /// This descriptor with its resolve target replaced.
    pub open spec fn with_resolve_target(self, target: Option<&'a H>) -> Self {
        ColorAttachmentDescriptor { resolve_target: target, ..self }
    }

    /// This descriptor with its operations replaced.
    pub open spec fn with_ops(self, ops: AttachmentOperations<Color>) -> Self {
        ColorAttachmentDescriptor { ops, ..self }
    }
}

/// The depth/stencil attachment of a render pass.
#[derive(Debug, PartialEq, Eq)]
pub struct DepthStencilAttachmentDescriptor<'a, H> {
    /// The texture view that holds the depth and stencil planes.
    pub view: &'a H,
    /// What is done with the depth plane; `None` leaves it untouched.
    pub depth_ops: Option<AttachmentOperations<Depth>>,
    /// What is done with the stencil plane; `None` leaves it untouched.
    pub stencil_ops: Option<AttachmentOperations<u32>>,
}

impl<'a, H> Clone for DepthStencilAttachmentDescriptor<'a, H> {
    fn clone(&self) -> (out: Self)
        ensures
            out == *self,
    {
        *self
    }
}

impl<'a, H> Copy for DepthStencilAttachmentDescriptor<'a, H> {
}

impl<'a, H> DepthStencilAttachmentDescriptor<'a, H> {
    /// The descriptor of a depth/stencil attachment on `view` that nobody configured:
    /// depth cleared to `1.0` and stored, stencil cleared to `0` and stored.
    pub open spec fn fresh(view: &'a H) -> Self {
        DepthStencilAttachmentDescriptor {
            view,
            depth_ops: Some(spec_default_depth_ops()),
            stencil_ops: Some(spec_default_stencil_ops()),
        }
    }

    /// This descriptor with its depth operations replaced.
    pub open spec fn with_depth_ops(self, ops: Option<AttachmentOperations<Depth>>) -> Self {
        DepthStencilAttachmentDescriptor { depth_ops: ops, ..self }
    }

    /// This descriptor with its stencil operations replaced.
    pub open spec fn with_stencil_ops(self, ops: Option<AttachmentOperations<u32>>) -> Self {
        DepthStencilAttachmentDescriptor { stencil_ops: ops, ..self }
    }
}

/// The attachments of one render pass as a mathematical value: the colour attachments in
/// binding-slot order, and the depth/stencil attachment if there is one.
pub struct Attachments<'a, H> {
    pub color: Seq<ColorAttachmentDescriptor<'a, H>>,
    pub depth_stencil: Option<DepthStencilAttachmentDescriptor<'a, H>>,
}

impl<'a, H> Attachments<'a, H> {
    /// No colour attachment and no depth/stencil attachment.
    pub open spec fn empty() -> Self {
        Attachments { color: Seq::empty(), depth_stencil: None }
    }

    /// These attachments with one more colour attachment in the next free slot.
    pub open spec fn push_color(self, descriptor: ColorAttachmentDescriptor<'a, H>) -> Self {
        Attachments { color: self.color.push(descriptor), ..self }
    }

    /// These attachments with the depth/stencil attachment replaced by `descriptor`.
    pub open spec fn set_depth_stencil(
        self,
        descriptor: DepthStencilAttachmentDescriptor<'a, H>,
    ) -> Self {
        Attachments { depth_stencil: Some(descriptor), ..self }
    }

    /// The result of adding the colour attachments of `descriptors` one after the other,
    /// first to last.
    pub open spec fn push_colors(self, descriptors: Seq<ColorAttachmentDescriptor<'a, H>>) -> Self
        decreases descriptors.len(),
    {
        if descriptors.len() == 0 {
            self
        } else {
            self.push_colors(descriptors.drop_last()).push_color(descriptors.last())
        }
    }

    /// The result of setting the depth/stencil attachment to each of `descriptors` in turn,
    /// first to last.
    pub open spec fn set_depth_stencils(
        self,
        descriptors: Seq<DepthStencilAttachmentDescriptor<'a, H>>,
    ) -> Self
        decreases descriptors.len(),
    {
        if descriptors.len() == 0 {
            self
        } else {
            self.set_depth_stencils(descriptors.drop_last()).set_depth_stencil(descriptors.last())
        }
    }
}

/// Everything a command encoder needs to open a render pass.
#[derive(Debug, PartialEq, Eq)]
pub struct RenderPassDescriptor<'a, H> {
    /// The colour attachments, in binding-slot order.
    pub color_attachments: Vec<ColorAttachmentDescriptor<'a, H>>,
    /// The depth/stencil attachment, if the pass has one.
    pub depth_stencil_attachment: Option<DepthStencilAttachmentDescriptor<'a, H>>,
}

impl<'a, H> View for RenderPassDescriptor<'a, H> {
    type V = Attachments<'a, H>;

    open spec fn view(&self) -> Attachments<'a, H> {
        Attachments {
            color: self.color_attachments@,
            depth_stencil: self.depth_stencil_attachment,
        }
    }
}

} // verus!
