//! The builder of the depth/stencil attachment.

use vstd::prelude::*;
use crate::descriptor::DepthStencilAttachmentDescriptor;
use crate::operations::{
    default_depth_ops, default_stencil_ops, AttachmentOperations, Depth, LoadAction,
};

verus! {

/// Configures the depth/stencil attachment of a render pass.
///
/// A builder starts out as [`DepthStencilAttachmentDescriptor::fresh`] describes and is
/// changed by chaining calls, each of which takes the builder and gives it back.
#[derive(Debug)]
pub struct DepthStencilAttachmentDescriptorBuilder<'a, H> {
    descriptor: DepthStencilAttachmentDescriptor<'a, H>,
}

impl<'a, H> View for DepthStencilAttachmentDescriptorBuilder<'a, H> {
    type V = DepthStencilAttachmentDescriptor<'a, H>;

    /// The descriptor that the builder would produce if it were finished now.
    closed spec fn view(&self) -> DepthStencilAttachmentDescriptor<'a, H> {
        self.descriptor
    }
}

impl<'a, H> DepthStencilAttachmentDescriptorBuilder<'a, H> {
    /// Begins a depth/stencil attachment on `view` with both planes in use and the default
    /// operations: depth cleared to `1.0` and stored, stencil cleared to `0` and stored.
    pub fn new(view: &'a H) -> (out: Self)
        ensures
            out@ == DepthStencilAttachmentDescriptor::fresh(view),
            out@.view == view,
            out@.depth_ops == Some(
                AttachmentOperations { load: LoadAction::Clear(Depth::spec_one()), store: true },
            ),
            out@.stencil_ops == Some(
                AttachmentOperations { load: LoadAction::Clear(0u32), store: true },
            ),
    {
        DepthStencilAttachmentDescriptorBuilder {
            descriptor: DepthStencilAttachmentDescriptor {
                view,
                depth_ops: Some(default_depth_ops()),
                stencil_ops: Some(default_stencil_ops()),
            },
        }
    }

    /// Replaces the operations on the depth plane; `None` leaves the plane untouched by
    /// the pass. The stencil operations stay as they are.
    pub fn depth_ops(self, ops: Option<AttachmentOperations<Depth>>) -> (out: Self)
        ensures
            out@ == self@.with_depth_ops(ops),
    {
        let mut out = self;
        out.descriptor.depth_ops = ops;
        out
    }

    /// Replaces the operations on the stencil plane; `None` leaves the plane untouched by
    /// the pass. The depth operations stay as they are.
    pub fn stencil_ops(self, ops: Option<AttachmentOperations<u32>>) -> (out: Self)
        ensures
            out@ == self@.with_stencil_ops(ops),
    {
        let mut out = self;
        out.descriptor.stencil_ops = ops;
        out
    }

    /// Ends the configuration and hands out the descriptor. Only the render pass builder
    /// does this, once the caller's function has returned.
    pub(crate) fn finalize(self) -> (descriptor: DepthStencilAttachmentDescriptor<'a, H>)
        ensures
            descriptor == self@,
    {
        self.descriptor
    }
}

} // verus!
