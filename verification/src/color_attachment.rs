//! The builder of one colour attachment.

use vstd::prelude::*;
use crate::descriptor::{ColorAttachmentDescriptor, TextureView};
use crate::operations::{default_color_ops, AttachmentOperations, Color, LoadAction};

verus! {

/// Configures one colour attachment of a render pass.
///
/// A builder starts out as [`ColorAttachmentDescriptor::fresh`] describes and is changed
/// by chaining calls, each of which takes the builder and gives it back.
#[derive(Debug)]
pub struct ColorAttachmentDescriptorBuilder<'a, H> {
    descriptor: ColorAttachmentDescriptor<'a, H>,
}

impl<'a, H> View for ColorAttachmentDescriptorBuilder<'a, H> {
    type V = ColorAttachmentDescriptor<'a, H>;

    /// The descriptor that the builder would produce if it were finished now.
    closed spec fn view(&self) -> ColorAttachmentDescriptor<'a, H> {
        self.descriptor
    }
}

impl<'a, H> ColorAttachmentDescriptorBuilder<'a, H> {
    /// Begins a colour attachment on `view`, with no resolve target and the default
    /// operations: clear to transparent black, and store.
    pub fn new(view: &'a H) -> (out: Self)
        ensures
            out@ == ColorAttachmentDescriptor::fresh(view),
            out@.view == view,
            out@.resolve_target is None,
            out@.ops.load == LoadAction::Clear(Color::spec_transparent()),
            out@.ops.store,
    {
        ColorAttachmentDescriptorBuilder {
            descriptor: ColorAttachmentDescriptor {
                view,
                resolve_target: None,
                ops: default_color_ops(),
            },
        }
    }

    /// Sets the resolve target to the handle of `target`, or clears it with `None`.
    /// Whatever was set before is forgotten.
    pub fn resolve_target(self, target: Option<&'a TextureView<H>>) -> (out: Self)
        ensures
            out@ == self@.with_resolve_target(TextureView::handle_of(target)),
            target is None ==> out@.resolve_target is None,
            target is Some ==> out@.resolve_target == Some(&target.unwrap().handle),
    {
        let handle = match target {
            Some(texture_view) => Some(&texture_view.handle),
            None => None,
        };
        self.resolve_target_handle(handle)
    }

    /// Sets the resolve target to `target`, or clears it with `None`.
    /// Whatever was set before is forgotten.
    pub fn resolve_target_handle(self, target: Option<&'a H>) -> (out: Self)
        ensures
            out@ == self@.with_resolve_target(target),
    {
        let mut out = self;
        out.descriptor.resolve_target = target;
        out
    }

    /// Replaces the load and store operations, both at once.
    pub fn ops(self, ops: AttachmentOperations<Color>) -> (out: Self)
        ensures
            out@ == self@.with_ops(ops),
    {
        let mut out = self;
        out.descriptor.ops = ops;
        out
    }

    /// Ends the configuration and hands out the descriptor. Only the render pass builder
    /// does this, once the caller's function has returned.
    pub(crate) fn finalize(self) -> (descriptor: ColorAttachmentDescriptor<'a, H>)
        ensures
            descriptor == self@,
    {
        self.descriptor
    }
}

} // verus!
