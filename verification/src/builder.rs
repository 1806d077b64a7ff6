//! The builder of a whole render pass.

use vstd::prelude::*;
use crate::color_attachment::ColorAttachmentDescriptorBuilder;
use crate::depth_stencil_attachment::DepthStencilAttachmentDescriptorBuilder;
use crate::descriptor::{
    Attachments, ColorAttachmentDescriptor, DepthStencilAttachmentDescriptor,
    RenderPassDescriptor,
};

verus! {

/// Collects the attachments of a render pass.
///
/// A builder starts empty. Every call takes the builder and gives it back, so calls chain;
/// [`Builder::into_inner`] or [`Builder::begin`] ends the chain and uses the builder up.
#[derive(Debug)]
pub struct Builder<'a, H> {
    color_attachments: Vec<ColorAttachmentDescriptor<'a, H>>,
    depth_stencil_attachment: Option<DepthStencilAttachmentDescriptor<'a, H>>,
}

impl<'a, H> View for Builder<'a, H> {
    type V = Attachments<'a, H>;

    /// The attachments collected so far.
    closed spec fn view(&self) -> Attachments<'a, H> {
        Attachments {
            color: self.color_attachments@,
            depth_stencil: self.depth_stencil_attachment,
        }
    }
}

impl<'a, H> Default for Builder<'a, H> {
    /// A builder without attachments.
    fn default() -> (out: Self)
        ensures
            out@ == Attachments::<'a, H>::empty(),
    {
        Builder { color_attachments: Vec::new(), depth_stencil_attachment: None }
    }
}

impl<'a, H> Builder<'a, H> {
    /// Begins a render pass without attachments.
    pub fn new() -> (out: Self)
        ensures
            out@ == Attachments::<'a, H>::empty(),
            out@.color.len() == 0,
            out@.depth_stencil is None,
    {
        Self::default()
    }

    /// Adds a colour attachment on `view` in the next free binding slot.
    ///
    /// `color_builder` receives a builder in its default state and returns it configured;
    /// what it returns is finished and appended after the attachments added before. The
    /// depth/stencil attachment stays as it is.
    pub fn color_attachment<F>(self, view: &'a H, color_builder: F) -> (out: Self) where
        F: FnOnce(ColorAttachmentDescriptorBuilder<'a, H>) -> ColorAttachmentDescriptorBuilder<
            'a,
            H,
        >,

        requires
            forall|fresh: ColorAttachmentDescriptorBuilder<'a, H>|
                fresh@ == ColorAttachmentDescriptor::fresh(view) ==> #[trigger] call_requires(
                    color_builder,
                    (fresh,),
                ),
        ensures
            exists|
                fresh: ColorAttachmentDescriptorBuilder<'a, H>,
                configured: ColorAttachmentDescriptorBuilder<'a, H>,
            |
                fresh@ == ColorAttachmentDescriptor::fresh(view) && #[trigger] call_ensures(
                    color_builder,
                    (fresh,),
                    configured,
                ) && out@ == self@.push_color(configured@),
            out@.color.len() == self@.color.len() + 1,
            out@.color.drop_last() == self@.color,
            out@.depth_stencil == self@.depth_stencil,
    {
        let builder = ColorAttachmentDescriptorBuilder::new(view);
        let descriptor = color_builder(builder).finalize();
        let mut out = self;
        out.color_attachments.push(descriptor);
        out
    }

    /// Sets the depth/stencil attachment to one on `view`.
    ///
    /// `depth_stencil_builder` receives a builder in its default state and returns it
    /// configured; what it returns is finished and becomes the depth/stencil attachment.
    /// A pass has at most one: an attachment set by an earlier call is dropped without
    /// notice, so the last call wins. The colour attachments stay as they are.
    pub fn depth_stencil_attachment<F>(self, view: &'a H, depth_stencil_builder: F) -> (out:
        Self) where
        F: FnOnce(
            DepthStencilAttachmentDescriptorBuilder<'a, H>,
        ) -> DepthStencilAttachmentDescriptorBuilder<'a, H>,

        requires
            forall|fresh: DepthStencilAttachmentDescriptorBuilder<'a, H>|
                fresh@ == DepthStencilAttachmentDescriptor::fresh(view)
                    ==> #[trigger] call_requires(depth_stencil_builder, (fresh,)),
        ensures
            exists|
                fresh: DepthStencilAttachmentDescriptorBuilder<'a, H>,
                configured: DepthStencilAttachmentDescriptorBuilder<'a, H>,
            |
                fresh@ == DepthStencilAttachmentDescriptor::fresh(view) && #[trigger] call_ensures(
                    depth_stencil_builder,
                    (fresh,),
                    configured,
                ) && out@ == self@.set_depth_stencil(configured@),
            out@.depth_stencil is Some,
            out@.color == self@.color,
    {
        let builder = DepthStencilAttachmentDescriptorBuilder::new(view);
        let descriptor = depth_stencil_builder(builder).finalize();
        let mut out = self;
        out.depth_stencil_attachment = Some(descriptor);
        out
    }

    /// Ends the chain and returns what was collected: the colour attachments in the order
    /// in which they were added, and the depth/stencil attachment that was set last.
    pub fn into_inner(self) -> (out: (
        Vec<ColorAttachmentDescriptor<'a, H>>,
        Option<DepthStencilAttachmentDescriptor<'a, H>>,
    ))
        ensures
            out.0@ == self@.color,
            out.1 == self@.depth_stencil,
    {
        let Builder { color_attachments, depth_stencil_attachment } = self;
        (color_attachments, depth_stencil_attachment)
    }

    /// Ends the chain and opens a render pass on `encoder`.
    ///
    /// `open` is the encoder's operation that begins a render pass. It is called once, with
    /// `encoder` and with a descriptor that holds exactly the attachments collected; the
    /// pass that it returns is handed back unchanged. An empty builder opens a pass without
    /// attachments: whether that is acceptable is up to `open`.
    ///
    /// The encoder stays exclusively borrowed for `'a`, and no texture view among the
    /// attachments can go away before then.
    pub fn begin<E, P, F>(self, encoder: &'a mut E, open: F) -> (pass: P) where
        F: FnOnce(&'a mut E, RenderPassDescriptor<'a, H>) -> P,

        requires
            forall|target: &'a mut E, descriptor: RenderPassDescriptor<'a, H>|
                *target == *old(encoder) && descriptor@ == self@ ==> #[trigger] call_requires(
                    open,
                    (target, descriptor),
                ),
        ensures
            exists|target: &'a mut E, descriptor: RenderPassDescriptor<'a, H>|
                *target == *old(encoder) && *final(target) == *final(encoder) && descriptor@
                    == self@ && #[trigger] call_ensures(open, (target, descriptor), pass),
    {
        let (color_attachments, depth_stencil_attachment) = self.into_inner();
        let descriptor = RenderPassDescriptor { color_attachments, depth_stencil_attachment };
        open(encoder, descriptor)
    }
}

} // verus!
