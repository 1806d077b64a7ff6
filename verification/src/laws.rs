//! What holds of every chain of builder calls.
//!
//! The builders' contracts say what one call does. The lemmas here say what follows for
//! chains of any length, over the same mathematical values.

use vstd::prelude::*;
use crate::descriptor::{
    Attachments, ColorAttachmentDescriptor, DepthStencilAttachmentDescriptor,
};
use crate::operations::{AttachmentOperations, Color, Depth, LoadAction};

verus! {

/// Colour attachments come out in the order in which they were added.
///
/// Adding the colour attachments `descriptors` one after the other to `start` appends
/// exactly them, first to last, after those that `start` held, and leaves the depth/stencil
/// attachment alone. From an empty builder, `n` additions therefore give a list of length
/// `n` that is `descriptors` itself.
pub proof fn lemma_color_attachments_keep_call_order<'a, H>(
    start: Attachments<'a, H>,
    descriptors: Seq<ColorAttachmentDescriptor<'a, H>>,
)
    ensures
        start.push_colors(descriptors).color == start.color + descriptors,
        start.push_colors(descriptors).color.len() == start.color.len() + descriptors.len(),
        start.push_colors(descriptors).depth_stencil == start.depth_stencil,
        Attachments::<'a, H>::empty().push_colors(descriptors).color == descriptors,
        Attachments::<'a, H>::empty().push_colors(descriptors).depth_stencil is None,
    decreases descriptors.len(),
{
    if descriptors.len() > 0 {
        let earlier = descriptors.drop_last();
        lemma_color_attachments_keep_call_order(start, earlier);
        lemma_color_attachments_keep_call_order(Attachments::<'a, H>::empty(), earlier);
        assert(start.color + descriptors == (start.color + earlier).push(descriptors.last()));
        assert(descriptors == earlier.push(descriptors.last()));
    } else {
        assert(start.color + descriptors == start.color);
        assert(descriptors == Seq::<ColorAttachmentDescriptor<'a, H>>::empty());
    }
}

/// Of several depth/stencil attachments, the one set last is the one that stays.
///
/// Setting the depth/stencil attachment to each of `descriptors` in turn leaves the last
/// of them in place and nothing of the others; with no call at all, what `start` held
/// stays. The colour attachments are left alone. From an empty builder, no call gives
/// `None`, one call gives that call's descriptor, and more calls give the last one's.
pub proof fn lemma_last_depth_stencil_attachment_wins<'a, H>(
    start: Attachments<'a, H>,
    descriptors: Seq<DepthStencilAttachmentDescriptor<'a, H>>,
)
    ensures
        descriptors.len() == 0 ==> start.set_depth_stencils(descriptors).depth_stencil
            == start.depth_stencil,
        descriptors.len() > 0 ==> start.set_depth_stencils(descriptors).depth_stencil == Some(
            descriptors.last(),
        ),
        start.set_depth_stencils(descriptors).color == start.color,
        descriptors.len() == 0 ==> Attachments::<'a, H>::empty().set_depth_stencils(
            descriptors,
        ).depth_stencil is None,
    decreases descriptors.len(),
{
    if descriptors.len() > 0 {
        lemma_last_depth_stencil_attachment_wins(start, descriptors.drop_last());
    }
}

/// Adding a colour attachment and setting the depth/stencil attachment do not disturb each
/// other: done in either order they give the same attachments.
pub proof fn lemma_color_and_depth_stencil_are_independent<'a, H>(
    start: Attachments<'a, H>,
    color: ColorAttachmentDescriptor<'a, H>,
    depth_stencil: DepthStencilAttachmentDescriptor<'a, H>,
)
    ensures
        start.push_color(color).set_depth_stencil(depth_stencil) == start.set_depth_stencil(
            depth_stencil,
        ).push_color(color),
{
}

/// A colour attachment that nobody configured is cleared to transparent black and stored,
/// and has no resolve target.
pub proof fn lemma_fresh_color_attachment_has_defaults<'a, H>(view: &'a H)
    ensures
        ColorAttachmentDescriptor::fresh(view).view == view,
        ColorAttachmentDescriptor::fresh(view).resolve_target is None,
        ColorAttachmentDescriptor::fresh(view).ops == (AttachmentOperations {
            load: LoadAction::Clear(Color { r: 0, g: 0, b: 0, a: 0 }),
            store: true,
        }),
{
}

/// A depth/stencil attachment that nobody configured uses both planes: depth is cleared to
/// `1.0` and stored, stencil is cleared to `0` and stored.
pub proof fn lemma_fresh_depth_stencil_attachment_has_defaults<'a, H>(view: &'a H)
    ensures
        DepthStencilAttachmentDescriptor::fresh(view).view == view,
        DepthStencilAttachmentDescriptor::fresh(view).depth_ops == Some(
            AttachmentOperations {
                load: LoadAction::Clear(Depth { bits: 0x3F80_0000 }),
                store: true,
            },
        ),
        DepthStencilAttachmentDescriptor::fresh(view).stencil_ops == Some(
            AttachmentOperations { load: LoadAction::Clear(0u32), store: true },
        ),
{
}

/// The resolve target is a single attribute, and the last write to it wins.
///
/// Setting it twice leaves what the second call set, whatever the first call set and
/// whatever was there before. In particular, `None` after `Some` gives `None`.
pub proof fn lemma_resolve_target_last_write_wins<'a, H>(
    descriptor: ColorAttachmentDescriptor<'a, H>,
    first: Option<&'a H>,
    second: Option<&'a H>,
)
    ensures
        descriptor.with_resolve_target(first).with_resolve_target(second)
            == descriptor.with_resolve_target(second),
        descriptor.with_resolve_target(first).with_resolve_target(second).resolve_target
            == second,
        descriptor.with_resolve_target(first).with_resolve_target(None).resolve_target is None,
{
}

/// Each setter of a leaf builder changes its own attribute and no other.
///
/// The operations and the resolve target of a colour attachment can be set in either
/// order, and so can the depth and the stencil operations of a depth/stencil attachment.
pub proof fn lemma_attributes_are_independent<'a, H>(
    color: ColorAttachmentDescriptor<'a, H>,
    target: Option<&'a H>,
    color_ops: AttachmentOperations<Color>,
    depth_stencil: DepthStencilAttachmentDescriptor<'a, H>,
    depth_ops: Option<AttachmentOperations<Depth>>,
    stencil_ops: Option<AttachmentOperations<u32>>,
)
    ensures
        color.with_resolve_target(target).with_ops(color_ops) == color.with_ops(
            color_ops,
        ).with_resolve_target(target),
        color.with_ops(color_ops).view == color.view,
        color.with_resolve_target(target).view == color.view,
        depth_stencil.with_depth_ops(depth_ops).with_stencil_ops(stencil_ops)
            == depth_stencil.with_stencil_ops(stencil_ops).with_depth_ops(depth_ops),
        depth_stencil.with_depth_ops(depth_ops).stencil_ops == depth_stencil.stencil_ops,
        depth_stencil.with_stencil_ops(stencil_ops).depth_ops == depth_stencil.depth_ops,
{
}

} // verus!
