//! Chainable builders that assemble the attachments of a render pass.
//!
//! A render pass draws into zero or more colour attachments and at most one depth/stencil
//! attachment. [`Builder`] collects them one call at a time, hands each new attachment to a
//! caller-supplied function for configuration, and finally either gives the collected
//! descriptors back or opens a pass with them on a command encoder.
//!
//! The library is generic over the type `H` of a texture view handle. It never looks inside
//! a handle; it only keeps shared borrows of the handles it is given, so no descriptor can
//! outlive the texture view it points to.

pub mod operations;
pub mod descriptor;
pub mod color_attachment;
pub mod depth_stencil_attachment;
pub mod builder;
pub mod laws;

pub use builder::Builder;
pub use color_attachment::ColorAttachmentDescriptorBuilder;
pub use depth_stencil_attachment::DepthStencilAttachmentDescriptorBuilder;
pub use descriptor::{
    Attachments, ColorAttachmentDescriptor, DepthStencilAttachmentDescriptor,
    RenderPassDescriptor, TextureView,
};
pub use operations::{
    default_color_ops, default_depth_ops, default_stencil_ops, AttachmentOperations, Color,
    Depth, LoadAction, DEPTH_ONE_BITS,
};
