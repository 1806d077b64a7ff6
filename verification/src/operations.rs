//! Load and store operations of an attachment, and the values it can be cleared to.
//!
//! Clear values that are real numbers are held as their IEEE 754 bit patterns, so that they
//! are compared and copied exactly.

use vstd::prelude::*;

verus! {

/// What happens to the contents of an attachment when a render pass starts.
#[derive(Debug, PartialEq, Eq)]
pub enum LoadAction<T> {
    /// The attachment is cleared to the given value.
    Clear(T),
    /// The existing contents are kept.
    Load,
}

impl<T: Copy> Clone for LoadAction<T> {
    fn clone(&self) -> (out: Self)
        ensures
            out == *self,
    {
        *self
    }
}

impl<T: Copy> Copy for LoadAction<T> {
}

/// The operations performed on an attachment at the start and at the end of a render pass.
#[derive(Debug, PartialEq, Eq)]
pub struct AttachmentOperations<T> {
    /// How the contents are treated when the pass starts.
    pub load: LoadAction<T>,
    /// Whether the contents are written back when the pass ends.
    pub store: bool,
}

impl<T: Copy> Clone for AttachmentOperations<T> {
    fn clone(&self) -> (out: Self)
        ensures
            out == *self,
    {
        *self
    }
}

impl<T: Copy> Copy for AttachmentOperations<T> {
}

/// An RGBA colour. Each channel holds the IEEE 754 binary64 bit pattern of its value.
#[derive(Clone, Copy, Debug, PartialEq, Eq)]
pub struct Color {
    pub r: u64,
    pub g: u64,
    pub b: u64,
    pub a: u64,
}

impl Color {
    /// Black with zero alpha: every channel is `0.0`, whose bit pattern is zero.
    pub open spec fn spec_transparent() -> Color {
        Color { r: 0, g: 0, b: 0, a: 0 }
    }

    /// Black with zero alpha.
    #[verifier::when_used_as_spec(spec_transparent)]
    pub fn transparent() -> (color: Color)
        ensures
            color == Color::spec_transparent(),
    {
        Color { r: 0, g: 0, b: 0, a: 0 }
    }
}

/// The IEEE 754 binary32 bit pattern of `1.0`, the farthest depth.
pub const DEPTH_ONE_BITS: u32 = 0x3F80_0000;

/// A depth value, held as the IEEE 754 binary32 bit pattern of the number.
#[derive(Clone, Copy, Debug, PartialEq, Eq)]
pub struct Depth {
    pub bits: u32,
}

impl Depth {
    /// The depth `1.0`.
    pub open spec fn spec_one() -> Depth {
        Depth { bits: DEPTH_ONE_BITS }
    }

    /// The depth `1.0`.
    #[verifier::when_used_as_spec(spec_one)]
    pub fn one() -> (depth: Depth)
        ensures
            depth == Depth::spec_one(),
    {
        Depth { bits: DEPTH_ONE_BITS }
    }
}

/// The operations of a colour attachment that nobody configured:
/// clear to transparent black, and store.
pub open spec fn spec_default_color_ops() -> AttachmentOperations<Color> {
    AttachmentOperations { load: LoadAction::Clear(Color::spec_transparent()), store: true }
}

/// The operations of a colour attachment that nobody configured.
#[verifier::when_used_as_spec(spec_default_color_ops)]
pub fn default_color_ops() -> (ops: AttachmentOperations<Color>)
    ensures
        ops == spec_default_color_ops(),
        ops.load == LoadAction::Clear(Color { r: 0, g: 0, b: 0, a: 0 }),
        ops.store,
{
    AttachmentOperations { load: LoadAction::Clear(Color::transparent()), store: true }
}

/// The depth operations of a depth/stencil attachment that nobody configured:
/// clear to `1.0`, and store.
pub open spec fn spec_default_depth_ops() -> AttachmentOperations<Depth> {
    AttachmentOperations { load: LoadAction::Clear(Depth::spec_one()), store: true }
}

/// The depth operations of a depth/stencil attachment that nobody configured.
#[verifier::when_used_as_spec(spec_default_depth_ops)]
pub fn default_depth_ops() -> (ops: AttachmentOperations<Depth>)
    ensures
        ops == spec_default_depth_ops(),
        ops.load == LoadAction::Clear(Depth { bits: 0x3F80_0000 }),
        ops.store,
{
    AttachmentOperations { load: LoadAction::Clear(Depth::one()), store: true }
}

/// The stencil operations of a depth/stencil attachment that nobody configured:
/// clear to `0`, and store.
pub open spec fn spec_default_stencil_ops() -> AttachmentOperations<u32> {
    AttachmentOperations { load: LoadAction::Clear(0u32), store: true }
}

/// The stencil operations of a depth/stencil attachment that nobody configured.
#[verifier::when_used_as_spec(spec_default_stencil_ops)]
pub fn default_stencil_ops() -> (ops: AttachmentOperations<u32>)
    ensures
        ops == spec_default_stencil_ops(),
        ops.load == LoadAction::Clear(0u32),
        ops.store,
{
    AttachmentOperations { load: LoadAction::Clear(0), store: true }
}

} // verus!
