//! What the library needs to know of the pass that a pipeline renders in.

use vstd::prelude::*;

verus! {

/// Represents a subpass within a render pass: the attachments that the
/// subpass reads and writes.
#[derive(Debug, Copy, Clone, PartialEq, Eq, Hash, Structural)]
pub struct Subpass {
    /// The number that identifies the native render pass.
    pub render_pass: u64,
    /// The index of the subpass in its render pass.
    pub subpass_id: u32,
    /// The number of color attachments of the subpass.
    pub num_color_attachments: u32,
    /// True if the subpass has a depth attachment or a depth-stencil
    /// attachment.
    pub has_depth: bool,
    /// True if the subpass has a depth attachment or a depth-stencil
    /// attachment whose layout is not read-only.
    pub has_writable_depth: bool,
    /// True if the subpass has a stencil attachment or a depth-stencil
    /// attachment.
    pub has_stencil: bool,
    /// True if the subpass has a stencil attachment or a depth-stencil
    /// attachment whose layout is not read-only.
    pub has_writable_stencil: bool,
    /// True if the render pass renders to several views at once.
    pub multiview: bool,
}

impl Subpass {
    /// Returns the number of color attachments in this subpass.
    #[inline]
    pub fn num_color_attachments(&self) -> (r: u32)
        ensures
            r == self.num_color_attachments,
    {
        self.num_color_attachments
    }

    /// Returns true if the subpass has a depth attachment or a
    /// depth-stencil attachment.
    #[inline]
    pub fn has_depth(&self) -> (r: bool)
        ensures
            r == self.has_depth,
    {
        self.has_depth
    }

    /// Returns true if the subpass has a depth attachment or a
    /// depth-stencil attachment whose layout is not read-only.
    #[inline]
    pub fn has_writable_depth(&self) -> (r: bool)
        ensures
            r == self.has_writable_depth,
    {
        self.has_writable_depth
    }

    /// Returns true if the subpass has a stencil attachment or a
    /// depth-stencil attachment.
    #[inline]
    pub fn has_stencil(&self) -> (r: bool)
        ensures
            r == self.has_stencil,
    {
        self.has_stencil
    }

    /// Returns true if the subpass has a stencil attachment or a
    /// depth-stencil attachment whose layout is not read-only.
    #[inline]
    pub fn has_writable_stencil(&self) -> (r: bool)
        ensures
            r == self.has_writable_stencil,
    {
        self.has_writable_stencil
    }
}

} // verus!
