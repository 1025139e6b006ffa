//! Assembling vertices into primitives.

use vstd::prelude::*;

verus! {

/// Describes how vertices must be grouped together to form primitives.
#[derive(Debug, Copy, Clone, PartialEq, Eq, Hash, Structural)]
pub enum PrimitiveTopology {
    PointList,
    LineList,
    LineStrip,
    TriangleList,
    TriangleStrip,
    TriangleFan,
    LineListWithAdjacency,
    LineStripWithAdjacency,
    TriangleListWithAdjacency,
    TriangleStripWithAdjacency,
    PatchList { vertices_per_patch: u32 },
}

impl PrimitiveTopology {
    /// Whether the topology supports using primitives restart: the strips
    /// and the fan do, the lists don't.
    pub open spec fn spec_supports_primitive_restart(self) -> bool {
        ||| self is LineStrip
        ||| self is TriangleStrip
        ||| self is TriangleFan
        ||| self is LineStripWithAdjacency
        ||| self is TriangleStripWithAdjacency
    }

    /// Returns true if the topology supports using primitives restart.
    #[inline]
    pub fn supports_primitive_restart(&self) -> (r: bool)
        ensures
            r == self.spec_supports_primitive_restart(),
    {
        match *self {
            PrimitiveTopology::LineStrip => true,
            PrimitiveTopology::TriangleStrip => true,
            PrimitiveTopology::TriangleFan => true,
            PrimitiveTopology::LineStripWithAdjacency => true,
            PrimitiveTopology::TriangleStripWithAdjacency => true,
            _ => false,
        }
    }
}

} // verus!
