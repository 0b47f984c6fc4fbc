use vstd::prelude::*;

verus! {

/// One coordinate of a point, in micrometres.
#[derive(Debug, Clone, Copy, PartialEq, Eq, Structural)]
pub enum Coord {
    /// Measured from the page origin.
    OffZero(i64),
    /// Measured inward from the far edge of the page along the same axis.
    OffFarEdge(i64),
}

impl Coord {
    /// The absolute position of this coordinate on an axis of length `dim`.
    pub open spec fn at(self, dim: int) -> int {
        match self {
            Coord::OffZero(v) => v as int,
            Coord::OffFarEdge(v) => dim - v,
        }
    }

    /// Resolves the coordinate against an axis of length `dim`; no clamping.
    pub fn resolve(&self, dim: i32) -> (r: i128)
        ensures
            r == self.at(dim as int),
    {
        match *self {
            Coord::OffZero(v) => v as i128,
            Coord::OffFarEdge(v) => dim as i128 - v as i128,
        }
    }
}

/// A far-edge coordinate lies exactly its offset short of the axis length.
pub proof fn lemma_far_edge_offset(v: i64, dim: int)
    ensures
        Coord::OffFarEdge(v).at(dim) + v == dim,
{
}

} // verus!
