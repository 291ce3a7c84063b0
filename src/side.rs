use vstd::prelude::*;

verus! {

/// Whether an option pays on a rise (call) or a fall (put) of the spot.
#[derive(Clone, Copy, Debug, PartialEq, Eq, Structural)]
pub enum Side {
    Call,
    Put,
}

/// One of the two truncated edges of the spatial grid.
#[derive(Clone, Copy, Debug, PartialEq, Eq, Structural)]
pub enum Edge {
    /// The lowest log-moneyness node (spot towards zero).
    Minus,
    /// The highest log-moneyness node (spot towards infinity).
    Plus,
}

impl Side {
    /// The numeric sign of the side: +1 for a call, -1 for a put.
    pub open spec fn spec_sign(self) -> int {
        match self {
            Side::Call => 1,
            Side::Put => -1,
        }
    }

    pub fn sign(&self) -> (r: i8)
        ensures
            r == self.spec_sign(),
    {
        match self {
            Side::Call => 1,
            Side::Put => -1,
        }
    }

    /// Whether the option's value vanishes at that edge of the grid: a call's
    /// as the spot falls to zero, a put's as the spot grows without bound.
    pub open spec fn spec_vanishes_at(self, edge: Edge) -> bool {
        (self == Side::Call && edge == Edge::Minus) || (self == Side::Put && edge == Edge::Plus)
    }

    pub fn vanishes_at(&self, edge: Edge) -> (r: bool)
        ensures
            r == self.spec_vanishes_at(edge),
    {
        match (self, edge) {
            (Side::Call, Edge::Minus) => true,
            (Side::Put, Edge::Plus) => true,
            _ => false,
        }
    }
}

/// Each side vanishes at exactly one edge, and the two sides at opposite ones.
pub proof fn lemma_vanishing_edges(side: Side)
    ensures
        side.spec_vanishes_at(Edge::Minus) != side.spec_vanishes_at(Edge::Plus),
        Side::Call.spec_vanishes_at(Edge::Minus),
        Side::Put.spec_vanishes_at(Edge::Plus),
{
}

} // verus!
