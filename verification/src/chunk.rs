//! Addressing of the terrain grid: root quads, cell positions, cells and
//! chunks.

use vstd::prelude::*;
use crate::GlobeError;

verus! {

/// Integer grid coordinate of a cell within a root quad.
pub type IntCoord = u64;

/// Index type for a root quad.
pub type RootIndex = u8;

/// The sphere is tiled by this many root quads.
pub const ROOT_QUADS: u8 = 5;

/// One of the five rhombus-shaped regions tiling the icosahedron's surface.
/// Its index is always below `ROOT_QUADS`.
#[derive(Clone, Copy, Debug, PartialEq, Eq, Structural)]
pub struct Root {
    index: RootIndex,
}

impl Root {
    /// The quad's index, as a spec-level value.
    pub closed spec fn idx(self) -> int {
        self.index as int
    }

    /// A root quad is well formed when its index is in range.
    pub open spec fn wf(self) -> bool {
        0 <= self.idx() < ROOT_QUADS
    }

    /// Builds the root quad with the given index. An out-of-range index is a
    /// programming error, so it is excluded up front rather than reported.
    pub fn new(index: RootIndex) -> (r: Root)
        requires
            index < ROOT_QUADS,
        ensures
            r.wf(),
            r.idx() == index,
    {
        Root { index }
    }

    /// Builds the root quad with the given index, refusing an out-of-range
    /// one, for callers that cannot vouch for the index themselves.
    pub fn try_new(index: RootIndex) -> (r: Result<Root, GlobeError>)
        ensures
            r is Ok <==> index < ROOT_QUADS,
            r is Ok ==> r->Ok_0.wf() && r->Ok_0.idx() == index,
            r is Err ==> r->Err_0 == GlobeError::InvalidRootIndex,
    {
        if index < ROOT_QUADS {
            Ok(Root::new(index))
        } else {
            Err(GlobeError::InvalidRootIndex)
        }
    }

    /// Two root quads with the same index are the same value.
    pub proof fn lemma_eq(a: Root, b: Root)
        requires
            a.idx() == b.idx(),
        ensures
            a == b,
    {
    }

    /// The quad's index.
    pub fn index(&self) -> (i: RootIndex)
        ensures
            i == self.idx(),
    {
        self.index
    }
}

/// Integer grid coordinates of a cell's origin within its root quad's
/// logical grid. Two positions with equal fields are the same position.
#[derive(Clone, Copy, Debug, PartialEq, Eq, Structural)]
pub struct CellPos {
    pub root: Root,
    pub x: IntCoord,
    pub y: IntCoord,
}

/// The smallest addressable unit of the terrain grid. Its height is set once
/// at construction from the noise field and never changes.
///
/// The height is a fixed-point value in millionths: `1_000_000` stands for
/// the nominal sphere surface, and heights stay within ten percent of it.
#[derive(Clone, Copy, Debug, PartialEq, Eq, Structural)]
pub struct Cell {
    pub height: u64,
}

/// A square block of cells, stored row-major from the chunk's origin; the
/// order of `cells` matches the spatial layout.
#[derive(Debug)]
pub struct Chunk {
    pub origin: CellPos,
    pub cells: Vec<Cell>,
}

} // verus!
