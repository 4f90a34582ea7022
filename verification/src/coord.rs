//! Axial hex coordinates.

use vstd::prelude::*;

verus! {

/// The integer type of one axis of a tile coordinate.
pub type TileUnit = i32;

/// An axial hex coordinate `(q, r)`, ordered by `q` first and `r` second.
#[derive(Clone, Copy, Debug, PartialEq, Eq, Hash, PartialOrd, Ord, Structural)]
pub struct TileCoord {
    pub q: TileUnit,
    pub r: TileUnit,
}

impl TileCoord {
    /// The number that stands for this coordinate where a map is keyed by an
    /// integer: both axes shifted to be non-negative, `q` in the upper half.
    pub open spec fn key(self) -> int {
        (self.q + 0x8000_0000) * 0x1_0000_0000 + (self.r + 0x8000_0000)
    }

    /// Whether `self` comes before `other` in the order by `(q, r)`.
    pub open spec fn precedes(self, other: TileCoord) -> bool {
        self.q < other.q || (self.q == other.q && self.r < other.r)
    }

    pub fn new(q: TileUnit, r: TileUnit) -> (coord: TileCoord)
        ensures
            coord == (TileCoord { q, r }),
    {
        TileCoord { q, r }
    }

    pub fn q(&self) -> (q: TileUnit)
        ensures
            q == self.q,
    {
        self.q
    }

    pub fn r(&self) -> (r: TileUnit)
        ensures
            r == self.r,
    {
        self.r
    }

    /// The origin.
    pub fn zero() -> (coord: TileCoord)
        ensures
            coord == (TileCoord { q: 0, r: 0 }),
    {
        TileCoord { q: 0, r: 0 }
    }

    /// The neighbour above and to the right.
    pub fn top_right() -> (coord: TileCoord)
        ensures
            coord == (TileCoord { q: 0, r: 1 }),
    {
        TileCoord { q: 0, r: 1 }
    }

    /// The neighbour to the right.
    pub fn right() -> (coord: TileCoord)
        ensures
            coord == (TileCoord { q: 1, r: 0 }),
    {
        TileCoord { q: 1, r: 0 }
    }

    /// The neighbour below and to the right.
    pub fn bottom_right() -> (coord: TileCoord)
        ensures
            coord == (TileCoord { q: 1, r: -1i32 }),
    {
        TileCoord { q: 1, r: -1 }
    }

    /// The neighbour below and to the left.
    pub fn bottom_left() -> (coord: TileCoord)
        ensures
            coord == (TileCoord { q: 0, r: -1i32 }),
    {
        TileCoord { q: 0, r: -1 }
    }

    /// The neighbour to the left.
    pub fn left() -> (coord: TileCoord)
        ensures
            coord == (TileCoord { q: -1i32, r: 0 }),
    {
        TileCoord { q: -1, r: 0 }
    }

    /// The neighbour above and to the left.
    pub fn top_left() -> (coord: TileCoord)
        ensures
            coord == (TileCoord { q: -1i32, r: 1 }),
    {
        TileCoord { q: -1, r: 1 }
    }

    /// Computes [`TileCoord::key`].
    pub fn to_key(&self) -> (k: u64)
        ensures
            k == self.key(),
    {
        let q: u64 = (self.q as i64 + 0x8000_0000) as u64;
        let r: u64 = (self.r as i64 + 0x8000_0000) as u64;
        q * 0x1_0000_0000 + r
    }

    /// Two coordinates share a key only if they are the same coordinate, and
    /// keys are ordered as the coordinates are.
    pub proof fn lemma_key_faithful(a: TileCoord, b: TileCoord)
        ensures
            a.key() == b.key() <==> a == b,
            a.key() < b.key() <==> a.precedes(b),
    {
    }
}

} // verus!
