//! The spatial index of occupied road tiles.
//!
//! A tile is identified by its lattice coordinate `(x, y)`; the index
//! answers "is this tile drivable road" in O(1) amortized time.  It is
//! filled once during road generation and then only read.
//!
//! Internally each coordinate pair is packed into one `u64` key so the
//! backing `HashSet` can use a primitive key type.

use vstd::prelude::*;
use std::collections::HashSet;

verus! {

/// Packs a lattice coordinate into the backing set's key.
pub open spec fn tile_key(x: i32, y: i32) -> u64 {
    ((x as u32 as u64) << 32u64) | (y as u32 as u64)
}

/// Packing is injective: distinct coordinates get distinct keys.
pub proof fn lemma_tile_key_injective(x1: i32, y1: i32, x2: i32, y2: i32)
    ensures
        tile_key(x1, y1) == tile_key(x2, y2) ==> x1 == x2 && y1 == y2,
{
    assert(tile_key(x1, y1) == tile_key(x2, y2) ==> x1 == x2 && y1 == y2) by (bit_vector);
}

/// The set of occupied road-tile coordinates.
pub struct TileIndex {
    cells: HashSet<u64>,
}

impl TileIndex {
    /// The packed keys currently in the index.
    pub closed spec fn keys(&self) -> Set<u64> {
        self.cells@
    }

    /// Whether the lattice coordinate `(x, y)` is drivable road.
    pub open spec fn has_tile(&self, x: i32, y: i32) -> bool {
        self.keys().contains(tile_key(x, y))
    }

    /// An empty index.
    pub fn new() -> (t: TileIndex)
        ensures
            t.keys() == Set::<u64>::empty(),
    {
        TileIndex { cells: HashSet::new() }
    }

    /// Marks `(x, y)` as road.
    pub fn insert(&mut self, x: i32, y: i32)
        ensures
            final(self).keys() == old(self).keys().insert(tile_key(x, y)),
    {
        self.cells.insert(tile_key_exec(x, y));
    }

    /// Whether `(x, y)` is road.
    pub fn contains(&self, x: i32, y: i32) -> (r: bool)
        ensures
            r == self.has_tile(x, y),
    {
        self.cells.contains(&tile_key_exec(x, y))
    }

    /// How many tiles the index holds.
    pub fn len(&self) -> (n: usize)
        ensures
            n == self.keys().len(),
    {
        self.cells.len()
    }
}

/// Executable twin of [`tile_key`].
fn tile_key_exec(x: i32, y: i32) -> (k: u64)
    ensures
        k == tile_key(x, y),
{
    ((x as u32 as u64) << 32u64) | (y as u32 as u64)
}

} // verus!
