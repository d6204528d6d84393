//! Procedural road generation.
//!
//! The generator walks rows from a small negative bound up to the top of
//! the track.  Every fifth row the lateral offset takes one bounded
//! random-walk step in `{-1, 0, +1}`; between steps it is held constant,
//! so the road is made of straight 5-row segments joined by gentle one-tile
//! shifts.  Each row contributes a contiguous run of `ROAD_WIDTH_TILES + 1`
//! tiles to the [`TileIndex`], plus randomly placed obstacles, roadside
//! decorations and curve markers.

use vstd::prelude::*;
use crate::rng::SimRng;
use crate::tiles::{TileIndex, tile_key, lemma_tile_key_injective};

verus! {

/// Width of the road, in tiles beyond the first (a row spans
/// `ROAD_WIDTH_TILES + 1` tiles).
pub const ROAD_WIDTH_TILES: i32 = 5;

/// Lattice row of the finish line.
pub const ROAD_TOP_ROW: i32 = 600;

/// Lattice row where generation starts (a little behind the spawn point).
pub const ROAD_BOTTOM_ROW: i32 = -10;

/// Number of generated rows (`ROAD_BOTTOM_ROW ..= ROAD_TOP_ROW`).
pub const ROW_COUNT: usize = 611;

/// Size of one tile in milli-units (16 texels at scale 5, so 80 world
/// units).
pub const TILE_MU: i64 = 80_000;

/// Rows at or below this index stay obstacle-free so the start is clear.
pub const OBSTACLE_FREE_ROWS: i32 = 30;

/// The model of static vehicle obstacle placed on the road.
#[derive(Clone, Copy, PartialEq, Eq, Structural, Debug)]
pub enum ObstacleKind {
    Car1,
    Car2,
    Car3,
}

/// A static obstacle, fixed to a road tile for the whole run.
#[derive(Clone, Copy, PartialEq, Eq, Structural, Debug)]
pub struct Obstacle {
    /// Lattice column of the tile the obstacle sits on.
    pub tile_x: i32,
    /// Lattice row of the tile the obstacle sits on.
    pub row: i32,
    /// Which vehicle model blocks the road here.
    pub kind: ObstacleKind,
}

impl ObstacleKind {
    /// Maps the two weighted draws to a vehicle model: with the first
    /// draw under 700 of 1000, the second picks uniformly among the
    /// three models; otherwise the heaviest model is placed.
    pub fn from_draws(sel: i64, t: i64) -> (kind: ObstacleKind)
        requires
            0 <= sel <= 999,
            0 <= t <= 2,
        ensures
            sel < 700 && t == 0 ==> kind is Car1,
            sel < 700 && t == 1 ==> kind is Car2,
            sel < 700 && t == 2 ==> kind is Car3,
            sel >= 700 ==> kind is Car3,
    {
        if sel < 700 {
            if t == 0 {
                ObstacleKind::Car1
            } else if t == 1 {
                ObstacleKind::Car2
            } else {
                ObstacleKind::Car3
            }
        } else {
            ObstacleKind::Car3
        }
    }

    /// Sprite-sheet index of this vehicle model, for the renderer.
    pub fn sprite_idx(&self) -> (idx: usize)
        ensures
            self is Car1 ==> idx == 60,
            self is Car2 ==> idx == 61,
            self is Car3 ==> idx == 62,
    {
        match self {
            ObstacleKind::Car1 => 60,
            ObstacleKind::Car2 => 61,
            ObstacleKind::Car3 => 62,
        }
    }
}

impl Obstacle {
    /// Placement bounds that every generated obstacle satisfies.
    pub open spec fn wf(&self) -> bool {
        &&& OBSTACLE_FREE_ROWS < self.row <= ROAD_TOP_ROW
        &&& -700 <= self.tile_x <= 700
    }

    /// World x position, in milli-units.
    pub fn x_mu(&self) -> (x: i64)
        requires
            self.wf(),
        ensures
            x == self.tile_x * TILE_MU,
    {
        (self.tile_x as i64) * TILE_MU
    }

    /// World y position, in milli-units.
    pub fn y_mu(&self) -> (y: i64)
        requires
            self.wf(),
        ensures
            y == self.row * TILE_MU,
    {
        (self.row as i64) * TILE_MU
    }
}

/// What a non-colliding decorative tile stands for.
#[derive(Clone, Copy, PartialEq, Eq, Structural, Debug)]
pub enum DecorKind {
    /// Scenery just outside the road edge.
    Roadside,
    /// Part of the full-width finish-line cap on the topmost two rows.
    Cap,
}

/// A decorative, non-colliding tile.
#[derive(Clone, Copy, PartialEq, Eq, Structural, Debug)]
pub struct Decoration {
    /// Lattice row the decoration belongs to.
    pub row: i32,
    /// World x position, in milli-units.
    pub x_mu: i64,
    /// Whether this is roadside scenery or finish-line cap.
    pub kind: DecorKind,
}

/// Which transition a curve marker smooths over.
#[derive(Clone, Copy, PartialEq, Eq, Structural, Debug)]
pub enum CurveKind {
    /// The next segment shifts left (checked with `offset - n_offset`).
    EnterLeft,
    /// The next segment shifts right.
    EnterRight,
    /// This segment arrived from a shift left (checked with
    /// `offset - p_offset`).
    ExitLeft,
    /// This segment arrived from a shift right.
    ExitRight,
}

/// A visual marker joining two laterally shifted segments.
#[derive(Clone, Copy, PartialEq, Eq, Structural, Debug)]
pub struct CurveMarker {
    /// Lattice row the marker sits on.
    pub row: i32,
    /// World x position, in milli-units.
    pub x_mu: i64,
    /// Which transition the marker smooths over.
    pub kind: CurveKind,
}

/// Whether `(x, y)` lies on the road described by the per-row lateral
/// offsets: row `y` holds exactly the contiguous tile run
/// `[offsets[y + 10], offsets[y + 10] + ROAD_WIDTH_TILES]`.
pub open spec fn tile_on_road(offsets: Seq<i32>, x: i32, y: i32) -> bool {
    &&& ROAD_BOTTOM_ROW <= y
    &&& y + 10 < offsets.len()
    &&& offsets[y + 10] <= x <= offsets[y + 10] + ROAD_WIDTH_TILES
}

/// Shape of the per-row offsets: bounded, constant within each 5-row
/// segment, and shifting by at most one tile at segment boundaries.
pub open spec fn offsets_wf(offsets: Seq<i32>) -> bool {
    &&& forall|k: int|
        1 <= k < offsets.len() ==> -1 <= #[trigger] offsets[k] - offsets[k - 1] <= 1
    &&& forall|k: int|
        1 <= k < offsets.len() && (k % 5 != 0 || k == 610) ==> #[trigger] offsets[k] == offsets[k
            - 1]
    &&& forall|k: int| 0 <= k < offsets.len() ==> -613 <= #[trigger] offsets[k] <= 613
}

/// Everything one run's generation produces.
pub struct RoadLayout {
    /// Lateral offset of each row, indexed by `row - ROAD_BOTTOM_ROW`.
    pub offsets: Vec<i32>,
    /// The occupied road tiles.
    pub tiles: TileIndex,
    /// Static obstacles, queried by collision.
    pub obstacles: Vec<Obstacle>,
    /// Decorative tiles (roadside scenery and the finish-line cap).
    pub decorations: Vec<Decoration>,
    /// Curve markers joining shifted segments.
    pub curves: Vec<CurveMarker>,
}

impl RoadLayout {
    /// The invariants that [`generate_road`] establishes and that the rest
    /// of the simulation relies on.
    pub open spec fn wf(&self) -> bool {
        &&& self.offsets@.len() == ROW_COUNT
        &&& self.offsets@[0] == 0
        &&& offsets_wf(self.offsets@)
        &&& forall|x: i32, y: i32|
            self.tiles.has_tile(x, y) <==> tile_on_road(self.offsets@, x, y)
        &&& forall|k: int|
            0 <= k < self.obstacles@.len() ==> {
                let ob = #[trigger] self.obstacles@[k];
                &&& ob.wf()
                &&& self.offsets@[ob.row + 10] <= ob.tile_x <= self.offsets@[ob.row + 10] + 3
            }
        &&& forall|k: int|
            0 <= k < self.decorations@.len() ==> {
                let d = #[trigger] self.decorations@[k];
                &&& ROAD_BOTTOM_ROW <= d.row <= ROAD_TOP_ROW
                &&& (d.kind is Roadside ==> d.x_mu < self.offsets@[d.row + 10] * TILE_MU
                    || d.x_mu > (self.offsets@[d.row + 10] + ROAD_WIDTH_TILES) * TILE_MU)
                &&& (d.kind is Cap ==> ROAD_TOP_ROW - 1 <= d.row <= ROAD_TOP_ROW)
            }
        &&& forall|k: int|
            0 <= k < self.curves@.len() ==> ROAD_BOTTOM_ROW <= (
            #[trigger] self.curves@[k]).row <= ROAD_TOP_ROW
    }

    /// Every generated obstacle sits on a drivable road tile.
    pub proof fn lemma_obstacles_on_road(&self, k: int)
        requires
            self.wf(),
            0 <= k < self.obstacles@.len(),
        ensures
            self.tiles.has_tile(self.obstacles@[k].tile_x, self.obstacles@[k].row),
    {
    }
}

/// Generates the road for one run: the tile index, the obstacles, the
/// decorations and the curve markers, reproducibly from the generator's
/// seed.  Generation cannot fail; it is purely constructive.
#[verifier::rlimit(80)]
pub fn generate_road(rng: &mut SimRng) -> (layout: RoadLayout)
    ensures
        layout.wf(),
{
    let mut offsets: Vec<i32> = Vec::new();
    let mut tiles = TileIndex::new();
    let mut obstacles: Vec<Obstacle> = Vec::new();
    let mut decorations: Vec<Decoration> = Vec::new();
    let mut curves: Vec<CurveMarker> = Vec::new();

    let mut offset: i32 = 0;
    let mut n_offset: i32 = 0;
    let mut p_offset: i32 = 0;

    let mut r: usize = 0;
    while r < ROW_COUNT
        invariant
            r <= ROW_COUNT,
            offsets@.len() == r,
            -(r as int) - 2 <= offset <= r as int + 2,
            -(r as int) - 2 <= n_offset <= r as int + 2,
            -(r as int) - 2 <= p_offset <= r as int + 2,
            -1 <= n_offset - offset <= 1,
            r > 0 ==> offsets@[r - 1] == offset,
            r == 0 ==> offset == 0 && n_offset == 0,
            offsets_wf(offsets@),
            r > 0 ==> offsets@[0] == 0,
            forall|x: i32, y: i32|
                tiles.has_tile(x, y) <==> (ROAD_BOTTOM_ROW <= y && y + 10 < r as int
                    && offsets@[y + 10] <= x <= offsets@[y + 10] + ROAD_WIDTH_TILES),
            forall|k: int|
                0 <= k < obstacles@.len() ==> {
                    let ob = #[trigger] obstacles@[k];
                    &&& ob.wf()
                    &&& ob.row + 10 < r as int
                    &&& offsets@[ob.row + 10] <= ob.tile_x <= offsets@[ob.row + 10] + 3
                },
            forall|k: int|
                0 <= k < decorations@.len() ==> {
                    let d = #[trigger] decorations@[k];
                    &&& ROAD_BOTTOM_ROW <= d.row <= ROAD_TOP_ROW
                    &&& d.row + 10 < r as int
                    &&& (d.kind is Roadside ==> d.x_mu < offsets@[d.row + 10] * TILE_MU
                        || d.x_mu > (offsets@[d.row + 10] + ROAD_WIDTH_TILES) * TILE_MU)
                    &&& (d.kind is Cap ==> ROAD_TOP_ROW - 1 <= d.row <= ROAD_TOP_ROW)
                },
            forall|k: int|
                0 <= k < curves@.len() ==> ROAD_BOTTOM_ROW <= (#[trigger] curves@[k]).row
                    <= ROAD_TOP_ROW,
        decreases ROW_COUNT - r,
    {
        let j: i32 = (r as i32) - 10;
        let is_top = j == ROAD_TOP_ROW || j == ROAD_TOP_ROW - 1;

        // The lateral offset steps once per 5-row segment.
        if r % 5 == 0 && !is_top {
            p_offset = offset;
            offset = n_offset;
            let d = rng.next_in(-1, 1) as i32;
            n_offset = n_offset + d;
        }
        offsets.push(offset);

        // Finish-line cap: the topmost two rows get a full-width row of
        // cap tiles on top of the regular road tiles.
        if is_top {
            let mut a: i32 = 0;
            while a <= ROAD_WIDTH_TILES
                invariant
                    0 <= a <= ROAD_WIDTH_TILES + 1,
                    -613 <= offset <= 613,
                    ROAD_TOP_ROW - 1 <= j <= ROAD_TOP_ROW,
                    j == r as int - 10,
                    r < ROW_COUNT,
                    forall|k: int|
                        0 <= k < decorations@.len() ==> {
                            let d = #[trigger] decorations@[k];
                            &&& ROAD_BOTTOM_ROW <= d.row <= ROAD_TOP_ROW
                            &&& d.row + 10 < r as int + 1
                            &&& (d.kind is Roadside ==> d.x_mu < offsets@[d.row + 10] * TILE_MU
                                || d.x_mu > (offsets@[d.row + 10] + ROAD_WIDTH_TILES) * TILE_MU)
                            &&& (d.kind is Cap ==> ROAD_TOP_ROW - 1 <= d.row <= ROAD_TOP_ROW)
                        },
                decreases ROAD_WIDTH_TILES + 1 - a,
            {
                decorations.push(
                    Decoration {
                        row: j,
                        x_mu: ((offset + a) as i64) * TILE_MU,
                        kind: DecorKind::Cap,
                    },
                );
                a = a + 1;
            }
        }

        // Entering-curve check: just before a segment boundary, a marker
        // smooths the shift into the next segment.
        if (r + 1) % 5 == 0 && !is_top {
            if offset - n_offset == 1 {
                curves.push(
                    CurveMarker {
                        row: j,
                        x_mu: ((offset - 1) as i64) * TILE_MU + 10_000,
                        kind: CurveKind::EnterLeft,
                    },
                );
            } else if offset - n_offset == -1 {
                curves.push(
                    CurveMarker {
                        row: j,
                        x_mu: ((n_offset + ROAD_WIDTH_TILES) as i64) * TILE_MU - 10_000,
                        kind: CurveKind::EnterRight,
                    },
                );
            }
        }

        // Obstacles: probability 0.1 per row, only after the start area.
        if j > OBSTACLE_FREE_ROWS {
            if rng.per_mille() >= 900 {
                let lat = rng.next_in((offset + 1) as i64, (offset + 4) as i64) as i32;
                let kind = ObstacleKind::from_draws(rng.per_mille(), rng.next_in(0, 2));
                obstacles.push(Obstacle { tile_x: lat - 1, row: j, kind });
            }
        }

        // Roadside decorations: probability 0.4 per row, on either side.
        if rng.per_mille() >= 600 {
            let d = rng.next_in(1, 2) as i32;
            let mut x_mu: i64 = ((offset - 2 - d) as i64) * TILE_MU;
            if rng.per_mille() >= 500 {
                x_mu = x_mu + 2 * (ROAD_WIDTH_TILES as i64) * TILE_MU;
                x_mu = x_mu + rng.next_in(TILE_MU, 3 * TILE_MU - 1);
            }
            decorations.push(Decoration { row: j, x_mu, kind: DecorKind::Roadside });
        }

        // Exiting-curve check: at a segment boundary, a marker smooths the
        // shift out of the previous segment.
        if r % 5 == 0 && !is_top {
            if offset - p_offset == 1 {
                curves.push(
                    CurveMarker {
                        row: j,
                        x_mu: ((offset - 1) as i64) * TILE_MU + 10_000,
                        kind: CurveKind::ExitLeft,
                    },
                );
            } else if offset - p_offset == -1 {
                curves.push(
                    CurveMarker {
                        row: j,
                        x_mu: ((offset + 1 + ROAD_WIDTH_TILES) as i64) * TILE_MU - 10_000,
                        kind: CurveKind::ExitRight,
                    },
                );
            }
        }

        // The row's tiles: a contiguous run of ROAD_WIDTH_TILES + 1 tiles
        // at the current offset.
        let mut i: i32 = 0;
        while i <= ROAD_WIDTH_TILES
            invariant
                0 <= i <= ROAD_WIDTH_TILES + 1,
                -613 <= offset <= 613,
                offsets@.len() == r + 1,
                offsets@[r as int] == offset,
                j == r as int - 10,
                r < ROW_COUNT,
                forall|x: i32, y: i32|
                    tiles.has_tile(x, y) <==> ((ROAD_BOTTOM_ROW <= y && y + 10 < r as int
                        && offsets@[y + 10] <= x <= offsets@[y + 10] + ROAD_WIDTH_TILES) || (y == j
                        && offset <= x < offset + i)),
            decreases ROAD_WIDTH_TILES + 1 - i,
        {
            let x0: i32 = offset + i;
            let ghost pre = tiles;
            tiles.insert(x0, j);
            proof {
                assert forall|x: i32, y: i32|
                    tiles.has_tile(x, y) <==> ((ROAD_BOTTOM_ROW <= y && y + 10 < r as int
                        && offsets@[y + 10] <= x <= offsets@[y + 10] + ROAD_WIDTH_TILES) || (y == j
                        && offset <= x < offset + i + 1)) by {
                    assert(tiles.keys() == pre.keys().insert(tile_key(x0, j)));
                    assert(pre.has_tile(x, y) <==> ((ROAD_BOTTOM_ROW <= y && y + 10 < r as int
                        && offsets@[y + 10] <= x <= offsets@[y + 10] + ROAD_WIDTH_TILES) || (y == j
                        && offset <= x < offset + i)));
                    lemma_tile_key_injective(x, y, x0, j);
                }
            }
            i = i + 1;
        }

        r = r + 1;
    }

    RoadLayout { offsets, tiles, obstacles, decorations, curves }
}

} // verus!
