//! Population-controlled enemy spawning and the despawn sweep.
//!
//! Each tick, if the live count is below the progress-scaled cap, up to
//! one batch of new enemies is placed by probability-weighted spatial
//! distributions; enemies too far behind the vehicle are swept away.

use vstd::prelude::*;
use crate::enemy::Enemy;
use crate::physics::{clamp_spec, POS_LIMIT_MU};
use crate::rng::SimRng;
use crate::settings::{Difficulty, GameSettings};

verus! {

/// At most this many enemies are spawned per tick.
pub const SPAWN_BATCH: usize = 50;

/// Enemies this far behind the vehicle (along the travel axis) are
/// removed, milli-units.
pub const DESPAWN_BEHIND_MU: i64 = 700_000;

/// Half the window width, used by the spatial distributions,
/// milli-units.
pub const HALF_WINDOW_MU: i64 = 500_000;

/// The population cap at a given progress: it grows linearly with
/// progress from a floor of five, and never exceeds the configured
/// maximum (nor drops below zero).
pub open spec fn spawn_cap_spec(maxz: int, p_micro: int) -> int {
    let raw = maxz * p_micro / 1_000_000 + 5;
    if raw > maxz {
        maxz
    } else if raw < 0 {
        0
    } else {
        raw
    }
}

/// How many enemies one tick adds: nothing at or above the cap, else
/// up to a batch, never past the cap.
pub open spec fn spawn_count_spec(maxz: int, p_micro: int, current: int) -> int {
    let cap = spawn_cap_spec(maxz, p_micro);
    if current >= cap {
        0
    } else if cap - current < SPAWN_BATCH as int {
        cap - current
    } else {
        SPAWN_BATCH as int
    }
}

/// A tick's spawning never lifts the live count above the cap, as long
/// as it was not above the cap already.
pub proof fn lemma_population_cap(maxz: int, p_micro: int, current: int)
    requires
        current <= spawn_cap_spec(maxz, p_micro),
    ensures
        current + spawn_count_spec(maxz, p_micro, current) <= spawn_cap_spec(maxz, p_micro),
{
}

/// A batch is never larger than [`SPAWN_BATCH`], and a non-empty batch
/// never lifts the count past the configured maximum.
pub proof fn lemma_spawn_count_bounds(maxz: int, p_micro: int, current: int)
    requires
        0 <= current,
    ensures
        0 <= spawn_count_spec(maxz, p_micro, current) <= SPAWN_BATCH as int,
        spawn_count_spec(maxz, p_micro, current) != 0 ==> current + spawn_count_spec(
            maxz,
            p_micro,
            current,
        ) <= maxz,
{
}

/// The executable cap computation.
pub fn spawn_cap(maxz: usize, p_micro: i64) -> (c: usize)
    requires
        100 <= maxz <= 50_000,
        -2_000_000 <= p_micro <= 2_000_000,
    ensures
        c == spawn_cap_spec(maxz as int, p_micro as int),
        c <= maxz,
{
    proof {
        assert(-100_000_000_000 <= maxz as int * p_micro as int <= 100_000_000_000)
            by (nonlinear_arith)
            requires
                100 <= maxz as int <= 50_000,
                -2_000_000 <= p_micro as int <= 2_000_000,
        ;
    }
    let prod: i64 = (maxz as i64) * p_micro;
    let raw: i64 = crate::fixed::div_floor_i64(prod, 1_000_000) + 5;
    if raw > maxz as i64 {
        maxz
    } else if raw < 0 {
        0
    } else {
        raw as usize
    }
}


/// Whether the "road zombie" distribution (directly ahead, straddling
/// the centerline) is enabled at this difficulty and progress.
pub open spec fn road_zombies_enabled_spec(d: Difficulty, p_micro: int) -> bool {
    match d {
        Difficulty::Easy => p_micro >= 700_000,
        Difficulty::Moderate => p_micro >= 600_000,
        Difficulty::Hard => true,
    }
}

/// Whether the "half-road zombie" distribution (further off the
/// centerline) is enabled at this difficulty and progress.
pub open spec fn half_road_zombies_enabled_spec(d: Difficulty, p_micro: int) -> bool {
    match d {
        Difficulty::Easy => p_micro >= 400_000,
        Difficulty::Moderate => true,
        Difficulty::Hard => true,
    }
}

/// An ambient placement: at least a window width off the vehicle
/// laterally, somewhere in the near-to-very-far bands along the travel
/// axis, clamped to the playfield.
pub open spec fn in_ambient_band(x: int, y: int, vx: int, vy: int, tx: int, ty: int) -> bool {
    &&& 1_000_000 <= tx <= 1_399_999
    &&& -399_999 <= ty <= 2_899_998
    &&& (x == clamp_spec(vx + tx, -POS_LIMIT_MU as int, POS_LIMIT_MU as int) || x == clamp_spec(
        vx - tx,
        -POS_LIMIT_MU as int,
        POS_LIMIT_MU as int,
    ))
    &&& y == clamp_spec(vy + ty, -POS_LIMIT_MU as int, POS_LIMIT_MU as int)
}

/// A roadside placement: ahead of the vehicle along the travel axis,
/// offset `lo..=hi` to either side of it, clamped to the playfield.
pub open spec fn in_side_band(
    x: int,
    y: int,
    vx: int,
    vy: int,
    lo: int,
    hi: int,
    tx: int,
    ty: int,
) -> bool {
    &&& lo <= tx <= hi
    &&& 1_000_000 <= ty <= 1_899_998
    &&& (x == clamp_spec(vx + tx, -POS_LIMIT_MU as int, POS_LIMIT_MU as int) || x == clamp_spec(
        vx - tx,
        -POS_LIMIT_MU as int,
        POS_LIMIT_MU as int,
    ))
    &&& y == clamp_spec(vy + ty, -POS_LIMIT_MU as int, POS_LIMIT_MU as int)
}

/// Where the fruitless early-run candidates go: a fixed far-away
/// point, effectively a no-op spawn.
pub const SENTINEL_MU: i64 = 10_000_000;

/// What every spawned candidate satisfies: its sprite is a common
/// variant, or a heavy one only once progress has passed 0.3; and its
/// position is in an ambient band, in the road band (only when that
/// distribution is enabled), in the half-road band (only when enabled
/// and the road band is not), or at the far-away sentinel (only when
/// neither is enabled).
pub open spec fn placed_candidate_spec(
    e: Enemy,
    d: Difficulty,
    p_micro: int,
    vx: int,
    vy: int,
) -> bool {
    &&& (30 <= e.sprite <= 39 || (40 <= e.sprite <= 43 && p_micro >= 300_000))
    &&& ({
        ||| exists|tx: int, ty: int| in_ambient_band(e.x_mu as int, e.y_mu as int, vx, vy, tx, ty)
        ||| (road_zombies_enabled_spec(d, p_micro) && exists|tx: int, ty: int|
            in_side_band(e.x_mu as int, e.y_mu as int, vx, vy, 500_000, 999_998, tx, ty))
        ||| (half_road_zombies_enabled_spec(d, p_micro) && !road_zombies_enabled_spec(d, p_micro)
            && exists|tx: int, ty: int|
            in_side_band(e.x_mu as int, e.y_mu as int, vx, vy, 600_000, 1_099_998, tx, ty))
        ||| (!road_zombies_enabled_spec(d, p_micro) && !half_road_zombies_enabled_spec(d, p_micro)
            && e.x_mu == SENTINEL_MU && e.y_mu == SENTINEL_MU)
    })
}

/// Candidates never land on the vehicle: away from the playfield edge,
/// every spawned position is at least half a window off the vehicle
/// laterally, or at the far-away sentinel.
pub proof fn lemma_spawn_standoff(e: Enemy, d: Difficulty, p_micro: int, vx: int, vy: int)
    requires
        placed_candidate_spec(e, d, p_micro, vx, vy),
        -POS_LIMIT_MU + 3_000_000 <= vx <= POS_LIMIT_MU - 3_000_000,
    ensures
        e.x_mu - vx >= HALF_WINDOW_MU || vx - e.x_mu >= HALF_WINDOW_MU || (e.x_mu == SENTINEL_MU
            && e.y_mu == SENTINEL_MU),
{
    let x = e.x_mu as int;
    let y = e.y_mu as int;
    if exists|tx: int, ty: int| in_ambient_band(x, y, vx, vy, tx, ty) {
        let (tx, ty) = choose|tx: int, ty: int| in_ambient_band(x, y, vx, vy, tx, ty);
    } else if road_zombies_enabled_spec(d, p_micro) && exists|tx: int, ty: int|
        in_side_band(x, y, vx, vy, 500_000, 999_998, tx, ty) {
        let (tx, ty) = choose|tx: int, ty: int| in_side_band(x, y, vx, vy, 500_000, 999_998, tx, ty);
    } else if half_road_zombies_enabled_spec(d, p_micro) && !road_zombies_enabled_spec(d, p_micro)
        && exists|tx: int, ty: int| in_side_band(x, y, vx, vy, 600_000, 1_099_998, tx, ty) {
        let (tx, ty) = choose|tx: int, ty: int|
            in_side_band(x, y, vx, vy, 600_000, 1_099_998, tx, ty);
    }
}

fn place_candidate(
    rng: &mut SimRng,
    settings: &GameSettings,
    p_micro: i64,
    vx: i64,
    vy: i64,
) -> (e: Enemy)
    requires
        -POS_LIMIT_MU <= vx <= POS_LIMIT_MU,
        -POS_LIMIT_MU <= vy <= POS_LIMIT_MU,
        -2_000_000 <= p_micro <= 2_000_000,
    ensures
        e.wf(),
        placed_candidate_spec(e, settings.difficulty, p_micro as int, vx as int, vy as int),
{
    let normal_myriad: i64 = match settings.difficulty {
        Difficulty::Easy => 9_900,
        Difficulty::Moderate => 9_800,
        Difficulty::Hard => 9_600,
    };
    let road_zombies: bool = match settings.difficulty {
        Difficulty::Easy => p_micro >= 700_000,
        Difficulty::Moderate => p_micro >= 600_000,
        Difficulty::Hard => true,
    };
    let half_road_zombies: bool = match settings.difficulty {
        Difficulty::Easy => p_micro >= 400_000,
        Difficulty::Moderate => true,
        Difficulty::Hard => true,
    };

    let bx = rng.next_in(0, 399_999);
    let by = rng.next_in(0, 399_999);
    let window: i64 = 2 * HALF_WINDOW_MU;

    // Which band the candidate fell in, and its drawn offsets.
    let ghost mut ambient: bool = false;
    let ghost mut gtx: int = 0;
    let ghost mut gty: int = 0;

    let (x, y): (i64, i64) = if rng.per_myriad() < normal_myriad {
        // Ambient population: eight weighted bands far ahead or behind
        // the vehicle along the travel axis.
        let zone = rng.next_in(1, 8);
        let extra: i64 = if zone == 1 || zone == 4 {
            0
        } else if zone == 2 || zone == 5 {
            rng.next_in(1_000_000, 1_199_999)
        } else if zone == 3 || zone == 6 {
            rng.next_in(1_500_000, 1_799_999)
        } else {
            rng.next_in(1_800_000, 2_499_999)
        };
        proof {
            ambient = true;
            gtx = (window + bx) as int;
        }
        if zone == 1 || zone == 2 || zone == 3 || zone == 7 {
            proof {
                gty = (by + extra) as int;
            }
            (vx + window + bx, vy + by + extra)
        } else {
            proof {
                gty = (extra - by) as int;
            }
            (vx - window - bx, vy - by + extra)
        }
    } else if road_zombies {
        // Directly ahead, straddling the road centerline on a random
        // side.
        let side_off = rng.next_in(0, 99_999);
        let ahead = rng.next_in(1_000_000, 1_499_999);
        proof {
            gtx = (bx + HALF_WINDOW_MU + side_off) as int;
            gty = (by + ahead) as int;
        }
        if rng.per_mille() < 500 {
            (vx + bx + HALF_WINDOW_MU + side_off, vy + by + ahead)
        } else {
            (vx - bx - HALF_WINDOW_MU - side_off, vy + by + ahead)
        }
    } else if half_road_zombies {
        // Further off the centerline, avoiding direct vehicle overlap.
        let side_off = rng.next_in(100_000, 199_999);
        let ahead = rng.next_in(1_000_000, 1_499_999);
        proof {
            gtx = (bx + HALF_WINDOW_MU + side_off) as int;
            gty = (by + ahead) as int;
        }
        if rng.per_mille() < 500 {
            (vx + bx + HALF_WINDOW_MU + side_off, vy + by + ahead)
        } else {
            (vx - bx - HALF_WINDOW_MU - side_off, vy + by + ahead)
        }
    } else {
        // Early-run candidate with no enabled distribution: placed at
        // the far-away sentinel, effectively a no-op spawn.
        (SENTINEL_MU, SENTINEL_MU)
    };

    // Cosmetic variant: skews toward a heavy sprite with low
    // probability once the run is well underway.
    let mut sprite: u32 = rng.next_in(30, 39) as u32;
    if rng.per_mille() >= 900 && p_micro >= 300_000 {
        sprite = rng.next_in(40, 43) as u32;
    }

    let cx = crate::physics::clamp_i64(x, -POS_LIMIT_MU, POS_LIMIT_MU);
    let cy = crate::physics::clamp_i64(y, -POS_LIMIT_MU, POS_LIMIT_MU);
    let e = Enemy { x_mu: cx, y_mu: cy, sprite };
    proof {
        assert(road_zombies == road_zombies_enabled_spec(settings.difficulty, p_micro as int));
        assert(half_road_zombies == half_road_zombies_enabled_spec(
            settings.difficulty,
            p_micro as int,
        ));
        if ambient {
            assert(in_ambient_band(e.x_mu as int, e.y_mu as int, vx as int, vy as int, gtx, gty));
            assert(exists|tx: int, ty: int|
                in_ambient_band(e.x_mu as int, e.y_mu as int, vx as int, vy as int, tx, ty));
        } else if road_zombies {
            assert(in_side_band(
                e.x_mu as int,
                e.y_mu as int,
                vx as int,
                vy as int,
                500_000,
                999_998,
                gtx,
                gty,
            ));
            assert(exists|tx: int, ty: int|
                in_side_band(e.x_mu as int, e.y_mu as int, vx as int, vy as int, 500_000, 999_998, tx, ty));
        } else if half_road_zombies {
            assert(in_side_band(
                e.x_mu as int,
                e.y_mu as int,
                vx as int,
                vy as int,
                600_000,
                1_099_998,
                gtx,
                gty,
            ));
            assert(exists|tx: int, ty: int|
                in_side_band(e.x_mu as int, e.y_mu as int, vx as int, vy as int, 600_000, 1_099_998, tx, ty));
        }
        assert(placed_candidate_spec(
            e,
            settings.difficulty,
            p_micro as int,
            vx as int,
            vy as int,
        ));
    }
    e
}

/// Spawns one tick's batch of enemies: nothing if the live count is at
/// or above the cap, else exactly enough candidates to fill the batch
/// without passing the cap.
pub fn spawn_batch(
    rng: &mut SimRng,
    settings: &GameSettings,
    p_micro: i64,
    vx: i64,
    vy: i64,
    current: usize,
) -> (batch: Vec<Enemy>)
    requires
        -POS_LIMIT_MU <= vx <= POS_LIMIT_MU,
        -POS_LIMIT_MU <= vy <= POS_LIMIT_MU,
        -2_000_000 <= p_micro <= 2_000_000,
    ensures
        batch@.len() == spawn_count_spec(
            settings.max_zombies_spec(),
            p_micro as int,
            current as int,
        ),
        forall|k: int| 0 <= k < batch@.len() ==> (#[trigger] batch@[k]).wf(),
        forall|k: int|
            0 <= k < batch@.len() ==> placed_candidate_spec(
                #[trigger] batch@[k],
                settings.difficulty,
                p_micro as int,
                vx as int,
                vy as int,
            ),
{
    let maxz = settings.get_num_max_zombies();
    let cap = spawn_cap(maxz, p_micro);
    let want: usize = if current >= cap {
        0
    } else if cap - current < SPAWN_BATCH {
        cap - current
    } else {
        SPAWN_BATCH
    };

    let mut batch: Vec<Enemy> = Vec::new();
    let mut k: usize = 0;
    while k < want
        invariant
            k <= want,
            batch@.len() == k,
            -POS_LIMIT_MU <= vx <= POS_LIMIT_MU,
            -POS_LIMIT_MU <= vy <= POS_LIMIT_MU,
            -2_000_000 <= p_micro <= 2_000_000,
            forall|j: int| 0 <= j < batch@.len() ==> (#[trigger] batch@[j]).wf(),
            forall|j: int|
                0 <= j < batch@.len() ==> placed_candidate_spec(
                    #[trigger] batch@[j],
                    settings.difficulty,
                    p_micro as int,
                    vx as int,
                    vy as int,
                ),
        decreases want - k,
    {
        let e = place_candidate(rng, settings, p_micro, vx, vy);
        batch.push(e);
        k = k + 1;
    }
    batch
}

/// The enemies kept by the despawn sweep: those not more than
/// [`DESPAWN_BEHIND_MU`] behind the vehicle, in their original order.
pub open spec fn kept_enemies_spec(s: Seq<Enemy>, vy: int, n: int) -> Seq<Enemy>
    decreases n,
{
    if n <= 0 {
        Seq::empty()
    } else {
        let pre = kept_enemies_spec(s, vy, n - 1);
        if vy - s[n - 1].y_mu <= DESPAWN_BEHIND_MU as int {
            pre.push(s[n - 1])
        } else {
            pre
        }
    }
}

/// Every enemy the sweep keeps is close enough behind, came from the
/// original population, and the sweep never grows the population.
pub proof fn lemma_kept_enemies(s: Seq<Enemy>, vy: int, n: int)
    requires
        0 <= n <= s.len(),
    ensures
        kept_enemies_spec(s, vy, n).len() <= n,
        forall|j: int|
            0 <= j < kept_enemies_spec(s, vy, n).len() ==> vy - (#[trigger] kept_enemies_spec(
                s,
                vy,
                n,
            )[j]).y_mu <= DESPAWN_BEHIND_MU as int,
        forall|j: int|
            0 <= j < kept_enemies_spec(s, vy, n).len() ==> exists|i: int|
                0 <= i < n && #[trigger] kept_enemies_spec(s, vy, n)[j] == s[i],
    decreases n,
{
    if n > 0 {
        lemma_kept_enemies(s, vy, n - 1);
        let pre = kept_enemies_spec(s, vy, n - 1);
        let cur = kept_enemies_spec(s, vy, n);
        if vy - s[n - 1].y_mu <= DESPAWN_BEHIND_MU as int {
            assert forall|j: int| 0 <= j < cur.len() implies exists|i: int|
                0 <= i < n && #[trigger] cur[j] == s[i] by {
                if j < pre.len() {
                    let i0 = choose|i: int| 0 <= i < n - 1 && pre[j] == s[i];
                    assert(0 <= i0 < n && cur[j] == s[i0]);
                } else {
                    assert(cur[j] == s[n - 1]);
                }
            }
        } else {
            assert forall|j: int| 0 <= j < cur.len() implies exists|i: int|
                0 <= i < n && #[trigger] cur[j] == s[i] by {
                let i0 = choose|i: int| 0 <= i < n - 1 && pre[j] == s[i];
                assert(0 <= i0 < n && cur[j] == s[i0]);
            }
        }
    }
}

/// Removes every enemy more than [`DESPAWN_BEHIND_MU`] behind the
/// vehicle along the travel axis, keeping the others in order.
pub fn despawn_far_behind(enemies: &mut Vec<Enemy>, vy: i64)
    requires
        -POS_LIMIT_MU <= vy <= POS_LIMIT_MU,
        forall|k: int| 0 <= k < old(enemies)@.len() ==> (#[trigger] old(enemies)@[k]).wf(),
    ensures
        final(enemies)@ == kept_enemies_spec(old(enemies)@, vy as int, old(enemies)@.len() as int),
        final(enemies)@.len() <= old(enemies)@.len(),
        forall|k: int| 0 <= k < final(enemies)@.len() ==> (#[trigger] final(enemies)@[k]).wf(),
{
    let ghost orig = enemies@;
    let mut kept: Vec<Enemy> = Vec::new();
    let mut i: usize = 0;
    while i < enemies.len()
        invariant
            i <= enemies@.len(),
            enemies@ == orig,
            -POS_LIMIT_MU <= vy <= POS_LIMIT_MU,
            forall|k: int| 0 <= k < orig.len() ==> (#[trigger] orig[k]).wf(),
            kept@ == kept_enemies_spec(orig, vy as int, i as int),
        decreases enemies@.len() - i,
    {
        let e = enemies[i];
        if vy - e.y_mu <= DESPAWN_BEHIND_MU {
            kept.push(e);
        }
        i = i + 1;
    }
    proof {
        lemma_kept_enemies(orig, vy as int, orig.len() as int);
        assert forall|k: int| 0 <= k < kept@.len() implies (#[trigger] kept@[k]).wf() by {
            let i0 = choose|i0: int| 0 <= i0 < orig.len() && kept@[k] == orig[i0];
        }
    }
    *enemies = kept;
}

} // verus!
