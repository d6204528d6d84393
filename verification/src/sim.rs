//! The simulation context and the per-tick loop.
//!
//! One [`GameSim`] owns everything a run mutates: the generated road,
//! the vehicle, the enemy and projectile populations, the run state and
//! the random source.  Each call to [`GameSim::tick`] advances the
//! world by one frame in a fixed order: vehicle physics, progress and
//! the win/lose decision, spawning, enemy steering, projectile flight,
//! collision resolution, then the despawn sweeps.  Once a run has ended
//! the simulation halts: further ticks change nothing.

use vstd::prelude::*;
use crate::bullet::{Bullet, spawn_bullet, update_bullet, despawn_expired_bullets};
use crate::collision::{
    any_obstacle_hit, apply_zombie_hits, count_enemy_hits, resolve_bullet_hits,
    lemma_total_pairs_nonneg, BOUNCE_SPEED_MU, MAX_CAR_HEALTH_MILLI,
};
use crate::enemy::{Enemy, enemy_step};
use crate::physics::{Controls, Vehicle, vehicle_step, MAX_DT_MS, POS_LIMIT_MU};
use crate::progress::{
    evaluate_progress, progress_micro, zoom_step, Outcome, LOSE_PROGRESS_MICRO,
    WIN_PROGRESS_MICRO,
};
use crate::rng::SimRng;
use crate::road::{generate_road, RoadLayout};
use crate::settings::GameSettings;
use crate::spawn::{
    despawn_far_behind, spawn_batch, spawn_cap_spec, lemma_population_cap,
    lemma_spawn_count_bounds,
};

verus! {

/// Everything the simulation consumes from the outside for one tick.
#[derive(Clone, Copy, Debug)]
pub struct TickInput {
    /// Directional input.
    pub controls: Controls,
    /// Whether the turbo was triggered this tick.
    pub turbo_trigger: bool,
    /// A world-space aim point when the fire cadence lands on this
    /// tick, else nothing.
    pub fire_at: Option<(i64, i64)>,
    /// Frame delta, milliseconds.
    pub dt_ms: i64,
}

impl TickInput {
    /// Bounds the tick loop demands of its input.
    pub open spec fn wf(&self) -> bool {
        &&& 0 <= self.dt_ms <= MAX_DT_MS
        &&& match self.fire_at {
            Some(p) => -POS_LIMIT_MU <= p.0 <= POS_LIMIT_MU && -POS_LIMIT_MU <= p.1
                <= POS_LIMIT_MU,
            None => true,
        }
    }
}

/// The run's scalar bookkeeping, exposed for the UI.
#[derive(Clone, Copy, PartialEq, Eq, Structural, Debug)]
pub struct RunState {
    /// Vehicle health, milli-points in `[0, MAX_CAR_HEALTH_MILLI]`.
    pub health_milli: i64,
    /// Enemies destroyed by projectiles.
    pub score: u32,
    /// Signed progress, millionths of the track length.
    pub progress_micro: i64,
}

/// One run of the simulation.
pub struct GameSim {
    /// The run's settings, read-only while it lasts.
    pub settings: GameSettings,
    /// The generated road, obstacles and tile index.
    pub road: RoadLayout,
    /// The player's vehicle.
    pub vehicle: Vehicle,
    /// The live enemy population.
    pub enemies: Vec<Enemy>,
    /// The live projectiles.
    pub bullets: Vec<Bullet>,
    /// Health, score and progress.
    pub state: RunState,
    /// Camera zoom, milli-scale, driven by progress.
    pub zoom_milli: i64,
    /// Whether the run still plays, was won, or was lost.
    pub outcome: Outcome,
    /// The run's random source, seeded at construction.
    pub rng: SimRng,
}

/// How a tick changes the vehicle: it takes exactly one physics step
/// (turbo clock, speed under input and friction plus boost, steering,
/// integration against the old tile index), and its speed is then
/// forced to the bounce value exactly when some obstacle is in contact
/// at the stepped position — unless the progress verdict ended the run
/// before collision ran.
pub open spec fn tick_vehicle_rel(pre: GameSim, post: GameSim, input: TickInput) -> bool {
    let turbo = crate::physics::turbo_after_spec(
        pre.vehicle.turbo_ms as int,
        input.dt_ms as int,
        input.turbo_trigger,
    );
    let speed = crate::physics::speed_after_spec(
        pre.vehicle.speed_mu as int,
        input.controls,
        input.dt_ms as int,
    ) + crate::physics::boost_spec(turbo);
    let heading = crate::physics::heading_after_spec(
        pre.vehicle.heading_urad as int,
        input.controls,
        speed,
    );
    let on_road = crate::physics::vehicle_on_road_spec(
        pre.road.tiles,
        pre.vehicle.x_mu as int,
        pre.vehicle.y_mu as int,
    );
    let x1 = crate::physics::clamp_spec(
        pre.vehicle.x_mu + crate::physics::delta_x_spec(heading, speed, input.dt_ms as int, on_road),
        -POS_LIMIT_MU as int,
        POS_LIMIT_MU as int,
    );
    let y1 = crate::physics::clamp_spec(
        pre.vehicle.y_mu + crate::physics::delta_y_spec(heading, speed, input.dt_ms as int, on_road),
        -POS_LIMIT_MU as int,
        POS_LIMIT_MU as int,
    );
    let p = crate::progress::progress_of_spec(y1);
    &&& post.vehicle.turbo_ms == turbo
    &&& post.vehicle.heading_urad == heading
    &&& post.vehicle.x_mu == x1
    &&& post.vehicle.y_mu == y1
    &&& post.vehicle.speed_mu == (if LOSE_PROGRESS_MICRO <= p < WIN_PROGRESS_MICRO && (exists|k: int|
        0 <= k < pre.road.obstacles@.len() && crate::collision::obstacle_hit_spec(
            #[trigger] pre.road.obstacles@[k],
            x1,
            y1,
        )) {
        crate::collision::BOUNCE_SPEED_MU as int
    } else {
        speed
    })
}

/// How a tick that ran its combat phase relates to the populations it
/// actually tested: `agents` are the enemies after spawning and
/// steering, `flown` the projectiles after firing and flight.  Health
/// falls by the attack cost per contact with `agents` (unless god mode
/// holds), the run is lost exactly when that damage exhausts it, every
/// projectile-enemy pair scores one point, and the survivors minus the
/// far-behind sweep are what remains.
pub open spec fn tick_combat_rel(
    pre: GameSim,
    post: GameSim,
    input: TickInput,
    mid: Seq<Enemy>,
    agents: Seq<Enemy>,
    flown: Seq<Bullet>,
) -> bool {
    let vx = post.vehicle.x_mu as int;
    let vy = post.vehicle.y_mu as int;
    let p2 = post.state.progress_micro as int;
    let hits = crate::collision::hit_count_spec(agents, vx, vy, agents.len() as int);
    let survivors = crate::collision::surviving_enemies_spec(flown, agents, agents.len() as int);
    &&& agents.len() == pre.enemies@.len() + crate::spawn::spawn_count_spec(
        pre.settings.max_zombies_spec(),
        p2,
        pre.enemies@.len() as int,
    )
    &&& forall|k: int| 0 <= k < agents.len() ==> (#[trigger] agents[k]).wf()
    &&& mid.len() == agents.len()
    &&& forall|k: int| 0 <= k < pre.enemies@.len() ==> #[trigger] mid[k] == pre.enemies@[k]
    &&& forall|k: int|
        pre.enemies@.len() <= k < mid.len() ==> crate::spawn::placed_candidate_spec(
            #[trigger] mid[k],
            pre.settings.difficulty,
            p2,
            vx,
            vy,
        )
    &&& forall|k: int|
        0 <= k < agents.len() ==> crate::enemy::stepped_enemy(
            #[trigger] mid[k],
            agents[k],
            vx,
            vy,
            input.dt_ms as int,
        )
    &&& flown.len() == pre.bullets@.len() + (if input.fire_at is Some {
        1int
    } else {
        0int
    })
    &&& forall|k: int|
        0 <= k < pre.bullets@.len() ==> crate::bullet::bullet_flown_rel(
            #[trigger] pre.bullets@[k],
            flown[k],
            input.dt_ms as int,
        )
    &&& (input.fire_at matches Some(aim) ==> exists|b0: Bullet|
        crate::bullet::spawned_bullet_rel(
            vx,
            vy,
            aim.0 as int,
            aim.1 as int,
            post.vehicle.heading_urad as int,
            b0,
        ) && crate::bullet::bullet_flown_rel(b0, flown[flown.len() - 1], input.dt_ms as int))
    &&& post.state.health_milli == (if pre.settings.god_mode || hits == 0 {
        pre.state.health_milli as int
    } else if pre.state.health_milli - crate::collision::ZOMBIE_ATTACK_MILLI * hits < 0 {
        0int
    } else {
        pre.state.health_milli - crate::collision::ZOMBIE_ATTACK_MILLI * hits
    })
    &&& (post.outcome is Lost <==> !pre.settings.god_mode && hits > 0 && pre.state.health_milli
        <= crate::collision::ZOMBIE_ATTACK_MILLI * hits)
    &&& post.state.score == crate::collision::sat_score_spec(
        pre.state.score as int,
        crate::collision::total_pairs_spec(flown, agents, agents.len() as int),
    )
    &&& post.enemies@ == crate::spawn::kept_enemies_spec(survivors, vy, survivors.len() as int)
    &&& post.bullets@ == crate::bullet::kept_bullets_spec(flown, flown.len() as int)
}

impl GameSim {
    /// The invariants that hold between any two ticks.
    pub open spec fn wf(&self) -> bool {
        &&& self.road.wf()
        &&& self.vehicle.wf()
        &&& forall|k: int| 0 <= k < self.enemies@.len() ==> (#[trigger] self.enemies@[k]).wf()
        &&& self.enemies@.len() <= 100_000
        &&& forall|k: int| 0 <= k < self.bullets@.len() ==> (#[trigger] self.bullets@[k]).wf()
        &&& 0 <= self.state.health_milli <= MAX_CAR_HEALTH_MILLI
        &&& (self.outcome is Playing ==> self.state.health_milli > 0)
        &&& -POS_LIMIT_MU <= self.state.progress_micro <= WIN_PROGRESS_MICRO
        &&& 1_000 <= self.zoom_milli <= 2_100
    }

    /// Starts a run: generates the road from the seed, spawns the
    /// vehicle, and resets health, score, progress and zoom.
    pub fn new(settings: GameSettings, seed: u64) -> (s: GameSim)
        ensures
            s.wf(),
            s.settings == settings,
            s.outcome is Playing,
            s.state.health_milli == MAX_CAR_HEALTH_MILLI,
            s.state.score == 0,
            s.state.progress_micro == 0,
            s.enemies@.len() == 0,
            s.bullets@.len() == 0,
            s.vehicle.x_mu == 150_000 && s.vehicle.y_mu == 50_000,
            s.vehicle.heading_urad == 0,
            s.vehicle.speed_mu == 10_000,
            s.vehicle.turbo_ms == 0,
            s.zoom_milli == 1_000,
    {
        let mut rng = SimRng::from_seed(seed);
        let road = generate_road(&mut rng);
        GameSim {
            settings,
            road,
            vehicle: Vehicle::spawn(),
            enemies: Vec::new(),
            bullets: Vec::new(),
            state: RunState { health_milli: MAX_CAR_HEALTH_MILLI, score: 0, progress_micro: 0 },
            zoom_milli: 1_000,
            outcome: Outcome::Playing,
            rng,
        }
    }

    /// Advances the world by one frame.
    ///
    /// Key guarantees, for every input the run accepts: the state
    /// invariants survive; a finished run never changes again; the
    /// road is untouched; the vehicle takes exactly one physics step,
    /// bounced exactly when an obstacle is in contact
    /// ([`tick_vehicle_rel`]); a run ended by the progress verdict
    /// halts with its populations untouched, and otherwise the whole
    /// combat phase is pinned against the populations it actually
    /// tested ([`tick_combat_rel`]); god mode leaves health untouched;
    /// health never rises and the score never falls; a population that
    /// respects the cap at this tick's progress still respects it
    /// afterwards; a loss means either health ran out this tick or the
    /// vehicle drove too far backwards; and forward-only input from a
    /// straight-up heading never loses progress.
    #[verifier::rlimit(100)]
    pub fn tick(&mut self, input: TickInput) -> (r: Outcome)
        requires
            old(self).wf(),
            input.wf(),
        ensures
            final(self).wf(),
            r == final(self).outcome,
            final(self).settings == old(self).settings,
            !(old(self).outcome is Playing) ==> *final(self) == *old(self) && r == old(
                self,
            ).outcome,
            old(self).settings.god_mode ==> final(self).state.health_milli == old(
                self,
            ).state.health_milli,
            final(self).state.health_milli <= old(self).state.health_milli,
            final(self).state.score >= old(self).state.score,
            old(self).enemies@.len() <= spawn_cap_spec(
                old(self).settings.max_zombies_spec(),
                final(self).state.progress_micro as int,
            ) ==> final(self).enemies@.len() <= spawn_cap_spec(
                old(self).settings.max_zombies_spec(),
                final(self).state.progress_micro as int,
            ),
            r is Lost && old(self).outcome is Playing ==> final(self).state.health_milli == 0
                || final(self).state.progress_micro < LOSE_PROGRESS_MICRO,
            old(self).outcome is Playing ==> final(self).road == old(self).road
                && tick_vehicle_rel(*old(self), *final(self), input) && final(self).zoom_milli
                == crate::progress::zoom_after_spec(
                old(self).zoom_milli as int,
                final(self).state.progress_micro as int,
                input.dt_ms as int,
            ),
            old(self).outcome is Playing ==> ({
                let p = crate::progress::progress_of_spec(final(self).vehicle.y_mu as int);
                let untouched = final(self).enemies@ == old(self).enemies@ && final(self).bullets@
                    == old(self).bullets@ && final(self).state.health_milli == old(
                    self,
                ).state.health_milli && final(self).state.score == old(self).state.score;
                &&& (p < LOSE_PROGRESS_MICRO ==> r is Lost && untouched)
                &&& (p >= WIN_PROGRESS_MICRO ==> r is Won && untouched)
                &&& (LOSE_PROGRESS_MICRO <= p < WIN_PROGRESS_MICRO ==> exists|
                    mid: Seq<Enemy>,
                    agents: Seq<Enemy>,
                    flown: Seq<Bullet>,
                | tick_combat_rel(*old(self), *final(self), input, mid, agents, flown))
            }),
            old(self).outcome is Playing ==> final(self).state.progress_micro == ({
                let p = crate::progress::progress_of_spec(final(self).vehicle.y_mu as int);
                if p >= WIN_PROGRESS_MICRO {
                    WIN_PROGRESS_MICRO as int
                } else {
                    p
                }
            }),
            ({
                &&& input.controls.forward
                &&& !input.controls.back
                &&& !input.controls.left
                &&& !input.controls.right
                &&& old(self).vehicle.heading_urad == 0
                &&& old(self).vehicle.speed_mu >= 0
                &&& old(self).state.progress_micro == ({
                    let p = crate::progress::progress_of_spec(old(self).vehicle.y_mu as int);
                    if p >= WIN_PROGRESS_MICRO {
                        WIN_PROGRESS_MICRO as int
                    } else {
                        p
                    }
                })
            }) ==> final(self).state.progress_micro >= old(self).state.progress_micro,
    {
        match self.outcome {
            Outcome::Playing => {},
            _ => {
                return self.outcome;
            },
        }

        // 1. Vehicle physics, consulting the tile index for the
        //    road-surface factor.
        vehicle_step(
            &mut self.vehicle,
            input.controls,
            input.turbo_trigger,
            input.dt_ms,
            &self.road.tiles,
        );
        let vx = self.vehicle.x_mu;
        let vy = self.vehicle.y_mu;

        // 2. Progress, camera zoom, and the win/lose decision.  An
        //    ended run halts before anything else is simulated.
        let p_raw = progress_micro(vy);
        proof {
            vstd::arithmetic::div_mod::lemma_div_is_ordered(
                -POS_LIMIT_MU as int,
                vy as int,
                crate::progress::MU_PER_PROGRESS_MICRO as int,
            );
            vstd::arithmetic::div_mod::lemma_div_is_ordered(
                vy as int,
                POS_LIMIT_MU as int,
                crate::progress::MU_PER_PROGRESS_MICRO as int,
            );
        }
        proof {
            // Forward-only input from a straight-up heading cannot
            // lose ground, so the fresh progress dominates the old
            // one whenever the old one came from the old position.
            let oldv = old(self).vehicle;
            if input.controls.forward && !input.controls.back && !input.controls.left
                && !input.controls.right && oldv.heading_urad == 0 && oldv.speed_mu >= 0 {
                lemma_forward_only_progress(
                    oldv.y_mu as int,
                    oldv.speed_mu as int,
                    input.dt_ms as int,
                    crate::physics::vehicle_on_road_spec(
                        old(self).road.tiles,
                        oldv.x_mu as int,
                        oldv.y_mu as int,
                    ),
                    input.controls,
                    self.vehicle.turbo_ms as int,
                );
            }
        }
        let (p2, oc) = evaluate_progress(p_raw);
        self.state.progress_micro = p2;
        self.zoom_milli = zoom_step(self.zoom_milli, p2, input.dt_ms);
        match oc {
            Outcome::Playing => {},
            _ => {
                self.outcome = oc;
                return oc;
            },
        }

        // 3. Spawning, capped by progress and difficulty.
        let current = self.enemies.len();
        let mut batch = spawn_batch(&mut self.rng, &self.settings, p2, vx, vy, current);
        let ghost batch_snapshot = batch@;
        proof {
            lemma_spawn_count_bounds(
                self.settings.max_zombies_spec(),
                p2 as int,
                current as int,
            );
        }
        self.enemies.append(&mut batch);
        let ghost mid = self.enemies@;
        let ghost post_spawn_len = self.enemies@.len();

        // 4. Enemy steering toward the vehicle.
        let ghost pre_ai = *self;
        let mut i: usize = 0;
        while i < self.enemies.len()
            invariant
                i <= self.enemies@.len(),
                self.enemies@.len() == post_spawn_len,
                forall|k: int|
                    0 <= k < self.enemies@.len() ==> (#[trigger] self.enemies@[k]).wf(),
                -POS_LIMIT_MU <= vx <= POS_LIMIT_MU,
                -POS_LIMIT_MU <= vy <= POS_LIMIT_MU,
                0 <= input.dt_ms <= 1000,
                self.settings == pre_ai.settings,
                self.road == pre_ai.road,
                self.vehicle == pre_ai.vehicle,
                self.bullets == pre_ai.bullets,
                self.state == pre_ai.state,
                self.zoom_milli == pre_ai.zoom_milli,
                self.outcome == pre_ai.outcome,
                mid.len() == post_spawn_len,
                forall|k: int|
                    0 <= k < i ==> crate::enemy::stepped_enemy(
                        #[trigger] mid[k],
                        self.enemies@[k],
                        vx as int,
                        vy as int,
                        input.dt_ms as int,
                    ),
                forall|k: int|
                    i <= k < self.enemies@.len() ==> #[trigger] self.enemies@[k] == mid[k],
            decreases self.enemies@.len() - i,
        {
            let mut e = self.enemies[i];
            enemy_step(&mut e, vx, vy, input.dt_ms, &mut self.rng);
            self.enemies[i] = e;
            i = i + 1;
        }
        let ghost agents = self.enemies@;

        // 5. Projectiles: fire on this tick's cadence if asked, then
        //    fly everything (a fresh projectile flies from the tick it
        //    is fired).
        if let Some(aim) = input.fire_at {
            let b = spawn_bullet(vx, vy, aim.0, aim.1, self.vehicle.heading_urad);
            self.bullets.push(b);
        }
        let ghost pre_fly = *self;
        let mut j: usize = 0;
        while j < self.bullets.len()
            invariant
                j <= self.bullets@.len(),
                forall|k: int|
                    0 <= k < self.bullets@.len() ==> (#[trigger] self.bullets@[k]).wf(),
                0 <= input.dt_ms <= 1000,
                self.bullets@.len() == pre_fly.bullets@.len(),
                self.settings == pre_fly.settings,
                self.road == pre_fly.road,
                self.vehicle == pre_fly.vehicle,
                self.enemies == pre_fly.enemies,
                self.state == pre_fly.state,
                self.zoom_milli == pre_fly.zoom_milli,
                self.outcome == pre_fly.outcome,
                self.rng == pre_fly.rng,
                forall|k: int|
                    0 <= k < j ==> crate::bullet::bullet_flown_rel(
                        #[trigger] pre_fly.bullets@[k],
                        self.bullets@[k],
                        input.dt_ms as int,
                    ),
                forall|k: int|
                    j <= k < self.bullets@.len() ==> #[trigger] self.bullets@[k]
                        == pre_fly.bullets@[k],
            decreases self.bullets@.len() - j,
        {
            let mut b = self.bullets[j];
            update_bullet(&mut b, input.dt_ms);
            self.bullets[j] = b;
            j = j + 1;
        }
        let ghost flown = self.bullets@;

        // 6. Collision, in the order that keeps score and health
        //    consistent with this tick's positions: obstacles bounce
        //    the vehicle, enemy contacts cost health, projectiles
        //    score and mark enemies.
        if any_obstacle_hit(&self.road.obstacles, vx, vy) {
            self.vehicle.speed_mu = BOUNCE_SPEED_MU;
        }
        let hits = count_enemy_hits(&self.enemies, vx, vy);
        let (h2, dead) = apply_zombie_hits(self.state.health_milli, hits, self.settings.god_mode);
        self.state.health_milli = h2;
        proof {
            lemma_total_pairs_nonneg(
                self.bullets@,
                self.enemies@,
                self.enemies@.len() as int,
            );
        }
        let new_score = resolve_bullet_hits(&self.bullets, &mut self.enemies, self.state.score);
        self.state.score = new_score;

        // 7. Despawn sweeps: enemies far behind, projectiles past
        //    their lifetime.
        despawn_far_behind(&mut self.enemies, vy);
        despawn_expired_bullets(&mut self.bullets);

        // 8. The tick's verdict.
        if dead {
            self.outcome = Outcome::Lost;
        }
        proof {
            if current as int <= spawn_cap_spec(
                self.settings.max_zombies_spec(),
                p2 as int,
            ) {
                lemma_population_cap(
                    self.settings.max_zombies_spec(),
                    p2 as int,
                    current as int,
                );
            }
            assert forall|k: int| 0 <= k < old(self).bullets@.len() implies
                crate::bullet::bullet_flown_rel(
                    #[trigger] old(self).bullets@[k],
                    flown[k],
                    input.dt_ms as int,
                ) by {
                assert(pre_fly.bullets@[k] == old(self).bullets@[k]);
                assert(crate::bullet::bullet_flown_rel(
                    pre_fly.bullets@[k],
                    flown[k],
                    input.dt_ms as int,
                ));
            }
            if input.fire_at is Some {
                let b0 = pre_fly.bullets@[pre_fly.bullets@.len() - 1];
                let aim = input.fire_at->Some_0;
                assert(crate::bullet::spawned_bullet_rel(
                    vx as int,
                    vy as int,
                    aim.0 as int,
                    aim.1 as int,
                    self.vehicle.heading_urad as int,
                    b0,
                ) && crate::bullet::bullet_flown_rel(
                    b0,
                    flown[flown.len() - 1],
                    input.dt_ms as int,
                ));
            }
            assert(tick_combat_rel(*old(self), *self, input, mid, agents, flown));
            assert(exists|m: Seq<Enemy>, a: Seq<Enemy>, f: Seq<Bullet>|
                tick_combat_rel(*old(self), *self, input, m, a, f));
        }
        self.outcome
    }
}

/// Forward-only input from a straight-up heading never loses ground:
/// the heading stays straight up, and the progress derived from the
/// integrated position never decreases, until the track end is
/// reached.
pub proof fn lemma_forward_only_progress(
    y: int,
    s: int,
    dt: int,
    on_road: bool,
    c: Controls,
    t_after: int,
)
    requires
        c.forward,
        !c.back,
        !c.left,
        !c.right,
        s >= 0,
        0 <= dt,
        -POS_LIMIT_MU <= y <= POS_LIMIT_MU,
    ensures
        ({
            let s2 = crate::physics::speed_after_spec(s, c, dt) + crate::physics::boost_spec(
                t_after,
            );
            let y2 = crate::physics::clamp_spec(
                y + crate::physics::delta_y_spec(0, s2, dt, on_road),
                -POS_LIMIT_MU as int,
                POS_LIMIT_MU as int,
            );
            &&& s2 >= 0
            &&& crate::physics::heading_after_spec(0, c, s2) == 0
            &&& crate::physics::delta_x_spec(0, s2, dt, on_road) == 0
            &&& y2 >= y
            &&& crate::progress::progress_of_spec(y2) >= crate::progress::progress_of_spec(y)
        }),
{
    crate::physics::lemma_forward_speed_nonneg(s, c, dt);
    let s2 = crate::physics::speed_after_spec(s, c, dt) + crate::physics::boost_spec(t_after);
    crate::physics::lemma_forward_motion(y, s2, dt, on_road);
    let y2 = crate::physics::clamp_spec(
        y + crate::physics::delta_y_spec(0, s2, dt, on_road),
        -POS_LIMIT_MU as int,
        POS_LIMIT_MU as int,
    );
    crate::progress::lemma_progress_monotone(y, y2);
}

} // verus!
