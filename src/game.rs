use vstd::prelude::*;

use rand::rngs::StdRng;

use crate::cluster::{is_launch_lift, position_at, reach, Clusterbomb, CLUSTER_END_T};
use crate::config::{
    MAX_PHASE_LOSS, POOL_CAP, SIGNAL_CEILING, SIGNAL_THRESHOLD, VIEW_HEIGHT, VIEW_WIDTH,
    WORLD_LIMIT,
};
use crate::geometry::{build_rect, clamp_world, clamp_world_spec, rect_spec, Rect, Vec2};
use crate::goal::{goal_rect, goal_step, GOAL_SIZE, GOAL_X, GOAL_Y};
use crate::hazard::{
    all_wf, copy_hazards, count_contacts, lemma_sweep_accounting, shift, shifted, survivors,
    sweep, sweep_loss, Contact, Hazard, Probe,
};
use crate::hue::{quantize_spec, stepped_hue, HueStep, COLOR_STEPS, HUE_OFFSET, SELECTOR_FULL};
use crate::input::{keys_applied, MAX_KEYS};
use crate::lane::{
    advance_lane, lane_step, moved_lane, valid_speed, LANE_COUNT, PATH_X, PROJECTILE_HEIGHT,
    PROJECTILE_HIT_LOSS, PROJECTILE_WIDTH,
};
use crate::particle::{
    direction_spec, spawned, unit_direction, Particle, DIRECTIONS, LIFE_FULL, MAX_JITTER,
};
use crate::pool::{
    alive_only, all_alive, fade, faded, fragment_contacts, fragment_loss, fragment_survivors,
    free_stepped, particles_wf, push_capped, retain_alive, sweep_fragments, update_all,
};
use crate::random::roll;
use crate::render::{
    hazard_sprites, particle_sprites, push_hazard_sprites, push_particle_sprites, Paint,
    RenderFrame, Sprite,
};

verus! {

/// Side of the player's square (50 px).
pub const PLAYER_SIZE: i64 = 30_000;

/// Radius gained by grazing a jumprope of the player's colour (1 px).
pub const GRAZE_RADIUS: u64 = 600;

/// Starting matching radius (300 px), and its bound.
pub const RADIUS_START: u64 = 180_000;
pub const RADIUS_CAP: u64 = 1_000_000_000_000;

/// Jumprope bands: centred horizontally, entering at the top of the view,
/// 2.5 view widths wide and 20 px high.
pub const JUMPROPE_X: i64 = 0;
pub const JUMPROPE_START_Y: i64 = VIEW_HEIGHT;
pub const JUMPROPE_WIDTH: i64 = 1_536_000;
pub const JUMPROPE_HEIGHT: i64 = 12_000;

/// Signal lost to a damaging jumprope hit.
pub const JUMPROPE_HIT_LOSS: u64 = 900;

/// Most jumpropes active at once.
pub const JUMPROPE_LIMIT: usize = 4;

/// A jumprope arrives once the arrival counter reaches this; each tick
/// adds a draw below `ARRIVAL_DRAW`.
pub const JUMPROPE_THRESHOLD: u64 = 200_000;
pub const ARRIVAL_DRAW: u32 = 1000;

/// Bound on the arrival counter.
pub const ACCUM_CAP: u64 = 1_000_000_000_000_000;

/// Clusterbombs start arriving at this score, two at a time from the second.
pub const CLUSTER_SPAWN_START_SCORE: u64 = 4;
pub const CLUSTER_SPAWN_INCREASE_SCORE: u64 = 8;

/// Fragments in a bomb's ring, and their speed (150 px a tick).
pub const CLUSTER_FRAG_COUNT: u32 = 8;
pub const CLUSTER_FRAG_SPEED: i64 = 90_000;

/// Side of a bomb and of a fragment (35 px).
pub const CLUSTER_WIDTH: i64 = 21_000;

/// Signal lost to a damaging fragment hit.
pub const FRAGMENT_HIT_LOSS: u64 = 1_200;

/// Ambient glow particles: launched at 10 px a tick, accelerating at
/// 3 px a tick, drifting 5 px a tick inward, from both ends of each band.
pub const GLOW_SPEED: i64 = 6_000;
pub const GLOW_ACCEL: i64 = 1_800;
pub const GLOW_DRIFT: i64 = 3_000;

/// A ghost of every active projectile is left every `GHOST_INTERVAL`
/// ticks, and fades by `GHOST_FADE` a tick.
pub const GHOST_INTERVAL: u64 = 4;
pub const GHOST_FADE: i64 = 50;

/// A new projectile enters at `PATH_X` plus a whole number of slots of
/// `SLOT_WIDTH` (10 px): fewer than `SPAWN_SLOTS` slots, or
/// `INITIAL_SLOTS` for the first of each lane.
pub const SLOT_WIDTH: i64 = 6_000;
pub const SPAWN_SLOTS: u32 = 23;
pub const INITIAL_SLOTS: u32 = 15;

/// Lanes active at the start.
pub const INITIAL_SPAWNS: usize = 2;

/// Starting projectile and jumprope speeds (450 px/s and 150 px/s).
pub const LASER_SPEED_START: i64 = 4_500;
pub const JUMPROPE_SPEED_START: i64 = 1_500;

/// Side of a glow particle's square (10 px).
pub const PARTICLE_SIZE: i64 = 6_000;

/// The session's state.
#[derive(Clone, Copy, Debug, PartialEq, Eq, Structural)]
pub enum Status {
    Running,
    Lost,
}

/// A lane's queue of projectiles, oldest first.
pub struct Lane {
    pub entries: Vec<Hazard>,
}

/// The whole simulation state. Damage is one continuous accumulator,
/// `signal_lost`, raised once per hit or graze; crossing
/// `SIGNAL_THRESHOLD` loses the session.
pub struct Game {
    /// Centre of the player's square.
    pub player: Vec2,
    /// The colour selector, in `[0, SELECTOR_FULL]`.
    pub selector: u32,
    /// Key codes currently held, each once.
    pub keys: Vec<u16>,
    pub score: u64,
    /// Signal lost so far; the session is lost at `SIGNAL_THRESHOLD`.
    pub signal_lost: u64,
    /// The matching-radius resource.
    pub radius: u64,
    /// Whether the player is carrying the goal.
    pub carrying: bool,
    /// The goal's colour selector.
    pub goal_t: u32,
    pub lanes: Vec<Lane>,
    /// How many lanes (from the first) are active.
    pub current_spawns: usize,
    /// Projectile speed, in subpixels a tick.
    pub laser_speed: i64,
    /// Jumprope speed, in subpixels a tick.
    pub jumprope_speed: i64,
    /// Jumprope bands, oldest first; a band's position is its centre.
    pub jumpropes: Vec<Hazard>,
    /// Random-walk counter for jumprope arrivals.
    pub accum: u64,
    pub clusters: Vec<Clusterbomb>,
    pub fragments: Vec<Particle>,
    /// Ambient glow particles.
    pub particles: Vec<Particle>,
    /// Projectile ghost trails.
    pub ghosts: Vec<Particle>,
    /// Ticks run so far.
    pub frames: u64,
    /// Whether the player took a damaging hit this tick.
    pub hit: bool,
    pub status: Status,
}

/// A lane's entries are well formed and within the pool bound.
pub open spec fn lane_wf(s: Seq<Hazard>) -> bool {
    all_wf(s) && s.len() <= POOL_CAP
}

/// Every clusterbomb is well formed and in flight.
pub open spec fn clusters_wf(s: Seq<Clusterbomb>) -> bool {
    forall|i: int| 0 <= i < s.len() ==> (#[trigger] s[i]).wf() && s[i].live()
}

/// A spawn candidate for lane `lane` of `active`, `slot` slots right of
/// `PATH_X` and `offset` down from the top of the lane.
pub fn fresh_projectile(lane: usize, active: usize, slot: u32, offset: i64, hue: HueStep) -> (r:
    Hazard)
    requires
        lane < LANE_COUNT,
        1 <= active <= LANE_COUNT,
        slot < SPAWN_SLOTS,
        0 <= offset < lane_height(active as int),
        hue.wf(),
    ensures
        r == fresh_projectile_spec(lane as int, active as int, slot as int, offset as int, hue),
        r.wf(),
{
    let height = 2 * VIEW_HEIGHT / active as i64;
    assert(0 < height <= 2 * VIEW_HEIGHT);
    assert(height * lane as i64 <= 2 * VIEW_HEIGHT * 10) by (nonlinear_arith)
        requires height <= 2 * VIEW_HEIGHT, lane < 10;
    let center = height * lane as i64 + height / 2 - VIEW_HEIGHT;
    Hazard {
        pos: Vec2 { x: PATH_X + SLOT_WIDTH * slot as i64, y: center - height / 2 + offset },
        hue,
    }
}

/// A bomb aimed from `(sx - VIEW_WIDTH, sy - VIEW_HEIGHT)` at `(ex, ey)`
/// off the player; `None` where the target is out of reach.
pub fn aim_bomb(player: Vec2, sx: u32, sy: u32, ex: u32, ey: u32, hue: HueStep) -> (r: Option<
    Clusterbomb,
>)
    requires
        player.wf(),
        sx <= 2 * VIEW_WIDTH,
        sy <= 2 * VIEW_HEIGHT,
        ex <= VIEW_WIDTH,
        ey <= VIEW_HEIGHT,
        hue.wf(),
    ensures
        aimed(r, player, sx as int, sy as int, ex as int, ey as int, hue),
{
    let start = Vec2 { x: sx as i64 - VIEW_WIDTH, y: sy as i64 - VIEW_HEIGHT };
    let end = Vec2 { x: clamp_world(player.x + ex as i64), y: clamp_world(player.y + ey as i64) };
    Clusterbomb::from_positions(start, end, hue)
}

impl Game {
    /// The structural invariant, which holds between phases of a tick.
    pub open spec fn inv(&self) -> bool {
        &&& self.player.wf()
        &&& self.selector <= SELECTOR_FULL
        &&& self.goal_t <= SELECTOR_FULL
        &&& self.keys@.len() <= MAX_KEYS
        &&& self.signal_lost <= SIGNAL_CEILING
        &&& self.radius <= RADIUS_CAP
        &&& self.accum <= ACCUM_CAP
        &&& self.lanes@.len() == LANE_COUNT
        &&& forall|i: int| 0 <= i < self.lanes@.len() ==> lane_wf(#[trigger] self.lanes@[i].entries@)
        &&& 1 <= self.current_spawns <= LANE_COUNT
        &&& valid_speed(self.laser_speed as int)
        &&& valid_speed(self.jumprope_speed as int)
        &&& lane_wf(self.jumpropes@)
        &&& clusters_wf(self.clusters@)
        &&& self.clusters@.len() <= POOL_CAP
        &&& particles_wf(self.fragments@) && all_alive(self.fragments@)
        &&& self.fragments@.len() <= POOL_CAP
        &&& particles_wf(self.particles@)
        &&& self.particles@.len() <= POOL_CAP
        &&& particles_wf(self.ghosts@) && all_alive(self.ghosts@)
        &&& self.ghosts@.len() <= POOL_CAP
    }

    /// The invariant, and a session still running has not reached the threshold.
    pub open spec fn wf(&self) -> bool {
        &&& self.inv()
        &&& self.status == Status::Running ==> self.signal_lost < SIGNAL_THRESHOLD
    }

    /// Room for one more phase's signal loss.
    pub open spec fn has_headroom(&self) -> bool {
        self.signal_lost <= SIGNAL_CEILING - 5 * MAX_PHASE_LOSS
    }

    /// The player as hazards of size `width` by `height` see it.
    pub fn probe(&self, width: i64, height: i64) -> (r: Probe)
        requires
            self.inv(),
            0 <= width <= WORLD_LIMIT,
            0 <= height <= WORLD_LIMIT,
        ensures
            r == probe_spec(*self, width as int, height as int),
            r.wf(),
    {
        Probe {
            player: build_rect(self.player.x, self.player.y, PLAYER_SIZE, PLAYER_SIZE),
            player_hue: stepped_hue(self.selector),
            width,
            height,
        }
    }

    /// Jumprope arrivals: the counter grows by `draw`; once it reaches
    /// `JUMPROPE_THRESHOLD` with fewer than `JUMPROPE_LIMIT` bands active,
    /// a band of colour `hue` enters at the top and the counter restarts.
    pub fn jumprope_arrival(&mut self, draw: u32, hue: HueStep)
        requires
            old(self).inv(),
            draw < ARRIVAL_DRAW,
            hue.wf(),
        ensures
            final(self).inv(),
            jumprope_arrival_step(*old(self), *final(self), draw, hue),
    {
        let a = if self.accum <= ACCUM_CAP - draw as u64 {
            self.accum + draw as u64
        } else {
            ACCUM_CAP
        };
        if a >= JUMPROPE_THRESHOLD && self.jumpropes.len() < JUMPROPE_LIMIT {
            self.jumpropes.push(Hazard { pos: Vec2 { x: JUMPROPE_X, y: JUMPROPE_START_Y }, hue });
            self.accum = 0;
        } else {
            self.accum = a;
        }
    }

    /// Moves every band down by the jumprope speed and resolves the
    /// player's contacts with them: a hit of another colour costs
    /// `JUMPROPE_HIT_LOSS`, removes the band and flags the player; a graze
    /// costs `GRAZE_LOSS` and grows the radius by `GRAZE_RADIUS`. Then the
    /// oldest band leaves if it is below the view.
    pub fn advance_jumpropes(&mut self)
        requires
            old(self).inv(),
            old(self).has_headroom(),
        ensures
            final(self).inv(),
            jumpropes_advanced(*old(self), *final(self)),
            final(self).signal_lost <= old(self).signal_lost + MAX_PHASE_LOSS,
    {
        let probe = self.probe(JUMPROPE_WIDTH, JUMPROPE_HEIGHT);
        let moved = shift(&self.jumpropes, Vec2 { x: 0, y: -self.jumprope_speed });
        let swept = sweep(&moved, &probe, JUMPROPE_HIT_LOSS);
        proof {
            lemma_sweep_accounting(moved@, probe, JUMPROPE_HIT_LOSS as int);
        }
        let mut kept = swept.kept;
        let ghost before = kept@;
        if kept.len() > 0 && kept[0].pos.y < -VIEW_HEIGHT {
            kept.remove(0);
            assert(kept@ =~= before.subrange(1, before.len() as int));
        }
        self.jumpropes = kept;
        self.signal_lost = self.signal_lost + swept.loss;
        let gain = GRAZE_RADIUS * swept.grazes;
        self.radius = if self.radius <= RADIUS_CAP - gain {
            self.radius + gain
        } else {
            RADIUS_CAP
        };
        self.hit = self.hit || swept.hits > 0;
    }

    /// Advances the active lanes one tick (see `advance_lane`), lane `i`
    /// with `fresh[i]` as its spawn candidate; inactive lanes stand still.
    /// Each damaging projectile hit costs `PROJECTILE_HIT_LOSS` and flags
    /// the player; each graze costs `GRAZE_LOSS`.
    pub fn advance_lanes(&mut self, fresh: &Vec<Hazard>)
        requires
            old(self).inv(),
            old(self).has_headroom(),
            fresh@.len() == LANE_COUNT,
            all_wf(fresh@),
        ensures
            final(self).inv(),
            lanes_advanced(*old(self), *final(self), fresh@),
            final(self).signal_lost <= old(self).signal_lost + MAX_PHASE_LOSS,
    {
        let probe = self.probe(PROJECTILE_WIDTH, PROJECTILE_HEIGHT);
        let ghost probe_s = probe_spec(*self, PROJECTILE_WIDTH as int, PROJECTILE_HEIGHT as int);
        let ghost speed = self.laser_speed as int;
        let active = self.current_spawns;
        let mut new_lanes: Vec<Lane> = Vec::new();
        let mut loss: u64 = 0;
        let mut hits: u64 = 0;
        let mut i: usize = 0;
        while i < LANE_COUNT
            invariant
                i <= LANE_COUNT,
                self.inv(),
                probe == probe_s,
                probe.wf(),
                speed == self.laser_speed,
                active == self.current_spawns,
                fresh@.len() == LANE_COUNT,
                all_wf(fresh@),
                new_lanes@.len() == i,
                forall|j: int|
                    0 <= j < i ==> #[trigger] new_lanes@[j].entries@ == lane_after(
                        self.lanes@,
                        j,
                        active as int,
                        speed,
                        probe_s,
                        fresh@,
                    ),
                forall|j: int| 0 <= j < i ==> lane_wf(#[trigger] new_lanes@[j].entries@),
                loss == lanes_loss(self.lanes@, if i < active { i as nat } else { active as nat }, speed, probe_s),
                hits == lanes_hits(self.lanes@, if i < active { i as nat } else { active as nat }, speed, probe_s),
                loss <= 40_960_000 * i,
                hits <= 4096 * i,
            decreases LANE_COUNT - i,
        {
            if i < active {
                let step = advance_lane(&self.lanes[i].entries, self.laser_speed, &probe, fresh[i]);
                proof {
                    lemma_sweep_accounting(moved_lane(self.lanes@[i as int].entries@, speed), probe_s, PROJECTILE_HIT_LOSS as int);
                }
                new_lanes.push(Lane { entries: step.entries });
                loss = loss + step.loss;
                hits = hits + step.hits;
            } else {
                new_lanes.push(Lane { entries: copy_hazards(&self.lanes[i].entries) });
            }
            i = i + 1;
        }
        self.lanes = new_lanes;
        self.signal_lost = self.signal_lost + loss;
        self.hit = self.hit || hits > 0;
    }

    /// Clusterbomb arrivals: when no bomb is in flight, `first` is
    /// launched once the score reaches `CLUSTER_SPAWN_START_SCORE`, and
    /// `second` too once it reaches `CLUSTER_SPAWN_INCREASE_SCORE`. A
    /// candidate that could not be aimed (`None`) is skipped.
    pub fn cluster_arrival(&mut self, first: Option<Clusterbomb>, second: Option<Clusterbomb>)
        requires
            old(self).inv(),
            first matches Some(b) ==> b.wf() && b.live(),
            second matches Some(b) ==> b.wf() && b.live(),
        ensures
            final(self).inv(),
            clusters_arrived(*old(self), *final(self), first, second),
    {
        if self.clusters.len() == 0 {
            let ghost empty = self.clusters@;
            if self.score >= CLUSTER_SPAWN_START_SCORE {
                if let Some(b) = first {
                    self.clusters.push(b);
                }
            }
            let ghost mid = self.clusters@;
            if self.score >= CLUSTER_SPAWN_INCREASE_SCORE {
                if let Some(b) = second {
                    self.clusters.push(b);
                }
            }
            assert(self.clusters@ =~= (match first {
                Some(b) if self.score >= CLUSTER_SPAWN_START_SCORE => seq![b],
                _ => seq![],
            }) + (match second {
                Some(b) if self.score >= CLUSTER_SPAWN_INCREASE_SCORE => seq![b],
                _ => seq![],
            }));
        }
    }

    /// One tick of flight for every bomb. A bomb whose flight time reaches
    /// `CLUSTER_END_T` is removed and leaves its ring of fragments at its
    /// target (as many as the fragment pool has room for).
    pub fn advance_clusters(&mut self)
        requires
            old(self).inv(),
        ensures
            final(self).inv(),
            clusters_advanced(*old(self), *final(self)),
    {
        let mut kept: Vec<Clusterbomb> = Vec::new();
        let mut frags: Vec<Particle> = Vec::new();
        core::mem::swap(&mut frags, &mut self.fragments);
        let ghost frags0 = frags@;
        let mut i: usize = 0;
        while i < self.clusters.len()
            invariant
                i <= self.clusters@.len(),
                clusters_wf(self.clusters@),
                frags0.len() <= POOL_CAP,
                particles_wf(frags0),
                all_alive(frags0),
                kept@ == flown(self.clusters@.take(i as int)),
                clusters_wf(kept@),
                kept@.len() <= i,
                frags@ == append_capped(frags0, rings(self.clusters@.take(i as int))),
                frags@.len() <= POOL_CAP,
                particles_wf(frags@),
                all_alive(frags@),
            decreases self.clusters@.len() - i,
        {
            assert(self.clusters@.take(i + 1).drop_last() =~= self.clusters@.take(i as int));
            let mut b = self.clusters[i];
            b.update(1);
            if b.t >= CLUSTER_END_T {
                let ghost before = frags@;
                let mut k: u32 = 0;
                while k < CLUSTER_FRAG_COUNT
                    invariant
                        k <= CLUSTER_FRAG_COUNT,
                        b.wf(),
                        before.len() <= POOL_CAP,
                        frags@ == append_capped(before, ring(b.end_pos, b.hue).take(k as int)),
                        frags@.len() <= POOL_CAP,
                        particles_wf(frags@),
                        all_alive(frags@),
                        particles_wf(before),
                        all_alive(before),
                    decreases CLUSTER_FRAG_COUNT - k,
                {
                    let d = unit_direction(2 * k);
                    let bias = Vec2 { x: CLUSTER_FRAG_SPEED * d.x / 1000, y: CLUSTER_FRAG_SPEED * d.y / 1000 };
                    let frag = Particle::spawn_with(b.end_pos, 0, 0, bias, b.hue, 0, 0, 0, 0);
                    proof {
                        lemma_append_capped(before, ring(b.end_pos, b.hue).take(k as int), seq![frag]);
                        assert(ring(b.end_pos, b.hue).take(k as int) + seq![frag] =~= ring(b.end_pos, b.hue).take(k + 1));
                    }
                    if frags.len() < POOL_CAP {
                        frags.push(frag);
                    }
                    k = k + 1;
                }
                proof {
                    lemma_append_capped(frags0, rings(self.clusters@.take(i as int)), ring(b.end_pos, b.hue));
                    assert(ring(b.end_pos, b.hue).take(CLUSTER_FRAG_COUNT as int) =~= ring(b.end_pos, b.hue));
                }
            } else {
                kept.push(b);
            }
            i = i + 1;
        }
        assert(self.clusters@.take(self.clusters@.len() as int) =~= self.clusters@);
        self.clusters = kept;
        self.fragments = frags;
    }

    /// Resolves the player's contacts with every fragment (see
    /// `sweep_fragments`): a damaging hit costs `FRAGMENT_HIT_LOSS`, removes
    /// the fragment and flags the player. The rest move one tick.
    pub fn advance_fragments(&mut self)
        requires
            old(self).inv(),
            old(self).has_headroom(),
        ensures
            final(self).inv(),
            fragments_advanced(*old(self), *final(self)),
            final(self).signal_lost <= old(self).signal_lost + MAX_PHASE_LOSS,
    {
        let probe = self.probe(CLUSTER_WIDTH, CLUSTER_WIDTH);
        let swept = sweep_fragments(&self.fragments, &probe, FRAGMENT_HIT_LOSS);
        self.fragments = swept.kept;
        self.signal_lost = self.signal_lost + swept.loss;
        self.hit = self.hit || swept.hits > 0;
    }

    /// Leaves glow particles at both ends of every band: two drifting in
    /// from the right edge, two from the left, each of the band's colour
    /// (see `glow_left`), with directions and jitter drawn from `rng`, while
    /// the pool has room.
    pub fn spawn_band_particles(&mut self, rng: &mut StdRng)
        requires
            old(self).inv(),
        ensures
            final(self).inv(),
            bands_glowed(*old(self), *final(self)),
    {
        let mut pool: Vec<Particle> = Vec::new();
        core::mem::swap(&mut pool, &mut self.particles);
        let ghost start = pool@;
        assert(start.take(start.len() as int) =~= start);
        let mut i: usize = 0;
        while i < self.jumpropes.len()
            invariant
                i <= self.jumpropes@.len(),
                lane_wf(self.jumpropes@),
                particles_wf(pool@),
                start.len() <= POOL_CAP,
                glow_left_upto(start, pool@, self.jumpropes@, 4 * i),
            decreases self.jumpropes@.len() - i,
        {
            let band = self.jumpropes[i];
            let right = Vec2 { x: JUMPROPE_X + VIEW_WIDTH, y: band.pos.y };
            let left = Vec2 { x: JUMPROPE_X - VIEW_WIDTH, y: band.pos.y };
            let inward = Vec2 { x: -GLOW_DRIFT, y: 0 };
            let outward = Vec2 { x: GLOW_DRIFT, y: 0 };
            let mut k: usize = 0;
            while k < 4
                invariant
                    k <= 4,
                    i < self.jumpropes@.len(),
                    band == self.jumpropes@[i as int],
                    band.wf(),
                    right == glow_origin(band, 0),
                    left == glow_origin(band, 2),
                    inward == glow_drift(0),
                    outward == glow_drift(2),
                    particles_wf(pool@),
                    start.len() <= POOL_CAP,
                    glow_left_upto(start, pool@, self.jumpropes@, 4 * i + k),
                decreases 4 - k,
            {
                let p = if k < 2 {
                    Particle::spawn(right, GLOW_SPEED, GLOW_ACCEL, inward, band.hue, rng)
                } else {
                    Particle::spawn(left, GLOW_SPEED, GLOW_ACCEL, outward, band.hue, rng)
                };
                proof {
                    let idx = 4 * i + k;
                    assert(idx / 4 == i && idx % 4 == k) by (nonlinear_arith)
                        requires idx == 4 * i + k, 0 <= k < 4;
                    assert(glow_origin(band, k as int) == if k < 2 { right } else { left });
                    assert(glow_drift(k as int) == if k < 2 { inward } else { outward });
                    assert(is_glow_of(self.jumpropes@[idx / 4], idx % 4, p));
                }
                let ghost before = pool@;
                push_capped(&mut pool, p);
                proof {
                    assert(pool@.take(start.len() as int) =~= before.take(start.len() as int));
                    assert forall|m: int| start.len() <= m < pool@.len() implies #[trigger] is_glow_of(
                        self.jumpropes@[(m - start.len()) / 4],
                        (m - start.len()) % 4,
                        pool@[m],
                    ) by {
                        if m < before.len() {
                            assert(pool@[m] == before[m]);
                        }
                    }
                }
                k = k + 1;
            }
            i = i + 1;
        }
        self.particles = pool;
    }

    /// Drops the expired glow particles and advances the rest one
    /// free-physics step, each with a decay drawn from `rng`.
    pub fn advance_particles(&mut self, rng: &mut StdRng)
        requires
            old(self).inv(),
        ensures
            final(self).inv(),
            particles_advanced(*old(self), *final(self)),
    {
        let live = retain_alive(&self.particles);
        self.particles = update_all(&live, rng);
    }

    /// Every `GHOST_INTERVAL` ticks, leaves a ghost of each projectile of
    /// the active lanes, lane by lane (see `ghosts_left`): where it stands,
    /// of its colour and at rest, jittered by `rng`, while the pool has room.
    pub fn spawn_ghosts(&mut self, rng: &mut StdRng)
        requires
            old(self).inv(),
        ensures
            final(self).inv(),
            ghosts_spawned(*old(self), *final(self)),
    {
        if self.frames % GHOST_INTERVAL != 0 {
            return;
        }
        let mut pool: Vec<Particle> = Vec::new();
        core::mem::swap(&mut pool, &mut self.ghosts);
        let ghost start = pool@;
        assert(start.take(start.len() as int) =~= start);
        let mut i: usize = 0;
        while i < self.current_spawns
            invariant
                i <= self.current_spawns <= LANE_COUNT,
                self.lanes@.len() == LANE_COUNT,
                forall|j: int| 0 <= j < self.lanes@.len() ==> lane_wf(#[trigger] self.lanes@[j].entries@),
                particles_wf(pool@),
                all_alive(pool@),
                start.len() <= POOL_CAP,
                ghosts_left(start, pool@, lane_entries(self.lanes@, i as nat)),
            decreases self.current_spawns - i,
        {
            let lane = &self.lanes[i].entries;
            assert(lane_wf(self.lanes@[i as int].entries@));
            let ghost done = lane_entries(self.lanes@, i as nat);
            let mut j: usize = 0;
            while j < lane.len()
                invariant
                    j <= lane@.len(),
                    lane_wf(lane@),
                    particles_wf(pool@),
                    all_alive(pool@),
                    start.len() <= POOL_CAP,
                    ghosts_left(start, pool@, done + lane@.take(j as int)),
                decreases lane@.len() - j,
            {
                let h = lane[j];
                assert(h.wf());
                let p = Particle::spawn(h.pos, 0, 0, Vec2 { x: 0, y: 0 }, h.hue, rng);
                assert(is_ghost_of(h, p));
                let ghost src = done + lane@.take(j as int);
                let ghost before = pool@;
                push_capped(&mut pool, p);
                proof {
                    let src2 = done + lane@.take(j + 1);
                    assert(src2 =~= src.push(h));
                    assert(pool@.take(start.len() as int) =~= before.take(start.len() as int));
                    assert forall|m: int| start.len() <= m < pool@.len() implies #[trigger] is_ghost_of(
                        src2[m - start.len()],
                        pool@[m],
                    ) by {
                        if m < before.len() {
                            assert(pool@[m] == before[m]);
                            assert(src2[m - start.len()] == src[m - start.len()]);
                        }
                    }
                }
                j = j + 1;
            }
            proof {
                assert(lane@.take(lane@.len() as int) =~= lane@);
                assert(lane_entries(self.lanes@, (i + 1) as nat) == done + self.lanes@[i as int].entries@);
            }
            i = i + 1;
        }
        self.ghosts = pool;
    }

    /// Fades every ghost by `GHOST_FADE` and drops those that expire.
    pub fn advance_ghosts(&mut self)
        requires
            old(self).inv(),
        ensures
            final(self).inv(),
            ghosts_faded(*old(self), *final(self)),
    {
        self.ghosts = fade(&self.ghosts, GHOST_FADE);
    }

    /// The frame this state shows (see `frame_of`).
    pub fn render(&self) -> (r: RenderFrame)
        requires
            self.inv(),
        ensures
            frame_of(*self, r),
    {
        let player_paint = if self.hit {
            Paint::Red
        } else {
            Paint::Hue { hue: stepped_hue(self.selector), alpha: LIFE_FULL }
        };
        let player = Sprite {
            rect: build_rect(self.player.x, self.player.y, PLAYER_SIZE, PLAYER_SIZE),
            paint: player_paint,
        };
        let goal_paint = if self.carrying {
            Paint::White
        } else {
            Paint::Hue { hue: stepped_hue(self.goal_t), alpha: LIFE_FULL }
        };
        let goal = Sprite { rect: build_rect(GOAL_X, GOAL_Y, GOAL_SIZE, GOAL_SIZE), paint: goal_paint };
        let mut projectiles: Vec<Sprite> = Vec::new();
        let mut i: usize = 0;
        while i < self.current_spawns
            invariant
                i <= self.current_spawns <= LANE_COUNT,
                self.lanes@.len() == LANE_COUNT,
                forall|j: int| 0 <= j < self.lanes@.len() ==> lane_wf(#[trigger] self.lanes@[j].entries@),
                projectiles@ == lanes_sprites(self.lanes@, i as nat),
            decreases self.current_spawns - i,
        {
            assert(lane_wf(self.lanes@[i as int].entries@));
            push_hazard_sprites(&mut projectiles, &self.lanes[i].entries, PROJECTILE_WIDTH, PROJECTILE_HEIGHT);
            i = i + 1;
        }
        let mut jumpropes: Vec<Sprite> = Vec::new();
        push_hazard_sprites(&mut jumpropes, &self.jumpropes, JUMPROPE_WIDTH, JUMPROPE_HEIGHT);
        assert(jumpropes@ =~= hazard_sprites(self.jumpropes@, JUMPROPE_WIDTH as int, JUMPROPE_HEIGHT as int));
        let mut clusters: Vec<Sprite> = Vec::new();
        let mut targets: Vec<Sprite> = Vec::new();
        let mut k: usize = 0;
        while k < self.clusters.len()
            invariant
                k <= self.clusters@.len(),
                clusters_wf(self.clusters@),
                clusters@ == Seq::new(k as nat, |i: int| bomb_sprite(self.clusters@[i])),
                targets@ == Seq::new(k as nat, |i: int| target_sprite(self.clusters@[i])),
            decreases self.clusters@.len() - k,
        {
            let b = self.clusters[k];
            assert(b.wf());
            let p = b.position();
            clusters.push(Sprite {
                rect: build_rect(p.x, p.y, CLUSTER_WIDTH, CLUSTER_WIDTH),
                paint: Paint::Hue { hue: b.hue, alpha: LIFE_FULL },
            });
            targets.push(Sprite {
                rect: build_rect(b.end_pos.x, b.end_pos.y, 2 * PLAYER_SIZE, 2 * PLAYER_SIZE),
                paint: Paint::Hue { hue: b.hue, alpha: LIFE_FULL },
            });
            k = k + 1;
            assert(clusters@ =~= Seq::new(k as nat, |i: int| bomb_sprite(self.clusters@[i])));
            assert(targets@ =~= Seq::new(k as nat, |i: int| target_sprite(self.clusters@[i])));
        }
        let mut fragments: Vec<Sprite> = Vec::new();
        push_particle_sprites(&mut fragments, &self.fragments, CLUSTER_WIDTH, CLUSTER_WIDTH, false);
        assert(fragments@ =~= particle_sprites(self.fragments@, CLUSTER_WIDTH as int, CLUSTER_WIDTH as int, false));
        let mut particles: Vec<Sprite> = Vec::new();
        push_particle_sprites(&mut particles, &self.particles, PARTICLE_SIZE, PARTICLE_SIZE, true);
        push_particle_sprites(&mut particles, &self.ghosts, PROJECTILE_WIDTH, PROJECTILE_HEIGHT, true);
        assert(particles@ =~= particle_sprites(self.particles@, PARTICLE_SIZE as int, PARTICLE_SIZE as int, true)
            + particle_sprites(self.ghosts@, PROJECTILE_WIDTH as int, PROJECTILE_HEIGHT as int, true));
        RenderFrame {
            player,
            goal,
            projectiles,
            jumpropes,
            clusters,
            targets,
            fragments,
            particles,
            signal_lost: self.signal_lost,
            score: self.score,
            radius: self.radius,
        }
    }

    /// A fresh session: the player at rest in the centre with the selector
    /// at zero; one projectile in each lane, `INITIAL_SPAWNS` lanes
    /// active; one jumprope entering at the top; colours, the goal and
    /// the projectiles' entry slots drawn from `rng`.
    pub fn new(rng: &mut StdRng) -> (r: Game)
        ensures
            r.wf(),
            r.status == Status::Running,
            r.player == (Vec2 { x: 0, y: 0 }),
            r.selector == 0,
            r.keys@.len() == 0,
            r.score == 0,
            r.signal_lost == 0,
            r.radius == RADIUS_START,
            !r.carrying,
            r.current_spawns == INITIAL_SPAWNS,
            r.laser_speed == LASER_SPEED_START,
            r.jumprope_speed == JUMPROPE_SPEED_START,
            forall|i: int| 0 <= i < LANE_COUNT ==> (#[trigger] r.lanes@[i]).entries@.len() == 1,
            forall|i: int| 0 <= i < LANE_COUNT ==> initial_entry(#[trigger] r.lanes@[i].entries@[0], i),
            r.jumpropes@.len() == 1,
            r.jumpropes@[0].pos == (Vec2 { x: JUMPROPE_X, y: JUMPROPE_START_Y }),
            r.accum == 0,
            r.clusters@.len() == 0,
            r.fragments@.len() == 0,
            r.particles@.len() == 0,
            r.ghosts@.len() == 0,
            r.frames == 0,
            !r.hit,
    {
        let goal_t = roll(rng, SELECTOR_FULL);
        let mut lanes: Vec<Lane> = Vec::new();
        let mut i: usize = 0;
        while i < LANE_COUNT
            invariant
                i <= LANE_COUNT,
                lanes@.len() == i,
                forall|j: int| 0 <= j < i ==> lane_wf(#[trigger] lanes@[j].entries@),
                forall|j: int| 0 <= j < i ==> (#[trigger] lanes@[j]).entries@.len() == 1,
                forall|j: int| 0 <= j < i ==> initial_entry(#[trigger] lanes@[j].entries@[0], j),
            decreases LANE_COUNT - i,
        {
            let slot = roll(rng, INITIAL_SLOTS) as i64;
            let hue = stepped_hue(roll(rng, SELECTOR_FULL));
            let first = Hazard {
                pos: Vec2 {
                    x: PATH_X + SLOT_WIDTH * slot,
                    y: (2 * VIEW_HEIGHT / LANE_COUNT as i64) * i as i64 + (2 * VIEW_HEIGHT
                        / INITIAL_SPAWNS as i64) / 2 - VIEW_HEIGHT,
                },
                hue,
            };
            let mut entries: Vec<Hazard> = Vec::new();
            entries.push(first);
            lanes.push(Lane { entries });
            i = i + 1;
        }
        let mut jumpropes: Vec<Hazard> = Vec::new();
        jumpropes.push(
            Hazard {
                pos: Vec2 { x: JUMPROPE_X, y: JUMPROPE_START_Y },
                hue: stepped_hue(roll(rng, SELECTOR_FULL)),
            },
        );
        Game {
            player: Vec2 { x: 0, y: 0 },
            selector: 0,
            keys: Vec::new(),
            score: 0,
            signal_lost: 0,
            radius: RADIUS_START,
            carrying: false,
            goal_t,
            lanes,
            current_spawns: INITIAL_SPAWNS,
            laser_speed: LASER_SPEED_START,
            jumprope_speed: JUMPROPE_SPEED_START,
            jumpropes,
            accum: 0,
            clusters: Vec::new(),
            fragments: Vec::new(),
            particles: Vec::new(),
            ghosts: Vec::new(),
            frames: 0,
            hit: false,
            status: Status::Running,
        }
    }

    /// A clusterbomb candidate aimed at the player with every draw taken
    /// from `rng` (see `bomb_candidate`).
    pub fn draw_bomb(&self, rng: &mut StdRng) -> (r: Option<Clusterbomb>)
        requires
            self.inv(),
        ensures
            bomb_candidate(r, self.player),
    {
        let sx = roll(rng, 2 * VIEW_WIDTH as u32);
        let sy = roll(rng, 2 * VIEW_HEIGHT as u32);
        let ex = roll(rng, (VIEW_WIDTH / 4) as u32);
        let ey = roll(rng, (VIEW_HEIGHT / 4) as u32);
        let t = roll(rng, SELECTOR_FULL);
        let r = aim_bomb(self.player, sx, sy, ex, ey, stepped_hue(t));
        assert(aimed(r, self.player, sx as int, sy as int, ex as int, ey as int, hue_of(t as int)));
        r
    }

    /// One tick of the simulation, with every draw taken from `rng`. A
    /// lost session does nothing and shows nothing. Otherwise, in order:
    /// held keys apply; jumpropes arrive, move and collide; lanes move,
    /// collide, spawn and retire; ghosts are left; clusterbombs arrive,
    /// fly and burst; glow particles and ghosts age; fragments collide and
    /// move; the goal transition runs; and the session is lost once its
    /// signal loss reaches `SIGNAL_THRESHOLD`. The frame of the new state
    /// is returned.
    pub fn tick(&mut self, rng: &mut StdRng) -> (r: Option<RenderFrame>)
        requires
            old(self).wf(),
        ensures
            final(self).wf(),
            old(self).status == Status::Lost ==> r is None && *final(self) == *old(self),
            old(self).status == Status::Running ==> {
                &&& r matches Some(f) && frame_of(*final(self), f)
                &&& exists|
                    s: Seq<Game>,
                    draw: u32,
                    band_t: u32,
                    fresh: Seq<Hazard>,
                    first: Option<Clusterbomb>,
                    second: Option<Clusterbomb>,
                    goal_t: u32,
                |
                    #[trigger] tick_chain(
                        *old(self),
                        *final(self),
                        s,
                        draw,
                        band_t,
                        fresh,
                        first,
                        second,
                        goal_t,
                    )
                &&& (final(self).status == Status::Lost <==> final(self).signal_lost
                    >= SIGNAL_THRESHOLD)
                &&& final(self).frames == old(self).frames.wrapping_add(1)
                &&& final(self).score == old(self).score || final(self).score == old(self).score + 1
                &&& final(self).laser_speed >= old(self).laser_speed
                &&& final(self).jumprope_speed >= old(self).jumprope_speed
                &&& final(self).current_spawns >= old(self).current_spawns
                &&& final(self).selector == old(self).selector
                &&& final(self).keys@ == old(self).keys@
            },
    {
        if self.status == Status::Lost {
            return None;
        }
        let ghost g = *self;
        self.frames = self.frames.wrapping_add(1);
        self.hit = false;
        let ghost s0 = *self;
        assert(s0 == (Game { frames: g.frames.wrapping_add(1), hit: false, ..g }));
        self.apply_keys();
        let ghost s1 = *self;
        let draw = roll(rng, ARRIVAL_DRAW);
        let band_t = roll(rng, SELECTOR_FULL);
        let band_hue = stepped_hue(band_t);
        self.jumprope_arrival(draw, band_hue);
        let ghost s2 = *self;
        self.advance_jumpropes();
        let ghost s3 = *self;
        self.spawn_band_particles(rng);
        let ghost s4 = *self;
        let active = self.current_spawns;
        let height = (2 * VIEW_HEIGHT / active as i64) as u32;
        assert(height > 0) by (nonlinear_arith)
            requires height == 2 * VIEW_HEIGHT / (active as int), 1 <= active <= 10;
        let mut fresh: Vec<Hazard> = Vec::new();
        let mut i: usize = 0;
        while i < LANE_COUNT
            invariant
                i <= LANE_COUNT,
                1 <= active <= LANE_COUNT,
                height == lane_height(active as int),
                height > 0,
                fresh@.len() == i,
                all_wf(fresh@),
                forall|j: int| 0 <= j < i ==> fresh_candidate(#[trigger] fresh@[j], j, active as int),
            decreases LANE_COUNT - i,
        {
            let slot = roll(rng, SPAWN_SLOTS);
            let offset = roll(rng, height) as i64;
            let t = roll(rng, SELECTOR_FULL);
            let hue = stepped_hue(t);
            let h = fresh_projectile(i, active, slot, offset, hue);
            assert(h == fresh_projectile_spec(i as int, active as int, slot as int, offset as int, hue_of(t as int)));
            assert(fresh_candidate(h, i as int, active as int));
            fresh.push(h);
            i = i + 1;
        }
        self.advance_lanes(&fresh);
        let ghost s5 = *self;
        self.spawn_ghosts(rng);
        let ghost s6 = *self;
        let (first, second) = if self.clusters.len() == 0 {
            let a = self.draw_bomb(rng);
            let b = self.draw_bomb(rng);
            (a, b)
        } else {
            (None, None)
        };
        self.cluster_arrival(first, second);
        let ghost s7 = *self;
        self.advance_clusters();
        let ghost s8 = *self;
        self.advance_particles(rng);
        let ghost s9 = *self;
        self.advance_ghosts();
        let ghost s10 = *self;
        self.advance_fragments();
        let ghost s11 = *self;
        let fresh_goal = roll(rng, SELECTOR_FULL);
        self.update_goal(fresh_goal);
        let ghost s12 = *self;
        if self.signal_lost >= SIGNAL_THRESHOLD {
            self.status = Status::Lost;
        }
        proof {
            let states = seq![s0, s1, s2, s3, s4, s5, s6, s7, s8, s9, s10, s11, s12];
            assert(tick_chain(g, *self, states, draw, band_t, fresh@, first, second, fresh_goal));
        }
        Some(self.render())
    }

}

/// The game's colour of selector value `t`.
pub open spec fn hue_of(t: int) -> HueStep {
    quantize_spec(t, COLOR_STEPS as int, HUE_OFFSET as int)
}

/// The player as hazards of size `width` by `height` see it.
pub open spec fn probe_spec(g: Game, width: int, height: int) -> Probe {
    Probe {
        player: rect_spec(g.player.x as int, g.player.y as int, PLAYER_SIZE as int, PLAYER_SIZE as int),
        player_hue: hue_of(g.selector as int),
        width: width as i64,
        height: height as i64,
    }
}

/// The bands after the exit rule: the oldest leaves once below the view.
pub open spec fn exited(s: Seq<Hazard>) -> Seq<Hazard> {
    if s.len() > 0 && s[0].pos.y < -VIEW_HEIGHT {
        s.subrange(1, s.len() as int)
    } else {
        s
    }
}

/// The bands moved down by `speed`.
pub open spec fn lowered(s: Seq<Hazard>, speed: int) -> Seq<Hazard> {
    shifted(s, Vec2 { x: 0, y: (-speed) as i64 })
}

/// `radius` grown by `amount`, up to `RADIUS_CAP`.
pub open spec fn grown_radius(radius: int, amount: int) -> int {
    if radius + amount <= RADIUS_CAP {
        radius + amount
    } else {
        RADIUS_CAP as int
    }
}

/// Signal lost to projectiles in the first `n` lanes.
pub open spec fn lanes_loss(lanes: Seq<Lane>, n: nat, speed: int, probe: Probe) -> int
    decreases n,
{
    if n == 0 {
        0
    } else {
        lanes_loss(lanes, (n - 1) as nat, speed, probe) + sweep_loss(
            moved_lane(lanes[n - 1].entries@, speed),
            probe,
            PROJECTILE_HIT_LOSS as int,
        )
    }
}

/// Damaging projectile hits in the first `n` lanes.
pub open spec fn lanes_hits(lanes: Seq<Lane>, n: nat, speed: int, probe: Probe) -> int
    decreases n,
{
    if n == 0 {
        0
    } else {
        lanes_hits(lanes, (n - 1) as nat, speed, probe) + count_contacts(
            moved_lane(lanes[n - 1].entries@, speed),
            probe,
            Contact::Hit,
        )
    }
}

/// Lane `i` after a tick with `fresh` candidates, when `active` lanes run.
pub open spec fn lane_after(
    lanes: Seq<Lane>,
    i: int,
    active: int,
    speed: int,
    probe: Probe,
    fresh: Seq<Hazard>,
) -> Seq<Hazard> {
    if i < active {
        lane_step(lanes[i].entries@, speed, probe, fresh[i])
    } else {
        lanes[i].entries@
    }
}

/// Fragment `k` of the ring a bomb leaves at `at`: no jitter, launched at
/// `CLUSTER_FRAG_SPEED` along direction `2k` of `DIRECTIONS`.
pub open spec fn ring_fragment(at: Vec2, hue: HueStep, k: int) -> Particle {
    let d = direction_spec(2 * k);
    spawned(
        at,
        0,
        0,
        Vec2 { x: (CLUSTER_FRAG_SPEED * d.x / 1000) as i64, y: (CLUSTER_FRAG_SPEED * d.y / 1000) as i64 },
        hue,
        0,
        0,
        0,
        0,
    )
}

/// The ring of fragments a bomb leaves at `at`.
pub open spec fn ring(at: Vec2, hue: HueStep) -> Seq<Particle> {
    Seq::new(CLUSTER_FRAG_COUNT as nat, |k: int| ring_fragment(at, hue, k))
}

/// `pool` with as much of `extra` as fits under `POOL_CAP`.
pub open spec fn append_capped(pool: Seq<Particle>, extra: Seq<Particle>) -> Seq<Particle> {
    if pool.len() + extra.len() <= POOL_CAP {
        pool + extra
    } else if pool.len() <= POOL_CAP {
        pool + extra.take(POOL_CAP - pool.len())
    } else {
        pool
    }
}

/// The bombs of `s` after one tick of flight, those that land removed.
pub open spec fn flown(s: Seq<Clusterbomb>) -> Seq<Clusterbomb>
    decreases s.len(),
{
    if s.len() == 0 {
        seq![]
    } else {
        let b = Clusterbomb { t: (s.last().t + 1) as u32, ..s.last() };
        if b.live() {
            flown(s.drop_last()).push(b)
        } else {
            flown(s.drop_last())
        }
    }
}

/// The rings left by the bombs of `s` that land this tick, in order.
pub open spec fn rings(s: Seq<Clusterbomb>) -> Seq<Particle>
    decreases s.len(),
{
    if s.len() == 0 {
        seq![]
    } else if s.last().t + 1 >= CLUSTER_END_T {
        rings(s.drop_last()) + ring(s.last().end_pos, s.last().hue)
    } else {
        rings(s.drop_last())
    }
}

proof fn lemma_append_capped(pool: Seq<Particle>, a: Seq<Particle>, b: Seq<Particle>)
    requires
        pool.len() <= POOL_CAP,
    ensures
        append_capped(append_capped(pool, a), b) == append_capped(pool, a + b),
        append_capped(pool, a).len() <= POOL_CAP,
{
    if pool.len() + a.len() <= POOL_CAP {
        if pool.len() + a.len() + b.len() <= POOL_CAP {
            assert(pool + a + b =~= pool + (a + b));
        } else {
            assert((pool + a) + b.take(POOL_CAP - pool.len() - a.len()) =~= pool + (a + b).take(
                POOL_CAP - pool.len(),
            ));
        }
    } else {
        assert(pool + a.take(POOL_CAP - pool.len()) =~= pool + (a + b).take(POOL_CAP - pool.len()));
    }
}

/// The player's rectangle.
pub open spec fn player_rect(g: Game) -> Rect {
    rect_spec(g.player.x as int, g.player.y as int, PLAYER_SIZE as int, PLAYER_SIZE as int)
}

/// Height of each of `active` lanes, which share twice the view's height.
pub open spec fn lane_height(active: int) -> int {
    2 * VIEW_HEIGHT / active
}

/// The vertical centre of lane `lane` when `active` lanes run.
pub open spec fn lane_center(lane: int, active: int) -> int {
    lane_height(active) * lane + lane_height(active) / 2 - VIEW_HEIGHT
}

/// A spawn candidate for lane `lane` of `active`: `slot` slots right of
/// `PATH_X`, `offset` down from the top of the lane.
pub open spec fn fresh_projectile_spec(lane: int, active: int, slot: int, offset: int, hue: HueStep) -> Hazard {
    Hazard {
        pos: Vec2 {
            x: (PATH_X + SLOT_WIDTH * slot) as i64,
            y: (lane_center(lane, active) - lane_height(active) / 2 + offset) as i64,
        },
        hue,
    }
}

/// The first projectile of lane `lane` in a fresh session: a whole number
/// of slots (fewer than `INITIAL_SLOTS`) right of `PATH_X`, the lanes
/// spread evenly over twice the view's height.
pub open spec fn initial_entry(h: Hazard, lane: int) -> bool {
    &&& h.pos.y == (2 * VIEW_HEIGHT / LANE_COUNT as int) * lane + lane_height(INITIAL_SPAWNS as int)
        / 2 - VIEW_HEIGHT
    &&& PATH_X <= h.pos.x < PATH_X + SLOT_WIDTH * INITIAL_SLOTS
    &&& (h.pos.x - PATH_X) % (SLOT_WIDTH as int) == 0
    &&& h.hue.steps == COLOR_STEPS
}

/// The jumprope arrival rule of `Game::jumprope_arrival` with draw `draw`
/// and a new band of colour `hue`; nothing else changes.
pub open spec fn jumprope_arrival_step(g: Game, h: Game, draw: u32, hue: HueStep) -> bool {
    &&& ({
        let a = if g.accum + draw <= ACCUM_CAP {
            g.accum + draw
        } else {
            ACCUM_CAP as int
        };
        if a >= JUMPROPE_THRESHOLD && g.jumpropes@.len() < JUMPROPE_LIMIT {
            &&& h.jumpropes@ == g.jumpropes@.push(
                Hazard { pos: Vec2 { x: JUMPROPE_X, y: JUMPROPE_START_Y }, hue },
            )
            &&& h.accum == 0
        } else {
            &&& h.jumpropes@ == g.jumpropes@
            &&& h.accum == a
        }
    })
    &&& h == (Game {
        jumpropes: h.jumpropes,
        accum: h.accum,
        ..g
    })
}

/// The bands' tick of `Game::advance_jumpropes`: move, collide, exit;
/// only the bands, signal loss, radius and hit flag change.
pub open spec fn jumpropes_advanced(g: Game, h: Game) -> bool {
    &&& ({
        let probe = probe_spec(g, JUMPROPE_WIDTH as int, JUMPROPE_HEIGHT as int);
        let moved = lowered(g.jumpropes@, g.jumprope_speed as int);
        &&& h.jumpropes@ == exited(survivors(moved, probe))
        &&& h.signal_lost == g.signal_lost + sweep_loss(
            moved,
            probe,
            JUMPROPE_HIT_LOSS as int,
        )
        &&& h.radius == grown_radius(
            g.radius as int,
            GRAZE_RADIUS * count_contacts(moved, probe, Contact::Graze),
        )
        &&& h.hit == (g.hit || count_contacts(moved, probe, Contact::Hit)
            > 0)
    })
    &&& h == (Game {
        jumpropes: h.jumpropes,
        signal_lost: h.signal_lost,
        radius: h.radius,
        hit: h.hit,
        ..g
    })
}

/// The lanes' tick of `Game::advance_lanes` with spawn candidates `fresh`;
/// only the lanes, signal loss and hit flag change.
pub open spec fn lanes_advanced(g: Game, h: Game, fresh: Seq<Hazard>) -> bool {
    &&& ({
        let probe = probe_spec(g, PROJECTILE_WIDTH as int, PROJECTILE_HEIGHT as int);
        let speed = g.laser_speed as int;
        let active = g.current_spawns as int;
        &&& h.lanes@.len() == LANE_COUNT
        &&& forall|i: int|
            0 <= i < LANE_COUNT ==> #[trigger] h.lanes@[i].entries@ == lane_after(
                g.lanes@,
                i,
                active,
                speed,
                probe,
                fresh,
            )
        &&& h.signal_lost == g.signal_lost + lanes_loss(
            g.lanes@,
            active as nat,
            speed,
            probe,
        )
        &&& h.hit == (g.hit || lanes_hits(
            g.lanes@,
            active as nat,
            speed,
            probe,
        ) > 0)
    })
    &&& h == (Game {
        lanes: h.lanes,
        signal_lost: h.signal_lost,
        hit: h.hit,
        ..g
    })
}

/// The clusterbomb arrival rule of `Game::cluster_arrival`; only the
/// bombs change.
pub open spec fn clusters_arrived(g: Game, h: Game, first: Option<Clusterbomb>, second: Option<Clusterbomb>) -> bool {
    &&& h.clusters@ == if g.clusters@.len() == 0 {
        let one: Seq<Clusterbomb> = match first {
            Some(b) if g.score >= CLUSTER_SPAWN_START_SCORE => seq![b],
            _ => seq![],
        };
        let two: Seq<Clusterbomb> = match second {
            Some(b) if g.score >= CLUSTER_SPAWN_INCREASE_SCORE => seq![b],
            _ => seq![],
        };
        one + two
    } else {
        g.clusters@
    }
    &&& h == (Game { clusters: h.clusters, ..g })
}

/// The bombs' tick of `Game::advance_clusters`: fly, burst into rings.
pub open spec fn clusters_advanced(g: Game, h: Game) -> bool {
    &&& h.clusters@ == flown(g.clusters@)
    &&& h.fragments@ == append_capped(g.fragments@, rings(g.clusters@))
    &&& h == (Game {
        clusters: h.clusters,
        fragments: h.fragments,
        ..g
    })
}

/// The fragments' tick of `Game::advance_fragments`: collide, move, expire.
pub open spec fn fragments_advanced(g: Game, h: Game) -> bool {
    &&& ({
        let probe = probe_spec(g, CLUSTER_WIDTH as int, CLUSTER_WIDTH as int);
        &&& h.fragments@ == fragment_survivors(g.fragments@, probe)
        &&& h.signal_lost == g.signal_lost + fragment_loss(
            g.fragments@,
            probe,
            FRAGMENT_HIT_LOSS as int,
        )
        &&& h.hit == (g.hit || fragment_contacts(
            g.fragments@,
            probe,
            Contact::Hit,
        ) > 0)
    })
    &&& h == (Game {
        fragments: h.fragments,
        signal_lost: h.signal_lost,
        hit: h.hit,
        ..g
    })
}

/// The glow particles' tick of `Game::advance_particles`: expire, then one
/// free-physics step each with some decay.
pub open spec fn particles_advanced(g: Game, h: Game) -> bool {
    &&& h.particles@.len() == alive_only(g.particles@).len()
    &&& forall|i: int|
        0 <= i < h.particles@.len() ==> #[trigger] free_stepped(
            alive_only(g.particles@)[i],
            h.particles@[i],
        )
    &&& h == (Game { particles: h.particles, ..g })
}

/// The ghosts' tick of `Game::advance_ghosts`.
pub open spec fn ghosts_faded(g: Game, h: Game) -> bool {
    &&& h.ghosts@ == faded(g.ghosts@, GHOST_FADE as int)
    &&& h == (Game { ghosts: h.ghosts, ..g })
}

/// Glow particles left at both ends of every band, as
/// `Game::spawn_band_particles` leaves them.
pub open spec fn bands_glowed(g: Game, h: Game) -> bool {
    &&& glow_left(g.particles@, h.particles@, g.jumpropes@)
    &&& h == (Game { particles: h.particles, ..g })
}

/// Ghosts left as `Game::spawn_ghosts` leaves them.
pub open spec fn ghosts_spawned(g: Game, h: Game) -> bool {
    &&& g.frames % GHOST_INTERVAL != 0 ==> h.ghosts@ == g.ghosts@
    &&& g.frames % GHOST_INTERVAL == 0 ==> ghosts_left(
        g.ghosts@,
        h.ghosts@,
        lane_entries(g.lanes@, g.current_spawns as nat),
    )
    &&& h == (Game { ghosts: h.ghosts, ..g })
}

/// `r` is the bomb aimed from `(sx - VIEW_WIDTH, sy - VIEW_HEIGHT)` at
/// `(ex, ey)` off `player` with colour `hue`, as `from_positions` aims it:
/// `None` exactly when the target is out of reach.
pub open spec fn aimed(
    r: Option<Clusterbomb>,
    player: Vec2,
    sx: int,
    sy: int,
    ex: int,
    ey: int,
    hue: HueStep,
) -> bool {
    let start = Vec2 { x: (sx - VIEW_WIDTH) as i64, y: (sy - VIEW_HEIGHT) as i64 };
    let end = Vec2 {
        x: clamp_world_spec(player.x + ex) as i64,
        y: clamp_world_spec(player.y + ey) as i64,
    };
    &&& r is None <==> (end.x - start.x) * (end.x - start.x) > reach() * reach()
    &&& r matches Some(b) ==> {
        &&& b.wf()
        &&& b.live()
        &&& b.t == 0
        &&& b.hue == hue
        &&& b.start_pos == start
        &&& b.end_pos == end
        &&& is_launch_lift(end.x - start.x, b.lift as int)
    }
}

/// `c` is a clusterbomb candidate of a tick for a player at `player`:
/// aimed from somewhere in the view's spawn box at a point up to a quarter
/// view right of and above the player, in the colour of some selector value.
pub open spec fn bomb_candidate(c: Option<Clusterbomb>, player: Vec2) -> bool {
    exists|sx: int, sy: int, ex: int, ey: int, t: int|
        0 <= sx < 2 * VIEW_WIDTH && 0 <= sy < 2 * VIEW_HEIGHT && 0 <= ex < VIEW_WIDTH / 4 && 0 <= ey
            < VIEW_HEIGHT / 4 && 0 <= t <= SELECTOR_FULL && #[trigger] aimed(
            c,
            player,
            sx,
            sy,
            ex,
            ey,
            hue_of(t),
        )
}

/// `h` is a spawn candidate for lane `lane` of `active`: some slot and
/// offset within their bounds, and the colour of some selector value.
pub open spec fn fresh_candidate(h: Hazard, lane: int, active: int) -> bool {
    exists|slot: int, offset: int, t: int|
        0 <= slot < SPAWN_SLOTS && 0 <= offset < lane_height(active) && 0 <= t <= SELECTOR_FULL
            && h == #[trigger] fresh_projectile_spec(lane, active, slot, offset, hue_of(t))
}

/// One tick of a running session from `g` to `h`, phase by phase as
/// `Game::tick` runs them: `s` holds the state after each phase, and the
/// other arguments are the tick's draws (the arrival draw, the colour of
/// an arriving band, the lanes' spawn candidates, the clusterbomb
/// candidates and the next goal).
pub open spec fn tick_chain(
    g: Game,
    h: Game,
    s: Seq<Game>,
    draw: u32,
    band_t: u32,
    fresh: Seq<Hazard>,
    first: Option<Clusterbomb>,
    second: Option<Clusterbomb>,
    goal_t: u32,
) -> bool {
    &&& s.len() == 13
    &&& s[0] == (Game { frames: g.frames.wrapping_add(1), hit: false, ..g })
    &&& keys_applied(s[0], s[1])
    &&& draw < ARRIVAL_DRAW
    &&& band_t <= SELECTOR_FULL
    &&& jumprope_arrival_step(s[1], s[2], draw, hue_of(band_t as int))
    &&& jumpropes_advanced(s[2], s[3])
    &&& bands_glowed(s[3], s[4])
    &&& fresh.len() == LANE_COUNT
    &&& forall|i: int|
        0 <= i < LANE_COUNT ==> fresh_candidate(#[trigger] fresh[i], i, s[4].current_spawns as int)
    &&& lanes_advanced(s[4], s[5], fresh)
    &&& ghosts_spawned(s[5], s[6])
    &&& (first matches Some(b) ==> b.wf() && b.live())
    &&& (second matches Some(b) ==> b.wf() && b.live())
    &&& s[6].clusters@.len() == 0 ==> bomb_candidate(first, s[6].player) && bomb_candidate(
        second,
        s[6].player,
    )
    &&& clusters_arrived(s[6], s[7], first, second)
    &&& clusters_advanced(s[7], s[8])
    &&& particles_advanced(s[8], s[9])
    &&& ghosts_faded(s[9], s[10])
    &&& fragments_advanced(s[10], s[11])
    &&& goal_t <= SELECTOR_FULL
    &&& s[12] == goal_step(s[11], goal_t)
    &&& h == if s[12].signal_lost >= SIGNAL_THRESHOLD {
        Game { status: Status::Lost, ..s[12] }
    } else {
        s[12]
    }
}

/// The entries of the first `n` lanes, lane by lane, each oldest first.
pub open spec fn lane_entries(lanes: Seq<Lane>, n: nat) -> Seq<Hazard>
    decreases n,
{
    if n == 0 {
        seq![]
    } else {
        lane_entries(lanes, (n - 1) as nat) + lanes[n - 1].entries@
    }
}

/// `p` is a ghost of projectile `e`: spawned at rest where `e` stands, of
/// its colour, with some draws within their bounds.
pub open spec fn is_ghost_of(e: Hazard, p: Particle) -> bool {
    exists|vd: u32, ad: u32, jx: i64, jy: i64|
        vd < DIRECTIONS && ad < DIRECTIONS && -MAX_JITTER <= jx <= MAX_JITTER && -MAX_JITTER <= jy
            <= MAX_JITTER && p == #[trigger] spawned(
            e.pos,
            0,
            0,
            Vec2 { x: 0, y: 0 },
            e.hue,
            vd,
            ad,
            jx,
            jy,
        )
}

/// `new` is `old` followed by one ghost of each of `sources`, in order, as
/// many as fit under `POOL_CAP`.
pub open spec fn ghosts_left(old: Seq<Particle>, new: Seq<Particle>, sources: Seq<Hazard>) -> bool {
    &&& new.len() == if old.len() + sources.len() <= POOL_CAP {
        (old.len() + sources.len()) as int
    } else {
        POOL_CAP as int
    }
    &&& new.take(old.len() as int) == old
    &&& forall|m: int|
        old.len() <= m < new.len() ==> #[trigger] is_ghost_of(sources[m - old.len()], new[m])
}

/// Where glow particle `k` (of four) of band `b` is launched: the first two
/// at the right edge, the others at the left.
pub open spec fn glow_origin(b: Hazard, k: int) -> Vec2 {
    if k < 2 {
        Vec2 { x: (JUMPROPE_X + VIEW_WIDTH) as i64, y: b.pos.y }
    } else {
        Vec2 { x: (JUMPROPE_X - VIEW_WIDTH) as i64, y: b.pos.y }
    }
}

/// The drift of glow particle `k`: inward from its edge.
pub open spec fn glow_drift(k: int) -> Vec2 {
    if k < 2 {
        Vec2 { x: (-GLOW_DRIFT) as i64, y: 0 }
    } else {
        Vec2 { x: GLOW_DRIFT, y: 0 }
    }
}

/// `p` is glow particle `k` of band `b`, with some draws within their bounds.
pub open spec fn is_glow_of(b: Hazard, k: int, p: Particle) -> bool {
    exists|vd: u32, ad: u32, jx: i64, jy: i64|
        vd < DIRECTIONS && ad < DIRECTIONS && -MAX_JITTER <= jx <= MAX_JITTER && -MAX_JITTER <= jy
            <= MAX_JITTER && p == #[trigger] spawned(
            glow_origin(b, k),
            GLOW_SPEED,
            GLOW_ACCEL,
            glow_drift(k),
            b.hue,
            vd,
            ad,
            jx,
            jy,
        )
}

/// `new` is `old` followed by the first `n` glow particles of `bands`,
/// four a band in order, as many as fit under `POOL_CAP`.
pub open spec fn glow_left_upto(old: Seq<Particle>, new: Seq<Particle>, bands: Seq<Hazard>, n: int) -> bool {
    &&& new.len() == if old.len() + n <= POOL_CAP {
        old.len() + n
    } else {
        POOL_CAP as int
    }
    &&& new.take(old.len() as int) == old
    &&& forall|m: int|
        old.len() <= m < new.len() ==> #[trigger] is_glow_of(
            bands[(m - old.len()) / 4],
            (m - old.len()) % 4,
            new[m],
        )
}

/// `new` is `old` followed by four glow particles of each of `bands`.
pub open spec fn glow_left(old: Seq<Particle>, new: Seq<Particle>, bands: Seq<Hazard>) -> bool {
    glow_left_upto(old, new, bands, 4 * bands.len() as int)
}

/// The sprites of the projectiles of the first `n` lanes, lane by lane.
pub open spec fn lanes_sprites(lanes: Seq<Lane>, n: nat) -> Seq<Sprite>
    decreases n,
{
    if n == 0 {
        seq![]
    } else {
        lanes_sprites(lanes, (n - 1) as nat) + hazard_sprites(
            lanes[n - 1].entries@,
            PROJECTILE_WIDTH as int,
            PROJECTILE_HEIGHT as int,
        )
    }
}

/// A bomb's sprite where it now is, and the marker where it will land.
pub open spec fn bomb_sprite(b: Clusterbomb) -> Sprite {
    let p = position_at(b, b.t as int);
    Sprite {
        rect: rect_spec(p.x as int, p.y as int, CLUSTER_WIDTH as int, CLUSTER_WIDTH as int),
        paint: Paint::Hue { hue: b.hue, alpha: LIFE_FULL },
    }
}

pub open spec fn target_sprite(b: Clusterbomb) -> Sprite {
    Sprite {
        rect: rect_spec(b.end_pos.x as int, b.end_pos.y as int, 2 * PLAYER_SIZE, 2 * PLAYER_SIZE),
        paint: Paint::Hue { hue: b.hue, alpha: LIFE_FULL },
    }
}

/// The frame a state shows.
pub open spec fn frame_of(g: Game, r: RenderFrame) -> bool {
    &&& r.player == (Sprite {
        rect: player_rect(g),
        paint: if g.hit { Paint::Red } else { Paint::Hue { hue: hue_of(g.selector as int), alpha: LIFE_FULL } },
    })
    &&& r.goal == (Sprite {
        rect: goal_rect(),
        paint: if g.carrying { Paint::White } else { Paint::Hue { hue: hue_of(g.goal_t as int), alpha: LIFE_FULL } },
    })
    &&& r.projectiles@ == lanes_sprites(g.lanes@, g.current_spawns as nat)
    &&& r.jumpropes@ == hazard_sprites(g.jumpropes@, JUMPROPE_WIDTH as int, JUMPROPE_HEIGHT as int)
    &&& r.clusters@ == Seq::new(g.clusters@.len(), |i: int| bomb_sprite(g.clusters@[i]))
    &&& r.targets@ == Seq::new(g.clusters@.len(), |i: int| target_sprite(g.clusters@[i]))
    &&& r.fragments@ == particle_sprites(g.fragments@, CLUSTER_WIDTH as int, CLUSTER_WIDTH as int, false)
    &&& r.particles@ == particle_sprites(g.particles@, PARTICLE_SIZE as int, PARTICLE_SIZE as int, true)
        + particle_sprites(g.ghosts@, PROJECTILE_WIDTH as int, PROJECTILE_HEIGHT as int, true)
    &&& r.signal_lost == g.signal_lost
    &&& r.score == g.score
    &&& r.radius == g.radius
}

} // verus!
