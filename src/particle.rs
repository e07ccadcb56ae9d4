use vstd::prelude::*;

use rand::rngs::StdRng;

use crate::geometry::{clamp_world, clamp_world_spec, scale_coord, scale_spec, Vec2};
use crate::hue::HueStep;
use crate::random::roll;

verus! {

/// A particle's full lifetime; it is gone once its lifetime is no longer positive.
pub const LIFE_FULL: i64 = 1000;

/// Number of launch directions, evenly spaced round the circle.
pub const DIRECTIONS: u32 = 16;

/// Length of a direction vector from `unit_direction`.
pub const UNIT: i64 = 1000;

/// Bound on the random decay of one free-physics step.
pub const MAX_DECAY: u32 = 100;

/// Bound on a spawn's relative position jitter, in thousandths.
pub const MAX_JITTER: i64 = 5;

/// Direction `k` of `DIRECTIONS`, at `k * 22.5` degrees, with length
/// `UNIT` (components rounded to the nearest integer).
pub open spec fn direction_spec(k: int) -> Vec2 {
    let q = k % 4;
    let c: i64 = if q == 0 { 1000 } else if q == 1 { 924 } else if q == 2 { 707 } else { 383 };
    let s: i64 = if q == 0 { 0 } else if q == 1 { 383 } else if q == 2 { 707 } else { 924 };
    let quadrant = k / 4;
    if quadrant == 0 {
        Vec2 { x: c, y: s }
    } else if quadrant == 1 {
        Vec2 { x: (-s) as i64, y: c }
    } else if quadrant == 2 {
        Vec2 { x: (-c) as i64, y: (-s) as i64 }
    } else {
        Vec2 { x: s, y: (-c) as i64 }
    }
}

/// Direction `k` of `DIRECTIONS`, as a vector of length `UNIT`.
pub fn unit_direction(k: u32) -> (r: Vec2)
    requires
        k < DIRECTIONS,
    ensures
        r == direction_spec(k as int),
        -UNIT <= r.x <= UNIT,
        -UNIT <= r.y <= UNIT,
{
    let q = k % 4;
    let c: i64 = if q == 0 { 1000 } else if q == 1 { 924 } else if q == 2 { 707 } else { 383 };
    let s: i64 = if q == 0 { 0 } else if q == 1 { 383 } else if q == 2 { 707 } else { 924 };
    let quadrant = k / 4;
    if quadrant == 0 {
        Vec2 { x: c, y: s }
    } else if quadrant == 1 {
        Vec2 { x: -s, y: c }
    } else if quadrant == 2 {
        Vec2 { x: -c, y: -s }
    } else {
        Vec2 { x: s, y: -c }
    }
}

/// A short-lived point with velocity and acceleration. Lifetime runs from
/// `LIFE_FULL` down; the particle is expired once it is no longer positive.
#[derive(Clone, Copy, Debug, PartialEq, Eq, Structural)]
pub struct Particle {
    pub position: Vec2,
    pub velocity: Vec2,
    pub acceleration: Vec2,
    pub hue: HueStep,
    pub lifetime: i64,
}

/// `direction_spec(k)` stretched to length `len`.
pub open spec fn along_spec(k: int, len: int) -> (int, int) {
    (
        scale_spec(len, direction_spec(k).x as int, UNIT as int),
        scale_spec(len, direction_spec(k).y as int, UNIT as int),
    )
}

/// `v` moved by `v * j / 1000`, kept in the world box.
pub open spec fn jitter_spec(v: int, j: int) -> int {
    clamp_world_spec(v + scale_spec(v, j, 1000))
}

/// Speeds admitted at a particle's spawn.
pub open spec fn valid_speed(v: int) -> bool {
    0 <= v <= 1_000_000
}

/// The particle that `spawn_with` makes.
pub open spec fn spawned(
    location: Vec2,
    max_velocity: i64,
    max_accel: i64,
    velocity_bias: Vec2,
    hue: HueStep,
    velocity_dir: u32,
    accel_dir: u32,
    jitter_x: i64,
    jitter_y: i64,
) -> Particle {
    let v = along_spec(velocity_dir as int, max_velocity as int);
    let a = along_spec(accel_dir as int, max_accel as int);
    Particle {
        position: Vec2 {
            x: jitter_spec(location.x as int, jitter_x as int) as i64,
            y: jitter_spec(location.y as int, jitter_y as int) as i64,
        },
        velocity: Vec2 {
            x: clamp_world_spec(v.0 + velocity_bias.x) as i64,
            y: clamp_world_spec(v.1 + velocity_bias.y) as i64,
        },
        acceleration: Vec2 { x: a.0 as i64, y: a.1 as i64 },
        hue,
        lifetime: LIFE_FULL,
    }
}

/// One free-physics step: lifetime falls by `decay`; velocity gains the
/// acceleration and is then scaled by the remaining lifetime (a damping
/// tied to decay); position gains the new velocity.
pub open spec fn free_step(p: Particle, decay: int) -> Particle {
    let lifetime = p.lifetime - decay;
    let vx = clamp_world_spec(p.acceleration.x + p.velocity.x);
    let vy = clamp_world_spec(p.acceleration.y + p.velocity.y);
    let velocity = Vec2 {
        x: scale_spec(vx, lifetime, LIFE_FULL as int) as i64,
        y: scale_spec(vy, lifetime, LIFE_FULL as int) as i64,
    };
    Particle {
        position: Vec2 {
            x: clamp_world_spec(velocity.x + p.position.x) as i64,
            y: clamp_world_spec(velocity.y + p.position.y) as i64,
        },
        velocity,
        lifetime: lifetime as i64,
        ..p
    }
}

/// Friction factors admitted by `update_custom`, in thousandths.
pub open spec fn valid_friction(f: int) -> bool {
    0 <= f <= 1000
}

/// One parameterised step: lifetime falls by `delta_life`; velocity gains
/// `accel` if given, then is scaled by `friction` thousandths if given;
/// position moves by `forced_vel` if given, else by the new velocity.
pub open spec fn custom_step(
    p: Particle,
    delta_life: int,
    forced_vel: Option<Vec2>,
    friction: Option<i64>,
    accel: Option<Vec2>,
) -> Particle {
    let v1 = match accel {
        Some(a) => Vec2 {
            x: clamp_world_spec(p.velocity.x + a.x) as i64,
            y: clamp_world_spec(p.velocity.y + a.y) as i64,
        },
        None => p.velocity,
    };
    let v2 = match friction {
        Some(f) => Vec2 {
            x: scale_spec(v1.x as int, f as int, 1000) as i64,
            y: scale_spec(v1.y as int, f as int, 1000) as i64,
        },
        None => v1,
    };
    let step = match forced_vel {
        Some(f) => f,
        None => v2,
    };
    Particle {
        position: Vec2 {
            x: clamp_world_spec(p.position.x + step.x) as i64,
            y: clamp_world_spec(p.position.y + step.y) as i64,
        },
        velocity: v2,
        lifetime: (p.lifetime - delta_life) as i64,
        ..p
    }
}

impl Particle {
    pub open spec fn wf(self) -> bool {
        &&& self.position.wf()
        &&& self.velocity.wf()
        &&& self.acceleration.wf()
        &&& self.hue.wf()
        &&& -LIFE_FULL <= self.lifetime <= LIFE_FULL
    }

    /// Whether the particle is still alive.
    pub open spec fn alive(self) -> bool {
        self.lifetime > 0
    }

    /// A fresh particle near `location`: each coordinate moved by
    /// `jitter_x` or `jitter_y` thousandths of itself; launched along
    /// direction `velocity_dir` at `max_velocity`, plus `velocity_bias`;
    /// accelerating along `accel_dir` at `max_accel`; at full lifetime.
    pub fn spawn_with(
        location: Vec2,
        max_velocity: i64,
        max_accel: i64,
        velocity_bias: Vec2,
        hue: HueStep,
        velocity_dir: u32,
        accel_dir: u32,
        jitter_x: i64,
        jitter_y: i64,
    ) -> (r: Particle)
        requires
            location.wf(),
            velocity_bias.wf(),
            hue.wf(),
            valid_speed(max_velocity as int),
            valid_speed(max_accel as int),
            velocity_dir < DIRECTIONS,
            accel_dir < DIRECTIONS,
            -MAX_JITTER <= jitter_x <= MAX_JITTER,
            -MAX_JITTER <= jitter_y <= MAX_JITTER,
        ensures
            r.wf(),
            r == spawned(
                location,
                max_velocity,
                max_accel,
                velocity_bias,
                hue,
                velocity_dir,
                accel_dir,
                jitter_x,
                jitter_y,
            ),
    {
        let vd = unit_direction(velocity_dir);
        let ad = unit_direction(accel_dir);
        let px = clamp_world(location.x + scale_coord(location.x, jitter_x, 1000));
        let py = clamp_world(location.y + scale_coord(location.y, jitter_y, 1000));
        let vx = clamp_world(scale_coord(max_velocity, vd.x, UNIT) + velocity_bias.x);
        let vy = clamp_world(scale_coord(max_velocity, vd.y, UNIT) + velocity_bias.y);
        let ax = scale_coord(max_accel, ad.x, UNIT);
        let ay = scale_coord(max_accel, ad.y, UNIT);
        Particle {
            position: Vec2 { x: px, y: py },
            velocity: Vec2 { x: vx, y: vy },
            acceleration: Vec2 { x: ax, y: ay },
            hue,
            lifetime: LIFE_FULL,
        }
    }

    /// A fresh particle as `spawn_with` makes it, with its two directions
    /// and its jitter drawn from `rng`.
    pub fn spawn(
        location: Vec2,
        max_velocity: i64,
        max_accel: i64,
        velocity_bias: Vec2,
        hue: HueStep,
        rng: &mut StdRng,
    ) -> (r: Particle)
        requires
            location.wf(),
            velocity_bias.wf(),
            hue.wf(),
            valid_speed(max_velocity as int),
            valid_speed(max_accel as int),
        ensures
            r.wf(),
            exists|vd: u32, ad: u32, jx: i64, jy: i64|
                vd < DIRECTIONS && ad < DIRECTIONS && -MAX_JITTER <= jx <= MAX_JITTER
                    && -MAX_JITTER <= jy <= MAX_JITTER && r == #[trigger] spawned(
                    location,
                    max_velocity,
                    max_accel,
                    velocity_bias,
                    hue,
                    vd,
                    ad,
                    jx,
                    jy,
                ),
    {
        let vd = roll(rng, DIRECTIONS);
        let ad = roll(rng, DIRECTIONS);
        let jx = roll(rng, 11) as i64 - MAX_JITTER;
        let jy = roll(rng, 11) as i64 - MAX_JITTER;
        Particle::spawn_with(location, max_velocity, max_accel, velocity_bias, hue, vd, ad, jx, jy)
    }

    /// One free-physics step with a lifetime decay of `decay`.
    pub fn update_with(&mut self, decay: i64)
        requires
            old(self).wf(),
            old(self).alive(),
            0 <= decay < MAX_DECAY,
        ensures
            final(self).wf(),
            *final(self) == free_step(*old(self), decay as int),
    {
        self.lifetime = self.lifetime - decay;
        self.velocity = self.acceleration.add(self.velocity);
        self.velocity = self.velocity.scale(self.lifetime, LIFE_FULL);
        self.position = self.velocity.add(self.position);
    }

    /// One free-physics step, its decay drawn from `rng` below `MAX_DECAY`.
    pub fn update(&mut self, rng: &mut StdRng)
        requires
            old(self).wf(),
            old(self).alive(),
        ensures
            final(self).wf(),
            exists|d: int| 0 <= d < MAX_DECAY && *final(self) == #[trigger] free_step(*old(self), d),
    {
        let decay = roll(rng, MAX_DECAY) as i64;
        self.update_with(decay);
    }

    /// One parameterised step (see `custom_step`).
    pub fn update_custom(
        &mut self,
        delta_life: i64,
        forced_vel: Option<Vec2>,
        friction: Option<i64>,
        accel: Option<Vec2>,
    )
        requires
            old(self).wf(),
            old(self).alive(),
            0 <= delta_life <= LIFE_FULL,
            forced_vel matches Some(f) ==> f.wf(),
            friction matches Some(f) ==> valid_friction(f as int),
            accel matches Some(a) ==> a.wf(),
        ensures
            final(self).wf(),
            *final(self) == custom_step(*old(self), delta_life as int, forced_vel, friction, accel),
    {
        self.lifetime = self.lifetime - delta_life;
        if let Some(val) = accel {
            self.velocity = self.velocity.add(val);
        }
        if let Some(val) = friction {
            self.velocity = self.velocity.scale(val, 1000);
        }
        if let Some(val) = forced_vel {
            self.position = self.position.add(val);
        } else {
            self.position = self.position.add(self.velocity);
        }
    }
}

} // verus!
