use vstd::prelude::*;

use crate::config::TICKS_PER_SECOND;
use crate::geometry::{clamp_world, clamp_world_spec, trunc_div, Vec2};
use crate::hue::HueStep;

verus! {

/// Flight time of a clusterbomb, in ticks (three seconds).
pub const CLUSTER_END_T: u32 = 180;

/// Flight time of a clusterbomb, in seconds.
pub const CLUSTER_END_SECONDS: i64 = 3;

/// Launch speed of a clusterbomb aimed by `from_positions`, in subpixels
/// a second (1000 px/s).
pub const CLUSTER_START_SPEED: i64 = 600_000;

/// Bound on the velocities and deceleration of a clusterbomb, in subpixels
/// a second (or a second squared).
pub const MAX_LIFT: i64 = 10_000_000;

/// A lobbed bomb. Over `CLUSTER_END_T` ticks it travels from `start_pos`
/// to `end_pos` along a parabola: constant horizontal velocity, initial
/// vertical velocity `lift` (subpixels a second), and the constant
/// vertical deceleration that brings it down exactly on `end_pos`.
#[derive(Clone, Copy, Debug, PartialEq, Eq, Structural)]
pub struct Clusterbomb {
    pub start_pos: Vec2,
    pub end_pos: Vec2,
    pub lift: i64,
    pub hue: HueStep,
    pub t: u32,
}

/// Offset from the start after `k` ticks. With `N` ticks of flight and
/// `τ = k / 60` s, `T = N / 60` s, the vertical offset is
/// `lift * τ * (T - τ) / T + dy * τ² / T²`: a parabola with initial
/// velocity `lift`, through 0 at `τ = 0` and `dy` at `τ = T`.
pub open spec fn offset_at(dx: int, dy: int, lift: int, k: int) -> (int, int) {
    let n = CLUSTER_END_T as int;
    (
        trunc_div(dx * k, n),
        trunc_div(lift * k * (n - k) * n + TICKS_PER_SECOND * dy * k * k, TICKS_PER_SECOND * n * n),
    )
}

/// Where a bomb is after `k` ticks of flight.
pub open spec fn position_at(b: Clusterbomb, k: int) -> Vec2 {
    let o = offset_at(
        b.end_pos.x - b.start_pos.x,
        b.end_pos.y - b.start_pos.y,
        b.lift as int,
        k,
    );
    Vec2 {
        x: clamp_world_spec(b.start_pos.x + o.0) as i64,
        y: clamp_world_spec(b.start_pos.y + o.1) as i64,
    }
}

/// The horizontal distance a bomb launched at `CLUSTER_START_SPEED` can cover.
pub open spec fn reach() -> int {
    CLUSTER_START_SPEED * CLUSTER_END_SECONDS
}

/// `lift` is the vertical launch speed, rounded down, that makes the
/// launch speed `CLUSTER_START_SPEED` when the horizontal speed is
/// `dx / CLUSTER_END_SECONDS`: `lift = ⌊sqrt(v0² - (dx / 3)²)⌋`.
pub open spec fn is_launch_lift(dx: int, lift: int) -> bool {
    let m = reach() * reach() - dx * dx;
    &&& lift >= 0
    &&& 9 * lift * lift <= m
    &&& m < 9 * (lift + 1) * (lift + 1)
}

/// The largest `r` with `r * r <= n`.
pub fn isqrt(n: u64) -> (r: u64)
    requires
        n <= 1_000_000_000_000,
    ensures
        r * r <= n < (r + 1) * (r + 1),
{
    let mut lo: u64 = 0;
    let mut hi: u64 = 1_000_001;
    assert(hi * hi > n) by (nonlinear_arith)
        requires hi == 1_000_001, n <= 1_000_000_000_000;
    while lo + 1 < hi
        invariant
            lo < hi <= 1_000_001,
            lo * lo <= n < hi * hi,
        decreases hi - lo,
    {
        let mid = lo + (hi - lo) / 2;
        assert(mid * mid <= 1_000_002_000_001) by (nonlinear_arith)
            requires mid < 1_000_001;
        if mid * mid <= n {
            lo = mid;
        } else {
            hi = mid;
        }
    }
    lo
}

impl Clusterbomb {
    pub open spec fn wf(self) -> bool {
        &&& self.start_pos.wf()
        &&& self.end_pos.wf()
        &&& -MAX_LIFT <= self.lift <= MAX_LIFT
        &&& self.hue.wf()
        &&& self.t <= CLUSTER_END_T
    }

    /// Still in flight.
    pub open spec fn live(self) -> bool {
        self.t < CLUSTER_END_T
    }

    /// A bomb launched from `start_pos` with horizontal velocity `x_vel`,
    /// vertical velocity `y_vel` and vertical deceleration `y_accel`
    /// (subpixels a second, and a second squared). It lands at
    /// `start_pos + (3 x_vel, 3 y_vel - 4.5 y_accel)`, the vertical part
    /// rounded toward zero, kept in the world box.
    pub fn new(start_pos: Vec2, x_vel: i64, y_vel: i64, y_accel: i64, hue: HueStep) -> (r:
        Clusterbomb)
        requires
            start_pos.wf(),
            hue.wf(),
            -MAX_LIFT <= x_vel <= MAX_LIFT,
            -MAX_LIFT <= y_vel <= MAX_LIFT,
            -MAX_LIFT <= y_accel <= MAX_LIFT,
        ensures
            r.wf(),
            r.live(),
            r.start_pos == start_pos,
            r.end_pos.x == clamp_world_spec(start_pos.x + x_vel * CLUSTER_END_SECONDS),
            r.end_pos.y == clamp_world_spec(
                start_pos.y + y_vel * CLUSTER_END_SECONDS - trunc_div(
                    y_accel * CLUSTER_END_SECONDS * CLUSTER_END_SECONDS,
                    2,
                ),
            ),
            r.lift == y_vel,
            r.hue == hue,
            r.t == 0,
    {
        let fall = y_accel * CLUSTER_END_SECONDS * CLUSTER_END_SECONDS;
        let half_fall = if fall >= 0 { fall / 2 } else { -((-fall) / 2) };
        let end_pos = Vec2 {
            x: clamp_world(start_pos.x + x_vel * CLUSTER_END_SECONDS),
            y: clamp_world(start_pos.y + y_vel * CLUSTER_END_SECONDS - half_fall),
        };
        Clusterbomb { start_pos, end_pos, lift: y_vel, hue, t: 0 }
    }

    /// A bomb launched at `CLUSTER_START_SPEED` from `start_pos` that lands
    /// on `end_pos` after `CLUSTER_END_T` ticks; `None` when `end_pos` is
    /// farther across than that launch speed can carry it.
    pub fn from_positions(start_pos: Vec2, end_pos: Vec2, hue: HueStep) -> (r: Option<
        Clusterbomb,
    >)
        requires
            start_pos.wf(),
            end_pos.wf(),
            hue.wf(),
        ensures
            r is None <==> (end_pos.x - start_pos.x) * (end_pos.x - start_pos.x) > reach()
                * reach(),
            r matches Some(b) ==> {
                &&& b.wf()
                &&& b.live()
                &&& b.start_pos == start_pos
                &&& b.end_pos == end_pos
                &&& is_launch_lift(end_pos.x - start_pos.x, b.lift as int)
                &&& b.hue == hue
                &&& b.t == 0
            },
    {
        let dx: i64 = end_pos.x - start_pos.x;
        let reach: i64 = CLUSTER_START_SPEED * CLUSTER_END_SECONDS;
        if dx > reach || dx < -reach {
            assert(dx * dx > reach * reach) by (nonlinear_arith)
                requires dx > reach || dx < -reach, reach > 0;
            return None;
        }
        assert(dx * dx <= reach * reach) by (nonlinear_arith)
            requires -reach <= dx <= reach;
        assert(0 <= dx * dx <= 3_240_000_000_000) by (nonlinear_arith)
            requires -1_800_000 <= dx <= 1_800_000;
        let m: u64 = (reach * reach - dx * dx) as u64;
        let lift = isqrt(m / 9);
        proof {
            let q = m / 9;
            assert(9 * (lift * lift) <= m) by (nonlinear_arith)
                requires lift * lift <= q, q == m / 9;
            assert(m < 9 * ((lift + 1) * (lift + 1))) by (nonlinear_arith)
                requires q < (lift + 1) * (lift + 1), q == m / 9;
            assert(lift <= 600_000) by (nonlinear_arith)
                requires lift * lift <= q, q <= 360_000_000_000;
            assert(9 * lift * lift == 9 * (lift * lift)) by (nonlinear_arith);
            assert(9 * (lift + 1) * (lift + 1) == 9 * ((lift + 1) * (lift + 1))) by (nonlinear_arith);
        }
        Some(Clusterbomb { start_pos, end_pos, lift: lift as i64, hue, t: 0 })
    }

    /// Advances the flight by `ticks` and returns where the bomb now is.
    pub fn update(&mut self, ticks: u32) -> (r: Vec2)
        requires
            old(self).wf(),
            old(self).t + ticks <= CLUSTER_END_T,
        ensures
            final(self).wf(),
            *final(self) == (Clusterbomb { t: (old(self).t + ticks) as u32, ..*old(self) }),
            r == position_at(*final(self), final(self).t as int),
            r.wf(),
    {
        self.t = self.t + ticks;
        self.position()
    }

    /// Where the bomb is at its current flight time.
    pub fn position(&self) -> (r: Vec2)
        requires
            self.wf(),
        ensures
            r == position_at(*self, self.t as int),
            r.wf(),
    {
        let n: i64 = CLUSTER_END_T as i64;
        let k: i64 = self.t as i64;
        let dx: i64 = self.end_pos.x - self.start_pos.x;
        let dy: i64 = self.end_pos.y - self.start_pos.y;
        proof {
            assert(-360_000_000_000 <= dx * k <= 360_000_000_000) by (nonlinear_arith)
                requires -2_000_000_000 <= dx <= 2_000_000_000, 0 <= k <= 180;
            assert(0 <= k * (n - k) <= 32_400) by (nonlinear_arith)
                requires 0 <= k <= 180, n == 180;
            assert(-1_000_000_000_000_000 <= self.lift * (k * (n - k)) * n <= 1_000_000_000_000_000)
                by (nonlinear_arith)
                requires -MAX_LIFT <= self.lift <= MAX_LIFT, 0 <= k * (n - k) <= 32_400, n == 180;
            assert(0 <= k * k <= 32_400) by (nonlinear_arith)
                requires 0 <= k <= 180;
            assert(self.lift * k * (n - k) * n == self.lift * (k * (n - k)) * n) by (nonlinear_arith);
            assert(60 * dy * k * k == 60 * dy * (k * k)) by (nonlinear_arith);
        }
        let ox_num = dx * k;
        let ox = if ox_num >= 0 { ox_num / n } else { -((-ox_num) / n) };
        let kk: i64 = k * k;
        let dy60: i64 = TICKS_PER_SECOND * dy;
        assert(-4_000_000_000_000_000 <= dy60 * kk <= 4_000_000_000_000_000) by (nonlinear_arith)
            requires -120_000_000_000 <= dy60 <= 120_000_000_000, 0 <= kk <= 32_400;
        let oy_num = self.lift * (k * (n - k)) * n + dy60 * kk;
        let den = TICKS_PER_SECOND * n * n;
        let oy = if oy_num >= 0 { oy_num / den } else { -((-oy_num) / den) };
        proof {
            assert(-360_000_000_000 <= ox <= 360_000_000_000);
            assert(0 <= oy_num ==> oy_num / den <= 3_000_000_000) by (nonlinear_arith)
                requires oy_num <= 5_000_000_000_000_000, den == 1_944_000;
            assert(oy_num < 0 ==> (-oy_num) / (den as int) <= 3_000_000_000) by (nonlinear_arith)
                requires -oy_num <= 5_000_000_000_000_000, den == 1_944_000;
        }
        Vec2 { x: clamp_world(self.start_pos.x + ox), y: clamp_world(self.start_pos.y + oy) }
    }
}

/// A bomb aimed by `from_positions` is exactly on its target once its
/// flight time has run `CLUSTER_END_T` ticks.
pub proof fn lemma_lands_on_target(start_pos: Vec2, end_pos: Vec2, b: Clusterbomb)
    requires
        start_pos.wf(),
        end_pos.wf(),
        b.start_pos == start_pos,
        b.end_pos == end_pos,
        -MAX_LIFT <= b.lift <= MAX_LIFT,
    ensures
        position_at(b, CLUSTER_END_T as int) == end_pos,
{
    let n = CLUSTER_END_T as int;
    let dx = end_pos.x - start_pos.x;
    let dy = end_pos.y - start_pos.y;
    assert(dx * n / n == dx) by (nonlinear_arith)
        requires n == 180;
    assert((-(dx * n)) / n == -dx) by (nonlinear_arith)
        requires n == 180;
    assert(b.lift * n * (n - n) * n + 60 * dy * n * n == dy * (60 * n * n)) by (nonlinear_arith);
    assert(dy * (60 * n * n) / (60 * n * n) == dy) by (nonlinear_arith)
        requires n == 180;
    assert((-(dy * (60 * n * n))) / (60 * n * n) == -dy) by (nonlinear_arith)
        requires n == 180;
}

/// The sum of `steps`.
pub open spec fn total_ticks(steps: Seq<u32>) -> int
    decreases steps.len(),
{
    if steps.len() == 0 {
        0
    } else {
        total_ticks(steps.drop_last()) + steps.last()
    }
}

/// `b` after one `update` call for each of `steps`, in order.
pub open spec fn updated_by(b: Clusterbomb, steps: Seq<u32>) -> Clusterbomb
    decreases steps.len(),
{
    if steps.len() == 0 {
        b
    } else {
        let prev = updated_by(b, steps.drop_last());
        Clusterbomb { t: (prev.t + steps.last()) as u32, ..prev }
    }
}

proof fn lemma_updated_by(b: Clusterbomb, steps: Seq<u32>)
    requires
        b.t + total_ticks(steps) <= CLUSTER_END_T,
    ensures
        updated_by(b, steps) == (Clusterbomb { t: (b.t + total_ticks(steps)) as u32, ..b }),
        total_ticks(steps) >= 0,
    decreases steps.len(),
{
    if steps.len() > 0 {
        lemma_updated_by(b, steps.drop_last());
    }
}

/// However the flight of a bomb aimed by `from_positions` is cut into
/// `update` calls, once their ticks add up to `CLUSTER_END_T` the bomb is
/// exactly on its target.
pub proof fn lemma_updates_land_on_target(b: Clusterbomb, steps: Seq<u32>)
    requires
        b.wf(),
        b.t == 0,
        total_ticks(steps) == CLUSTER_END_T,
    ensures
        updated_by(b, steps).t == CLUSTER_END_T,
        position_at(updated_by(b, steps), CLUSTER_END_T as int) == b.end_pos,
{
    lemma_updated_by(b, steps);
    lemma_lands_on_target(b.start_pos, b.end_pos, updated_by(b, steps));
}

} // verus!
