use vstd::prelude::*;

use crate::game::{hue_of, player_rect, Game, PLAYER_SIZE};
use crate::geometry::{build_rect, overlap, rect_intersect, rect_spec, Rect};
use crate::hue::{stepped_hue, SELECTOR_FULL};
use crate::lane::{valid_speed, LANE_COUNT};

verus! {

/// The goal zone: 100 px square, centred at (0, 600 px).
pub const GOAL_X: i64 = 0;
pub const GOAL_Y: i64 = 360_000;
pub const GOAL_SIZE: i64 = 60_000;

/// Carrying the goal below this line delivers it.
pub const DELIVERY_Y: i64 = -460_800;

/// Signal loss restored by a delivery (0.25).
pub const DELIVERY_RESTORE: u64 = 1_500;

/// Bound on lane and band speeds, in subpixels a tick.
pub const SPEED_CAP: i64 = 1_000_000;

/// `speed` raised by five percent (rounded down), up to `SPEED_CAP`.
pub fn speed_up(speed: i64) -> (r: i64)
    requires
        valid_speed(speed as int),
    ensures
        r == sped_up(speed as int),
        valid_speed(r as int),
        r >= speed,
{
    let s = speed * 105 / 100;
    if s <= SPEED_CAP {
        s
    } else {
        SPEED_CAP
    }
}

/// `speed` raised by five percent (rounded down), up to `SPEED_CAP`.
pub open spec fn sped_up(speed: int) -> int {
    if speed * 105 / 100 <= SPEED_CAP {
        speed * 105 / 100
    } else {
        SPEED_CAP as int
    }
}

/// The goal zone's rectangle.
pub open spec fn goal_rect() -> Rect {
    rect_spec(GOAL_X as int, GOAL_Y as int, GOAL_SIZE as int, GOAL_SIZE as int)
}

/// Whether the player, carrying the goal, has crossed the delivery line.
pub open spec fn delivers(g: Game) -> bool {
    g.carrying && g.player.y < DELIVERY_Y
}

/// Whether the player picks up a goal of selector `goal_t`: the
/// rectangles overlap and the player's colour matches the goal's.
pub open spec fn picks_up(g: Game, goal_t: int) -> bool {
    overlap(player_rect(g), goal_rect()) && hue_of(g.selector as int) == hue_of(goal_t)
}

/// The goal transition: a delivery (see `delivers`) ends carrying, brings
/// a new goal `fresh_goal`, restores `DELIVERY_RESTORE` signal (not below
/// zero), speeds lanes and bands up, opens a lane on every even score
/// (up to `LANE_COUNT`), and scores one. Then a pickup (see `picks_up`)
/// starts carrying.
pub open spec fn goal_step(g: Game, fresh_goal: u32) -> Game {
    let h = if delivers(g) {
        Game {
            carrying: false,
            goal_t: fresh_goal,
            signal_lost: if g.signal_lost >= DELIVERY_RESTORE {
                (g.signal_lost - DELIVERY_RESTORE) as u64
            } else {
                0
            },
            laser_speed: sped_up(g.laser_speed as int) as i64,
            jumprope_speed: sped_up(g.jumprope_speed as int) as i64,
            current_spawns: if g.score % 2 == 0 && g.current_spawns < LANE_COUNT {
                (g.current_spawns + 1) as usize
            } else {
                g.current_spawns
            },
            score: if g.score < u64::MAX { (g.score + 1) as u64 } else { g.score },
            ..g
        }
    } else {
        g
    };
    if picks_up(h, h.goal_t as int) {
        Game { carrying: true, ..h }
    } else {
        h
    }
}

/// Carrying starts only on a pickup: the player's rectangle meets the goal
/// and its colour bucket is the goal's. It ends only on a delivery below
/// the delivery line while carrying, which scores one and restores signal.
pub proof fn lemma_carrying_transitions(g: Game, fresh_goal: u32)
    requires
        g.player.wf(),
    ensures
        !g.carrying ==> (goal_step(g, fresh_goal).carrying <==> picks_up(g, g.goal_t as int)),
        (g.carrying && !goal_step(g, fresh_goal).carrying) <==> delivers(g),
        delivers(g) ==> {
            let h = goal_step(g, fresh_goal);
            &&& g.score < u64::MAX ==> h.score == g.score + 1
            &&& h.signal_lost == if g.signal_lost >= DELIVERY_RESTORE {
                g.signal_lost - DELIVERY_RESTORE
            } else {
                0
            }
            &&& h.goal_t == fresh_goal
        },
        !delivers(g) ==> goal_step(g, fresh_goal).score == g.score,
{
    if delivers(g) {
        assert(!overlap(player_rect(g), goal_rect()));
    }
}

impl Game {
    /// The goal transition of `goal_step`, with `fresh_goal` as the next
    /// goal should the player deliver.
    pub fn update_goal(&mut self, fresh_goal: u32)
        requires
            old(self).inv(),
            fresh_goal <= SELECTOR_FULL,
        ensures
            final(self).inv(),
            *final(self) == goal_step(*old(self), fresh_goal),
            final(self).signal_lost <= old(self).signal_lost,
            final(self).laser_speed >= old(self).laser_speed,
            final(self).jumprope_speed >= old(self).jumprope_speed,
            final(self).current_spawns >= old(self).current_spawns,
    {
        if self.carrying && self.player.y < DELIVERY_Y {
            self.carrying = false;
            self.goal_t = fresh_goal;
            self.signal_lost = if self.signal_lost >= DELIVERY_RESTORE {
                self.signal_lost - DELIVERY_RESTORE
            } else {
                0
            };
            self.laser_speed = speed_up(self.laser_speed);
            self.jumprope_speed = speed_up(self.jumprope_speed);
            if self.score % 2 == 0 && self.current_spawns < LANE_COUNT {
                self.current_spawns = self.current_spawns + 1;
            }
            if self.score < u64::MAX {
                self.score = self.score + 1;
            }
        }
        let player = build_rect(self.player.x, self.player.y, PLAYER_SIZE, PLAYER_SIZE);
        let goal = build_rect(GOAL_X, GOAL_Y, GOAL_SIZE, GOAL_SIZE);
        if rect_intersect(&player, &goal) && stepped_hue(self.selector) == stepped_hue(self.goal_t) {
            self.carrying = true;
        }
    }
}

} // verus!
