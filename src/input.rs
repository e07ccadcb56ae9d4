use vstd::prelude::*;

use crate::config::{MAX_PHASE_LOSS, SIGNAL_CEILING, WORLD_LIMIT};
use crate::game::{Game, RADIUS_CAP};
use crate::geometry::{clamp_world, clamp_world_spec, Vec2};
use crate::hue::SELECTOR_FULL;

verus! {

/// Key codes: move left, down (y decreasing), right, up (y increasing),
/// and boost.
pub const KEY_LEFT: u16 = 0;
pub const KEY_DOWN: u16 = 1;
pub const KEY_RIGHT: u16 = 2;
pub const KEY_UP: u16 = 13;
pub const KEY_BOOST: u16 = 14;

/// Most keys held at once that are tracked.
pub const MAX_KEYS: usize = 64;

/// Signal lost, and radius gained, for each tick the boost key is held.
pub const BOOST_LOSS: u64 = 10;
pub const BOOST_RADIUS: u64 = 100;

/// How far a held direction key moves the player in a tick (600 px/s).
pub const PLAYER_STEP: i64 = 6_000;

/// Whether `code` is in `keys`.
pub fn holds_key(keys: &Vec<u16>, code: u16) -> (r: bool)
    ensures
        r == keys@.contains(code),
{
    let mut i: usize = 0;
    while i < keys.len()
        invariant
            i <= keys@.len(),
            forall|j: int| 0 <= j < i ==> keys@[j] != code,
        decreases keys@.len() - i,
    {
        if keys[i] == code {
            assert(keys@[i as int] == code);
            return true;
        }
        i = i + 1;
    }
    false
}

/// `keys` without `code`.
pub open spec fn without_key(keys: Seq<u16>, code: u16) -> Seq<u16>
    decreases keys.len(),
{
    if keys.len() == 0 {
        seq![]
    } else if keys.last() == code {
        without_key(keys.drop_last(), code)
    } else {
        without_key(keys.drop_last(), code).push(keys.last())
    }
}

proof fn lemma_without_key(keys: Seq<u16>, code: u16)
    ensures
        without_key(keys, code).len() <= keys.len(),
        !without_key(keys, code).contains(code),
        forall|k: u16| k != code ==> (keys.contains(k) <==> #[trigger] without_key(keys, code).contains(k)),
    decreases keys.len(),
{
    if keys.len() > 0 {
        lemma_without_key(keys.drop_last(), code);
        let w = without_key(keys.drop_last(), code);
        assert forall|k: u16| k != code implies (keys.contains(k) <==> #[trigger] without_key(keys, code).contains(k)) by {
            let wk = without_key(keys, code);
            if keys.contains(k) {
                let j = choose|j: int| 0 <= j < keys.len() && keys[j] == k;
                if j < keys.len() - 1 {
                    assert(keys.drop_last()[j] == k);
                    assert(keys.drop_last().contains(k));
                    assert(w.contains(k));
                    let m = choose|m: int| 0 <= m < w.len() && w[m] == k;
                    assert(wk[m] == k);
                } else {
                    assert(wk[w.len() as int] == k);
                }
            }
            if wk.contains(k) {
                let j = choose|j: int| 0 <= j < wk.len() && wk[j] == k;
                if j < w.len() {
                    assert(w[j] == k);
                    assert(w.contains(k));
                    assert(keys.drop_last().contains(k));
                    let m = choose|m: int| 0 <= m < keys.drop_last().len() && keys.drop_last()[m] == k;
                    assert(keys[m] == k);
                } else {
                    assert(keys[keys.len() - 1] == k);
                }
            }
        }
        if without_key(keys, code).contains(code) {
            let j = choose|j: int| 0 <= j < without_key(keys, code).len() && without_key(keys, code)[j] == code;
            if j < w.len() {
                assert(w[j] == code);
            }
        }
    }
}

/// The held keys' effect of `Game::apply_keys`: only the position, signal
/// loss and radius change.
pub open spec fn keys_applied(g: Game, h: Game) -> bool {
    &&& (h.player, h.signal_lost as int, h.radius as int) == held_all(
        (g.player, g.signal_lost as int, g.radius as int),
        g.keys@,
    )
    &&& h == (Game {
        player: h.player,
        signal_lost: h.signal_lost,
        radius: h.radius,
        ..g
    })
}

/// What one held key does in a tick to the player's position, signal
/// loss and radius.
pub open spec fn held_step(m: (Vec2, int, int), code: u16) -> (Vec2, int, int) {
    let (p, signal, radius) = m;
    if code == KEY_LEFT {
        (Vec2 { x: clamp_world_spec(p.x - PLAYER_STEP) as i64, ..p }, signal, radius)
    } else if code == KEY_DOWN {
        (Vec2 { y: clamp_world_spec(p.y - PLAYER_STEP) as i64, ..p }, signal, radius)
    } else if code == KEY_RIGHT {
        (Vec2 { x: clamp_world_spec(p.x + PLAYER_STEP) as i64, ..p }, signal, radius)
    } else if code == KEY_UP {
        (Vec2 { y: clamp_world_spec(p.y + PLAYER_STEP) as i64, ..p }, signal, radius)
    } else if code == KEY_BOOST {
        (p, signal + BOOST_LOSS, if radius + BOOST_RADIUS <= RADIUS_CAP {
            radius + BOOST_RADIUS
        } else {
            RADIUS_CAP as int
        })
    } else {
        m
    }
}

/// What all held keys do in a tick, taken in the order they were pressed.
pub open spec fn held_all(m: (Vec2, int, int), keys: Seq<u16>) -> (Vec2, int, int)
    decreases keys.len(),
{
    if keys.len() == 0 {
        m
    } else {
        held_step(held_all(m, keys.drop_last()), keys.last())
    }
}

/// The selector a pointer at `x` across a view `width` wide sets.
pub open spec fn selector_of(x: int, width: int) -> u32 {
    if x <= 0 {
        0
    } else if x >= width {
        SELECTOR_FULL
    } else {
        (x * SELECTOR_FULL / width) as u32
    }
}

impl Game {
    /// Marks `code` as held.
    pub fn key_down(&mut self, code: u16)
        requires
            old(self).keys@.len() <= MAX_KEYS,
        ensures
            final(self).keys@ == if old(self).keys@.contains(code) || old(self).keys@.len()
                == MAX_KEYS {
                old(self).keys@
            } else {
                old(self).keys@.push(code)
            },
            final(self).keys@.len() <= MAX_KEYS,
            *final(self) == (Game { keys: final(self).keys, ..*old(self) }),
    {
        if !holds_key(&self.keys, code) && self.keys.len() < MAX_KEYS {
            self.keys.push(code);
        }
    }

    /// Applies the held keys: each direction key moves the player by
    /// `PLAYER_STEP`; the boost key costs `BOOST_LOSS` signal and grows the
    /// radius by `BOOST_RADIUS`.
    pub fn apply_keys(&mut self)
        requires
            old(self).inv(),
            old(self).has_headroom(),
        ensures
            final(self).inv(),
            keys_applied(*old(self), *final(self)),
            final(self).signal_lost <= old(self).signal_lost + MAX_PHASE_LOSS,
    {
        let mut pos = self.player;
        let mut signal = self.signal_lost;
        let mut radius = self.radius;
        let mut i: usize = 0;
        while i < self.keys.len()
            invariant
                i <= self.keys@.len() <= MAX_KEYS,
                pos.wf(),
                radius <= RADIUS_CAP,
                self.signal_lost <= signal <= self.signal_lost + BOOST_LOSS * i,
                self.signal_lost <= SIGNAL_CEILING - 5 * MAX_PHASE_LOSS,
                (pos, signal as int, radius as int) == held_all(
                    (self.player, self.signal_lost as int, self.radius as int),
                    self.keys@.take(i as int),
                ),
            decreases self.keys@.len() - i,
        {
            assert(self.keys@.take(i + 1).drop_last() =~= self.keys@.take(i as int));
            let code = self.keys[i];
            if code == KEY_LEFT {
                pos = Vec2 { x: clamp_world(pos.x - PLAYER_STEP), ..pos };
            } else if code == KEY_DOWN {
                pos = Vec2 { y: clamp_world(pos.y - PLAYER_STEP), ..pos };
            } else if code == KEY_RIGHT {
                pos = Vec2 { x: clamp_world(pos.x + PLAYER_STEP), ..pos };
            } else if code == KEY_UP {
                pos = Vec2 { y: clamp_world(pos.y + PLAYER_STEP), ..pos };
            } else if code == KEY_BOOST {
                signal = signal + BOOST_LOSS;
                radius = if radius + BOOST_RADIUS <= RADIUS_CAP {
                    radius + BOOST_RADIUS
                } else {
                    RADIUS_CAP
                };
            }
            i = i + 1;
        }
        assert(self.keys@.take(self.keys@.len() as int) =~= self.keys@);
        self.player = pos;
        self.signal_lost = signal;
        self.radius = radius;
    }

    /// Marks `code` as released.
    pub fn key_up(&mut self, code: u16)
        requires
            old(self).keys@.len() <= MAX_KEYS,
        ensures
            final(self).keys@ == without_key(old(self).keys@, code),
            final(self).keys@.len() <= MAX_KEYS,
            !final(self).keys@.contains(code),
            *final(self) == (Game { keys: final(self).keys, ..*old(self) }),
    {
        let mut kept: Vec<u16> = Vec::new();
        let mut i: usize = 0;
        while i < self.keys.len()
            invariant
                i <= self.keys@.len(),
                kept@ == without_key(self.keys@.take(i as int), code),
            decreases self.keys@.len() - i,
        {
            assert(self.keys@.take(i + 1).drop_last() =~= self.keys@.take(i as int));
            if self.keys[i] != code {
                kept.push(self.keys[i]);
            }
            i = i + 1;
        }
        assert(self.keys@.take(self.keys@.len() as int) =~= self.keys@);
        proof {
            lemma_without_key(self.keys@, code);
        }
        self.keys = kept;
    }

    /// Sets the selector from a pointer at horizontal position `x` across
    /// a view `width` wide: `x / width` of the full range, clamped to it.
    pub fn pointer_moved(&mut self, x: i64, width: i64)
        requires
            0 < width <= WORLD_LIMIT,
            -WORLD_LIMIT <= x <= WORLD_LIMIT,
        ensures
            final(self).selector == selector_of(x as int, width as int),
            *final(self) == (Game { selector: final(self).selector, ..*old(self) }),
    {
        if x <= 0 {
            self.selector = 0;
        } else if x >= width {
            self.selector = SELECTOR_FULL;
        } else {
            proof {
                assert(x * SELECTOR_FULL < width * SELECTOR_FULL) by (nonlinear_arith)
                    requires x < width;
                assert(x * SELECTOR_FULL / (width as int) < SELECTOR_FULL) by (nonlinear_arith)
                    requires x * SELECTOR_FULL < width * SELECTOR_FULL, width > 0, x > 0;
                assert(x * SELECTOR_FULL <= 360_000_000_000_000) by (nonlinear_arith)
                    requires x <= WORLD_LIMIT;
            }
            self.selector = (x * (SELECTOR_FULL as i64) / width) as u32;
        }
    }
}

} // verus!
