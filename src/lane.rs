use vstd::prelude::*;

use crate::config::POOL_CAP;
use crate::geometry::Vec2;
use crate::hazard::{
    all_wf, contact, contact_spec, count_contacts, lemma_sweep_accounting, shift, shifted,
    survivors, sweep, sweep_loss, Contact, Hazard, Probe,
};

verus! {

/// Number of projectile lanes.
pub const LANE_COUNT: usize = 10;

/// Where projectiles enter, on the right (1024 px).
pub const PATH_X: i64 = 614_400;

/// Width of a lane's spawn strip (150 px).
pub const PATH_WIDTH: i64 = 90_000;

/// A lane appends a projectile once its newest has moved left of this
/// line (`PATH_X - 0.45 * PATH_WIDTH`).
pub const LEAD_THRESHOLD: i64 = 573_900;

/// A lane drops its oldest projectile once it has moved left of this
/// line (`-0.55 * PATH_WIDTH - PATH_X`).
pub const TRAIL_THRESHOLD: i64 = -663_900;

/// Size of a projectile (100 px by 10 px).
pub const PROJECTILE_WIDTH: i64 = 60_000;
pub const PROJECTILE_HEIGHT: i64 = 6_000;

/// Signal lost to a damaging projectile hit.
pub const PROJECTILE_HIT_LOSS: u64 = 600;

/// Whether a lane whose entries have moved to `m` drops its oldest: it
/// has crossed `TRAIL_THRESHOLD`.
pub open spec fn retires(m: Seq<Hazard>) -> bool {
    m.len() > 0 && m[0].pos.x < TRAIL_THRESHOLD
}

/// `m` less its oldest entry, when that one retires.
pub open spec fn retired(m: Seq<Hazard>) -> Seq<Hazard> {
    if retires(m) {
        m.subrange(1, m.len() as int)
    } else {
        m
    }
}

/// Whether a lane whose entries have moved to `m` appends a projectile:
/// its newest entry has crossed `LEAD_THRESHOLD` (whether or not the
/// player hit it), and there is room. An empty queue has no newest entry.
pub open spec fn spawns(m: Seq<Hazard>) -> bool {
    0 < m.len() < POOL_CAP && m.last().pos.x < LEAD_THRESHOLD
}

/// The lane's entries moved `speed` to the left.
pub open spec fn moved_lane(s: Seq<Hazard>, speed: int) -> Seq<Hazard> {
    shifted(s, Vec2 { x: (-speed) as i64, y: 0 })
}

/// One tick of a lane: the entries move; the spawn and retire rules are
/// tested on the moved queue; then the entries the player hit and the
/// retiring oldest are removed, and `fresh` is appended if the lane spawns.
pub open spec fn lane_step(s: Seq<Hazard>, speed: int, probe: Probe, fresh: Hazard) -> Seq<Hazard> {
    let m = moved_lane(s, speed);
    let kept = survivors(retired(m), probe);
    if spawns(m) {
        kept.push(fresh)
    } else {
        kept
    }
}

/// The survivors of a queue are those of its oldest entry, then those of
/// the rest.
pub proof fn lemma_survivors_prepend(x: Hazard, t: Seq<Hazard>, probe: Probe)
    ensures
        survivors(seq![x] + t, probe) == (if contact_spec(probe, x.pos, x.hue) == Contact::Hit {
            seq![]
        } else {
            seq![x]
        }) + survivors(t, probe),
    decreases t.len(),
{
    let p: Seq<Hazard> = if contact_spec(probe, x.pos, x.hue) == Contact::Hit {
        seq![]
    } else {
        seq![x]
    };
    if t.len() == 0 {
        assert(seq![x] + t =~= seq![x]);
        assert(seq![x].drop_last() =~= Seq::<Hazard>::empty());
        assert(survivors(Seq::<Hazard>::empty(), probe) =~= Seq::<Hazard>::empty());
        assert(seq![x].last() == x);
        assert(survivors(seq![x], probe) =~= p);
        assert(p + survivors(t, probe) =~= p);
    } else {
        lemma_survivors_prepend(x, t.drop_last(), probe);
        assert((seq![x] + t).drop_last() =~= seq![x] + t.drop_last());
        assert((seq![x] + t).last() == t.last());
        let r = survivors(t.drop_last(), probe);
        assert((p + r).push(t.last()) =~= p + r.push(t.last()));
        assert(survivors(seq![x] + t, probe) == if contact_spec(probe, t.last().pos, t.last().hue)
            == Contact::Hit {
            p + r
        } else {
            (p + r).push(t.last())
        });
    }
}

/// Speeds a lane or a band may move at, in subpixels a tick.
pub open spec fn valid_speed(v: int) -> bool {
    0 <= v <= 1_000_000
}

/// A lane's tick, and what the player suffered in it.
pub struct LaneStep {
    pub entries: Vec<Hazard>,
    pub hits: u64,
    pub grazes: u64,
    pub loss: u64,
}

/// One tick of a lane (see `lane_step`): every projectile moves `speed`
/// to the left; `fresh` is appended if the newest moved entry has crossed
/// `LEAD_THRESHOLD`; the oldest is dropped if it has crossed
/// `TRAIL_THRESHOLD`; and those the player hits with another colour are
/// removed. Both rules are skipped on an empty queue.
pub fn advance_lane(entries: &Vec<Hazard>, speed: i64, probe: &Probe, fresh: Hazard) -> (r:
    LaneStep)
    requires
        all_wf(entries@),
        entries@.len() <= POOL_CAP,
        valid_speed(speed as int),
        probe.wf(),
        fresh.wf(),
    ensures
        r.entries@ == lane_step(entries@, speed as int, *probe, fresh),
        all_wf(r.entries@),
        r.entries@.len() <= POOL_CAP,
        r.hits == count_contacts(moved_lane(entries@, speed as int), *probe, Contact::Hit),
        r.grazes == count_contacts(moved_lane(entries@, speed as int), *probe, Contact::Graze),
        r.loss == sweep_loss(
            moved_lane(entries@, speed as int),
            *probe,
            PROJECTILE_HIT_LOSS as int,
        ),
        r.loss <= 10_000 * POOL_CAP,
{
    let moved = shift(entries, Vec2 { x: -speed, y: 0 });
    let swept = sweep(&moved, probe, PROJECTILE_HIT_LOSS);
    let mut kept = swept.kept;
    proof {
        lemma_sweep_accounting(moved@, *probe, PROJECTILE_HIT_LOSS as int);
    }
    let n = moved.len();
    let spawn = 0 < n && n < POOL_CAP && moved[n - 1].pos.x < LEAD_THRESHOLD;
    if n > 0 && moved[0].pos.x < TRAIL_THRESHOLD {
        let ghost rest = moved@.subrange(1, n as int);
        proof {
            lemma_survivors_prepend(moved@[0], rest, *probe);
            assert(moved@ =~= seq![moved@[0]] + rest);
            lemma_sweep_accounting(rest, *probe, 0);
        }
        if contact(probe, moved[0].pos, moved[0].hue) != Contact::Hit {
            let ghost before = kept@;
            kept.remove(0);
            assert(kept@ =~= before.subrange(1, before.len() as int));
            assert(seq![moved@[0]] + survivors(rest, *probe) == before);
            assert(survivors(rest, *probe) =~= before.subrange(1, before.len() as int));
        } else {
            assert(Seq::<Hazard>::empty() + survivors(rest, *probe) =~= survivors(rest, *probe));
        }
    }
    if spawn {
        kept.push(fresh);
    }
    LaneStep { entries: kept, hits: swept.hits, grazes: swept.grazes, loss: swept.loss }
}

/// A lane keeps first-in-first-out order: after a tick its queue is the
/// queue of entries the player did not hit, in their order, less at most
/// the oldest, plus at most one new entry at the back. So its length
/// moves by at most one each way beyond the hits.
pub proof fn lemma_lane_fifo(s: Seq<Hazard>, speed: int, probe: Probe, fresh: Hazard)
    ensures
        exists|d: int, a: Seq<Hazard>|
            0 <= d <= 1 && a.len() <= 1 && d <= survivors(moved_lane(s, speed), probe).len()
                + a.len() && #[trigger] lane_step(s, speed, probe, fresh) == (survivors(
                moved_lane(s, speed),
                probe,
            ) + a).subrange(d, (survivors(moved_lane(s, speed), probe) + a).len() as int),
        s.len() - count_contacts(moved_lane(s, speed), probe, Contact::Hit) - 1 <= lane_step(
            s,
            speed,
            probe,
            fresh,
        ).len() <= s.len() - count_contacts(moved_lane(s, speed), probe, Contact::Hit) + 1,
{
    let m = moved_lane(s, speed);
    let kept = survivors(m, probe);
    lemma_sweep_accounting(m, probe, 0);
    let a: Seq<Hazard> = if spawns(m) { seq![fresh] } else { seq![] };
    let mut d: int = 0;
    if retires(m) {
        let rest = m.subrange(1, m.len() as int);
        lemma_survivors_prepend(m[0], rest, probe);
        assert(m =~= seq![m[0]] + rest);
        if contact_spec(probe, m[0].pos, m[0].hue) != Contact::Hit {
            d = 1;
            assert(survivors(rest, probe) =~= kept.subrange(1, kept.len() as int));
        } else {
            assert(survivors(rest, probe) =~= kept);
        }
    }
    assert(lane_step(s, speed, probe, fresh) =~= (kept + a).subrange(d, (kept + a).len() as int));
}

} // verus!
