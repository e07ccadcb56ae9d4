use vstd::prelude::*;

use crate::config::POOL_CAP;
use crate::geometry::{build_rect, clamp_world_spec, overlap, rect_intersect, rect_spec, valid_size, Rect, Vec2};
use crate::hue::HueStep;

verus! {

/// Signal lost by touching a hazard of the player's own colour.
pub const GRAZE_LOSS: u64 = 30;

/// Bound on the signal one damaging hit can cost.
pub const MAX_HIT_LOSS: u64 = 10_000;

/// A coloured hazard: a projectile, or a jumprope band.
#[derive(Clone, Copy, Debug, PartialEq, Eq, Structural)]
pub struct Hazard {
    pub pos: Vec2,
    pub hue: HueStep,
}

impl Hazard {
    pub open spec fn wf(self) -> bool {
        self.pos.wf() && self.hue.wf()
    }
}

/// What touching a hazard does to the player.
#[derive(Clone, Copy, Debug, PartialEq, Eq, Structural)]
pub enum Contact {
    /// No overlap.
    Clear,
    /// Overlap with a hazard of the player's colour: a small friction
    /// cost, and the hazard stays.
    Graze,
    /// Overlap with a hazard of another colour: damage, and the hazard goes.
    Hit,
}

/// The player as hazards of one kind see it: its rectangle and colour,
/// and the size of those hazards.
#[derive(Clone, Copy, Debug, PartialEq, Eq, Structural)]
pub struct Probe {
    pub player: Rect,
    pub player_hue: HueStep,
    pub width: i64,
    pub height: i64,
}

impl Probe {
    pub open spec fn wf(self) -> bool {
        valid_size(self.width as int) && valid_size(self.height as int)
    }
}

/// The contact between the probe's player and a hazard at `pos` of colour `hue`.
pub open spec fn contact_spec(probe: Probe, pos: Vec2, hue: HueStep) -> Contact {
    if !overlap(probe.player, rect_spec(pos.x as int, pos.y as int, probe.width as int, probe.height as int)) {
        Contact::Clear
    } else if hue == probe.player_hue {
        Contact::Graze
    } else {
        Contact::Hit
    }
}

/// Signal lost by a contact whose damaging hit costs `hit_loss`.
pub open spec fn loss_of(c: Contact, hit_loss: int) -> int {
    match c {
        Contact::Clear => 0,
        Contact::Graze => GRAZE_LOSS as int,
        Contact::Hit => hit_loss,
    }
}

/// The contact between the probe's player and a hazard at `pos` of colour `hue`.
pub fn contact(probe: &Probe, pos: Vec2, hue: HueStep) -> (r: Contact)
    requires
        probe.wf(),
        pos.wf(),
    ensures
        r == contact_spec(*probe, pos, hue),
{
    let rect = build_rect(pos.x, pos.y, probe.width, probe.height);
    if !rect_intersect(&probe.player, &rect) {
        Contact::Clear
    } else if hue.matches(&probe.player_hue) {
        Contact::Graze
    } else {
        Contact::Hit
    }
}

/// The hazards of `s` that a hit does not remove, in their order.
pub open spec fn survivors(s: Seq<Hazard>, probe: Probe) -> Seq<Hazard>
    decreases s.len(),
{
    if s.len() == 0 {
        seq![]
    } else {
        let rest = survivors(s.drop_last(), probe);
        if contact_spec(probe, s.last().pos, s.last().hue) == Contact::Hit {
            rest
        } else {
            rest.push(s.last())
        }
    }
}

/// How many hazards of `s` make contact `c`.
pub open spec fn count_contacts(s: Seq<Hazard>, probe: Probe, c: Contact) -> nat
    decreases s.len(),
{
    if s.len() == 0 {
        0
    } else {
        count_contacts(s.drop_last(), probe, c) + if contact_spec(probe, s.last().pos, s.last().hue)
            == c {
            1nat
        } else {
            0nat
        }
    }
}

/// Signal lost to all the contacts with the hazards of `s`.
pub open spec fn sweep_loss(s: Seq<Hazard>, probe: Probe, hit_loss: int) -> int
    decreases s.len(),
{
    if s.len() == 0 {
        0
    } else {
        sweep_loss(s.drop_last(), probe, hit_loss) + loss_of(
            contact_spec(probe, s.last().pos, s.last().hue),
            hit_loss,
        )
    }
}

/// Every hazard of `s` is well formed.
pub open spec fn all_wf(s: Seq<Hazard>) -> bool {
    forall|i: int| 0 <= i < s.len() ==> (#[trigger] s[i]).wf()
}

/// The hazards of `s`, each moved by `d` (kept in the world box).
pub open spec fn shifted(s: Seq<Hazard>, d: Vec2) -> Seq<Hazard> {
    Seq::new(
        s.len(),
        |i: int|
            Hazard {
                pos: Vec2 {
                    x: clamp_world_spec(s[i].pos.x + d.x) as i64,
                    y: clamp_world_spec(s[i].pos.y + d.y) as i64,
                },
                hue: s[i].hue,
            },
    )
}

/// The outcome of sweeping the player against a collection of hazards.
pub struct Sweep {
    /// The hazards still standing, in their order.
    pub kept: Vec<Hazard>,
    /// Damaging hits: each removed one hazard.
    pub hits: u64,
    /// Same-colour grazes.
    pub grazes: u64,
    /// The signal lost to both.
    pub loss: u64,
}

/// Moves every hazard by `d`.
pub fn shift(hazards: &Vec<Hazard>, d: Vec2) -> (r: Vec<Hazard>)
    requires
        all_wf(hazards@),
        d.wf(),
    ensures
        r@ == shifted(hazards@, d),
        all_wf(r@),
{
    let mut r: Vec<Hazard> = Vec::new();
    let mut i: usize = 0;
    while i < hazards.len()
        invariant
            i <= hazards@.len(),
            all_wf(hazards@),
            d.wf(),
            r@ == shifted(hazards@, d).take(i as int),
        decreases hazards@.len() - i,
    {
        let h = hazards[i];
        r.push(Hazard { pos: h.pos.add(d), hue: h.hue });
        i = i + 1;
        assert(r@ =~= shifted(hazards@, d).take(i as int));
    }
    assert(r@ =~= shifted(hazards@, d));
    r
}

/// A copy of `hazards`.
pub fn copy_hazards(hazards: &Vec<Hazard>) -> (r: Vec<Hazard>)
    ensures
        r@ == hazards@,
{
    let mut r: Vec<Hazard> = Vec::new();
    let mut i: usize = 0;
    while i < hazards.len()
        invariant
            i <= hazards@.len(),
            r@ == hazards@.take(i as int),
        decreases hazards@.len() - i,
    {
        r.push(hazards[i]);
        i = i + 1;
        assert(r@ =~= hazards@.take(i as int));
    }
    assert(hazards@.take(hazards@.len() as int) =~= hazards@);
    r
}

/// Resolves the player's contacts with every hazard: a damaging hit costs
/// `hit_loss` and removes the hazard; a graze costs `GRAZE_LOSS` and keeps it.
pub fn sweep(hazards: &Vec<Hazard>, probe: &Probe, hit_loss: u64) -> (r: Sweep)
    requires
        all_wf(hazards@),
        hazards@.len() <= POOL_CAP,
        probe.wf(),
        hit_loss <= MAX_HIT_LOSS,
    ensures
        r.kept@ == survivors(hazards@, *probe),
        all_wf(r.kept@),
        r.hits == count_contacts(hazards@, *probe, Contact::Hit),
        r.grazes == count_contacts(hazards@, *probe, Contact::Graze),
        r.loss == sweep_loss(hazards@, *probe, hit_loss as int),
        r.loss <= MAX_HIT_LOSS * POOL_CAP,
{
    let mut kept: Vec<Hazard> = Vec::new();
    let mut hits: u64 = 0;
    let mut grazes: u64 = 0;
    let mut loss: u64 = 0;
    let mut i: usize = 0;
    while i < hazards.len()
        invariant
            i <= hazards@.len() <= POOL_CAP,
            all_wf(hazards@),
            probe.wf(),
            hit_loss <= MAX_HIT_LOSS,
            kept@ == survivors(hazards@.take(i as int), *probe),
            all_wf(kept@),
            hits == count_contacts(hazards@.take(i as int), *probe, Contact::Hit),
            grazes == count_contacts(hazards@.take(i as int), *probe, Contact::Graze),
            loss == sweep_loss(hazards@.take(i as int), *probe, hit_loss as int),
            hits <= i,
            grazes <= i,
            loss <= MAX_HIT_LOSS * i,
        decreases hazards@.len() - i,
    {
        let h = hazards[i];
        let c = contact(probe, h.pos, h.hue);
        assert(hazards@.take(i + 1).drop_last() =~= hazards@.take(i as int));
        match c {
            Contact::Clear => {
                kept.push(h);
            },
            Contact::Graze => {
                kept.push(h);
                grazes = grazes + 1;
                loss = loss + GRAZE_LOSS;
            },
            Contact::Hit => {
                hits = hits + 1;
                loss = loss + hit_loss;
            },
        }
        i = i + 1;
    }
    assert(hazards@.take(hazards@.len() as int) =~= hazards@);
    Sweep { kept, hits, grazes, loss }
}

/// Every contact is counted once: the hazards that stand are those that
/// were not hit, and the signal lost is `hit_loss` for each damaging hit
/// plus `GRAZE_LOSS` for each graze.
pub proof fn lemma_sweep_accounting(s: Seq<Hazard>, probe: Probe, hit_loss: int)
    ensures
        survivors(s, probe).len() + count_contacts(s, probe, Contact::Hit) == s.len(),
        sweep_loss(s, probe, hit_loss) == hit_loss * count_contacts(s, probe, Contact::Hit)
            + GRAZE_LOSS * count_contacts(s, probe, Contact::Graze),
    decreases s.len(),
{
    if s.len() > 0 {
        lemma_sweep_accounting(s.drop_last(), probe, hit_loss);
        let h = count_contacts(s.drop_last(), probe, Contact::Hit);
        let g = count_contacts(s.drop_last(), probe, Contact::Graze);
        assert(hit_loss * (h + 1) == hit_loss * h + hit_loss) by (nonlinear_arith);
        assert(GRAZE_LOSS * (g + 1) == GRAZE_LOSS * g + GRAZE_LOSS) by (nonlinear_arith);
        let c = contact_spec(probe, s.last().pos, s.last().hue);
        let l = sweep_loss(s.drop_last(), probe, hit_loss);
        assert(l == hit_loss * h + GRAZE_LOSS * g);
        assert(sweep_loss(s, probe, hit_loss) == l + loss_of(c, hit_loss));
        if c == Contact::Hit {
            assert(count_contacts(s, probe, Contact::Hit) == h + 1);
            assert(count_contacts(s, probe, Contact::Graze) == g);
        } else if c == Contact::Graze {
            assert(count_contacts(s, probe, Contact::Hit) == h);
            assert(count_contacts(s, probe, Contact::Graze) == g + 1);
        } else {
            assert(count_contacts(s, probe, Contact::Hit) == h);
            assert(count_contacts(s, probe, Contact::Graze) == g);
        }
    } else {
        assert(count_contacts(s, probe, Contact::Hit) == 0);
        assert(count_contacts(s, probe, Contact::Graze) == 0);
        assert(hit_loss * 0 == 0) by (nonlinear_arith);
    }
}

/// One contact more in a sweep: a damaging hit removes exactly that hazard
/// and costs `hit_loss`, strictly more than the `GRAZE_LOSS` a graze costs;
/// a graze keeps the hazard.
pub proof fn lemma_single_contact(s: Seq<Hazard>, h: Hazard, probe: Probe, hit_loss: int)
    requires
        contact_spec(probe, h.pos, h.hue) != Contact::Clear,
        hit_loss > GRAZE_LOSS,
    ensures
        contact_spec(probe, h.pos, h.hue) == Contact::Hit ==> {
            &&& survivors(s.push(h), probe) == survivors(s, probe)
            &&& s.push(h).len() - survivors(s.push(h), probe).len() == s.len() - survivors(
                s,
                probe,
            ).len() + 1
            &&& sweep_loss(s.push(h), probe, hit_loss) == sweep_loss(s, probe, hit_loss) + hit_loss
            &&& sweep_loss(s.push(h), probe, hit_loss) > sweep_loss(s, probe, hit_loss)
                + GRAZE_LOSS
        },
        contact_spec(probe, h.pos, h.hue) == Contact::Graze ==> {
            &&& survivors(s.push(h), probe) == survivors(s, probe).push(h)
            &&& s.push(h).len() - survivors(s.push(h), probe).len() == s.len() - survivors(
                s,
                probe,
            ).len()
            &&& sweep_loss(s.push(h), probe, hit_loss) == sweep_loss(s, probe, hit_loss)
                + GRAZE_LOSS
        },
{
    assert(s.push(h).drop_last() =~= s);
}

} // verus!
