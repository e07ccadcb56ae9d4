use vstd::prelude::*;

use rand::rngs::StdRng;

use crate::config::POOL_CAP;
use crate::hazard::{contact, contact_spec, loss_of, Contact, Probe, GRAZE_LOSS, MAX_HIT_LOSS};
use crate::particle::{custom_step, free_step, Particle, LIFE_FULL, MAX_DECAY};

verus! {

/// Lifetime a fragment loses each tick (three sixtieths of its life).
pub const FRAGMENT_FADE: i64 = 50;

/// Friction applied to a fragment's velocity each tick, in thousandths.
pub const FRAGMENT_FRICTION: i64 = 750;

/// Every particle of `s` is well formed.
pub open spec fn particles_wf(s: Seq<Particle>) -> bool {
    forall|i: int| 0 <= i < s.len() ==> (#[trigger] s[i]).wf()
}

/// Every particle of `s` is alive.
pub open spec fn all_alive(s: Seq<Particle>) -> bool {
    forall|i: int| 0 <= i < s.len() ==> (#[trigger] s[i]).alive()
}

/// The live particles of `s`, in their order.
pub open spec fn alive_only(s: Seq<Particle>) -> Seq<Particle>
    decreases s.len(),
{
    if s.len() == 0 {
        seq![]
    } else if s.last().alive() {
        alive_only(s.drop_last()).push(s.last())
    } else {
        alive_only(s.drop_last())
    }
}

proof fn lemma_alive_only(s: Seq<Particle>)
    requires
        particles_wf(s),
    ensures
        particles_wf(alive_only(s)),
        all_alive(alive_only(s)),
        alive_only(s).len() <= s.len(),
    decreases s.len(),
{
    if s.len() > 0 {
        lemma_alive_only(s.drop_last());
    }
}

/// The particles of `v` that are still alive, in their order.
pub fn retain_alive(v: &Vec<Particle>) -> (r: Vec<Particle>)
    requires
        particles_wf(v@),
    ensures
        r@ == alive_only(v@),
        particles_wf(r@),
        all_alive(r@),
        r@.len() <= v@.len(),
{
    let mut r: Vec<Particle> = Vec::new();
    let mut i: usize = 0;
    while i < v.len()
        invariant
            i <= v@.len(),
            r@ == alive_only(v@.take(i as int)),
        decreases v@.len() - i,
    {
        assert(v@.take(i + 1).drop_last() =~= v@.take(i as int));
        if v[i].lifetime > 0 {
            r.push(v[i]);
        }
        i = i + 1;
    }
    assert(v@.take(v@.len() as int) =~= v@);
    proof {
        lemma_alive_only(v@);
    }
    r
}

/// Appends `p` unless the pool is full.
pub fn push_capped(v: &mut Vec<Particle>, p: Particle)
    requires
        old(v)@.len() <= POOL_CAP,
    ensures
        final(v)@ == if old(v)@.len() < POOL_CAP { old(v)@.push(p) } else { old(v)@ },
        final(v)@.len() <= POOL_CAP,
{
    if v.len() < POOL_CAP {
        v.push(p);
    }
}

/// `q` is `p` after one free-physics step with some decay below `MAX_DECAY`.
pub open spec fn free_stepped(p: Particle, q: Particle) -> bool {
    exists|d: int| 0 <= d < MAX_DECAY && q == #[trigger] free_step(p, d)
}

/// One free-physics step of every particle, each with its own decay drawn
/// from `rng`.
pub fn update_all(v: &Vec<Particle>, rng: &mut StdRng) -> (r: Vec<Particle>)
    requires
        particles_wf(v@),
        all_alive(v@),
    ensures
        r@.len() == v@.len(),
        particles_wf(r@),
        forall|i: int| 0 <= i < v@.len() ==> #[trigger] free_stepped(v@[i], r@[i]),
{
    let mut r: Vec<Particle> = Vec::new();
    let mut i: usize = 0;
    while i < v.len()
        invariant
            i <= v@.len(),
            particles_wf(v@),
            all_alive(v@),
            r@.len() == i,
            particles_wf(r@),
            forall|j: int| 0 <= j < i ==> #[trigger] free_stepped(v@[j], r@[j]),
        decreases v@.len() - i,
    {
        let mut p = v[i];
        p.update(rng);
        r.push(p);
        i = i + 1;
    }
    r
}

/// `s` with every lifetime lowered by `amount`, keeping the particles
/// still alive, in their order.
pub open spec fn faded(s: Seq<Particle>, amount: int) -> Seq<Particle>
    decreases s.len(),
{
    if s.len() == 0 {
        seq![]
    } else {
        let p = Particle { lifetime: (s.last().lifetime - amount) as i64, ..s.last() };
        if p.alive() {
            faded(s.drop_last(), amount).push(p)
        } else {
            faded(s.drop_last(), amount)
        }
    }
}

proof fn lemma_faded(s: Seq<Particle>, amount: int)
    requires
        particles_wf(s),
        all_alive(s),
        0 <= amount <= LIFE_FULL,
    ensures
        particles_wf(faded(s, amount)),
        all_alive(faded(s, amount)),
        faded(s, amount).len() <= s.len(),
    decreases s.len(),
{
    if s.len() > 0 {
        lemma_faded(s.drop_last(), amount);
    }
}

/// Lowers every lifetime by `amount` and drops the particles that expire.
pub fn fade(v: &Vec<Particle>, amount: i64) -> (r: Vec<Particle>)
    requires
        particles_wf(v@),
        all_alive(v@),
        0 <= amount <= LIFE_FULL,
    ensures
        r@ == faded(v@, amount as int),
        particles_wf(r@),
        all_alive(r@),
        r@.len() <= v@.len(),
{
    let mut r: Vec<Particle> = Vec::new();
    let mut i: usize = 0;
    while i < v.len()
        invariant
            i <= v@.len(),
            particles_wf(v@),
            all_alive(v@),
            0 <= amount <= LIFE_FULL,
            r@ == faded(v@.take(i as int), amount as int),
        decreases v@.len() - i,
    {
        assert(v@.take(i + 1).drop_last() =~= v@.take(i as int));
        let p = Particle { lifetime: v[i].lifetime - amount, ..v[i] };
        if p.lifetime > 0 {
            r.push(p);
        }
        i = i + 1;
    }
    assert(v@.take(v@.len() as int) =~= v@);
    proof {
        lemma_faded(v@, amount as int);
    }
    r
}

/// One fragment's tick after the player is swept against it.
pub open spec fn fragment_step(p: Particle) -> Particle {
    custom_step(p, FRAGMENT_FADE as int, None, Some(FRAGMENT_FRICTION), None)
}

/// The contact between the probe's player and fragment `p`.
pub open spec fn fragment_contact(probe: Probe, p: Particle) -> Contact {
    contact_spec(probe, p.position, p.hue)
}

/// The fragments of `s` the player did not hit, each advanced one tick,
/// keeping those still alive, in their order.
pub open spec fn fragment_survivors(s: Seq<Particle>, probe: Probe) -> Seq<Particle>
    decreases s.len(),
{
    if s.len() == 0 {
        seq![]
    } else {
        let rest = fragment_survivors(s.drop_last(), probe);
        let q = fragment_step(s.last());
        if fragment_contact(probe, s.last()) == Contact::Hit || !q.alive() {
            rest
        } else {
            rest.push(q)
        }
    }
}

/// How many fragments of `s` make contact `c`.
pub open spec fn fragment_contacts(s: Seq<Particle>, probe: Probe, c: Contact) -> nat
    decreases s.len(),
{
    if s.len() == 0 {
        0
    } else {
        fragment_contacts(s.drop_last(), probe, c) + if fragment_contact(probe, s.last()) == c {
            1nat
        } else {
            0nat
        }
    }
}

/// Signal lost to all the contacts with the fragments of `s`.
pub open spec fn fragment_loss(s: Seq<Particle>, probe: Probe, hit_loss: int) -> int
    decreases s.len(),
{
    if s.len() == 0 {
        0
    } else {
        fragment_loss(s.drop_last(), probe, hit_loss) + loss_of(
            fragment_contact(probe, s.last()),
            hit_loss,
        )
    }
}

/// The outcome of sweeping the player against the fragments.
pub struct FragmentSweep {
    pub kept: Vec<Particle>,
    pub hits: u64,
    pub grazes: u64,
    pub loss: u64,
}

/// Resolves the player's contacts with every fragment, as for hazards
/// (a hit removes the fragment), then advances the rest one tick with
/// `FRAGMENT_FRICTION` and drops those that expire.
pub fn sweep_fragments(v: &Vec<Particle>, probe: &Probe, hit_loss: u64) -> (r: FragmentSweep)
    requires
        particles_wf(v@),
        all_alive(v@),
        v@.len() <= POOL_CAP,
        probe.wf(),
        hit_loss <= MAX_HIT_LOSS,
    ensures
        r.kept@ == fragment_survivors(v@, *probe),
        particles_wf(r.kept@),
        all_alive(r.kept@),
        r.kept@.len() <= v@.len(),
        r.hits == fragment_contacts(v@, *probe, Contact::Hit),
        r.grazes == fragment_contacts(v@, *probe, Contact::Graze),
        r.loss == fragment_loss(v@, *probe, hit_loss as int),
        r.loss <= MAX_HIT_LOSS * POOL_CAP,
{
    let mut kept: Vec<Particle> = Vec::new();
    let mut hits: u64 = 0;
    let mut grazes: u64 = 0;
    let mut loss: u64 = 0;
    let mut i: usize = 0;
    while i < v.len()
        invariant
            i <= v@.len() <= POOL_CAP,
            particles_wf(v@),
            all_alive(v@),
            probe.wf(),
            hit_loss <= MAX_HIT_LOSS,
            kept@ == fragment_survivors(v@.take(i as int), *probe),
            particles_wf(kept@),
            all_alive(kept@),
            kept@.len() <= i,
            hits == fragment_contacts(v@.take(i as int), *probe, Contact::Hit),
            grazes == fragment_contacts(v@.take(i as int), *probe, Contact::Graze),
            loss == fragment_loss(v@.take(i as int), *probe, hit_loss as int),
            hits <= i,
            grazes <= i,
            loss <= MAX_HIT_LOSS * i,
        decreases v@.len() - i,
    {
        assert(v@.take(i + 1).drop_last() =~= v@.take(i as int));
        let p = v[i];
        let c = contact(probe, p.position, p.hue);
        match c {
            Contact::Hit => {
                hits = hits + 1;
                loss = loss + hit_loss;
            },
            _ => {
                if c == Contact::Graze {
                    grazes = grazes + 1;
                    loss = loss + GRAZE_LOSS;
                }
                let mut q = p;
                q.update_custom(FRAGMENT_FADE, None, Some(FRAGMENT_FRICTION), None);
                if q.lifetime > 0 {
                    kept.push(q);
                }
            },
        }
        i = i + 1;
    }
    assert(v@.take(v@.len() as int) =~= v@);
    FragmentSweep { kept, hits, grazes, loss }
}

} // verus!
