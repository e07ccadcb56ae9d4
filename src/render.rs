use vstd::prelude::*;

use crate::geometry::{build_rect, rect_spec, valid_size, Rect};
use crate::hazard::{all_wf, Hazard};
use crate::hue::HueStep;
use crate::particle::{Particle, LIFE_FULL};
use crate::pool::particles_wf;

verus! {

/// How a rectangle is filled.
#[derive(Clone, Copy, Debug, PartialEq, Eq, Structural)]
pub enum Paint {
    /// The representative colour of `hue`, at opacity `alpha` of `LIFE_FULL`.
    Hue { hue: HueStep, alpha: i64 },
    /// The player flagged by a damaging hit.
    Red,
    /// A goal being carried (its colour's saturation taken to zero).
    White,
}

/// A coloured rectangle for the renderer.
#[derive(Clone, Copy, Debug, PartialEq, Eq, Structural)]
pub struct Sprite {
    pub rect: Rect,
    pub paint: Paint,
}

/// Everything the renderer draws for one tick, one list per entity class,
/// and the HUD values.
pub struct RenderFrame {
    pub player: Sprite,
    pub goal: Sprite,
    pub projectiles: Vec<Sprite>,
    pub jumpropes: Vec<Sprite>,
    pub clusters: Vec<Sprite>,
    /// Where each clusterbomb will land.
    pub targets: Vec<Sprite>,
    pub fragments: Vec<Sprite>,
    /// Glow particles, then projectile ghosts.
    pub particles: Vec<Sprite>,
    pub signal_lost: u64,
    pub score: u64,
    pub radius: u64,
}

/// A hazard's sprite: its rectangle at full opacity.
pub open spec fn hazard_sprite(h: Hazard, width: int, height: int) -> Sprite {
    Sprite {
        rect: rect_spec(h.pos.x as int, h.pos.y as int, width, height),
        paint: Paint::Hue { hue: h.hue, alpha: LIFE_FULL },
    }
}

/// A particle's sprite: its rectangle, at full opacity or, with `fading`,
/// at the opacity of its remaining lifetime.
pub open spec fn particle_sprite(p: Particle, width: int, height: int, fading: bool) -> Sprite {
    Sprite {
        rect: rect_spec(p.position.x as int, p.position.y as int, width, height),
        paint: Paint::Hue { hue: p.hue, alpha: if fading { p.lifetime } else { LIFE_FULL } },
    }
}

pub open spec fn hazard_sprites(s: Seq<Hazard>, width: int, height: int) -> Seq<Sprite> {
    Seq::new(s.len(), |i: int| hazard_sprite(s[i], width, height))
}

pub open spec fn particle_sprites(s: Seq<Particle>, width: int, height: int, fading: bool) -> Seq<
    Sprite,
> {
    Seq::new(s.len(), |i: int| particle_sprite(s[i], width, height, fading))
}

/// Appends the sprite of every hazard of `v`.
pub fn push_hazard_sprites(out: &mut Vec<Sprite>, v: &Vec<Hazard>, width: i64, height: i64)
    requires
        all_wf(v@),
        valid_size(width as int),
        valid_size(height as int),
    ensures
        final(out)@ == old(out)@ + hazard_sprites(v@, width as int, height as int),
{
    let ghost start = out@;
    let mut i: usize = 0;
    while i < v.len()
        invariant
            i <= v@.len(),
            all_wf(v@),
            valid_size(width as int),
            valid_size(height as int),
            out@ == start + hazard_sprites(v@, width as int, height as int).take(i as int),
        decreases v@.len() - i,
    {
        let h = v[i];
        assert(h.wf());
        out.push(
            Sprite {
                rect: build_rect(h.pos.x, h.pos.y, width, height),
                paint: Paint::Hue { hue: h.hue, alpha: LIFE_FULL },
            },
        );
        i = i + 1;
        assert(out@ =~= start + hazard_sprites(v@, width as int, height as int).take(i as int));
    }
    assert(hazard_sprites(v@, width as int, height as int).take(v@.len() as int) =~= hazard_sprites(
        v@,
        width as int,
        height as int,
    ));
}

/// Appends the sprite of every particle of `v`.
pub fn push_particle_sprites(
    out: &mut Vec<Sprite>,
    v: &Vec<Particle>,
    width: i64,
    height: i64,
    fading: bool,
)
    requires
        particles_wf(v@),
        valid_size(width as int),
        valid_size(height as int),
    ensures
        final(out)@ == old(out)@ + particle_sprites(v@, width as int, height as int, fading),
{
    let ghost start = out@;
    let mut i: usize = 0;
    while i < v.len()
        invariant
            i <= v@.len(),
            particles_wf(v@),
            valid_size(width as int),
            valid_size(height as int),
            out@ == start + particle_sprites(v@, width as int, height as int, fading).take(i as int),
        decreases v@.len() - i,
    {
        let p = v[i];
        assert(p.wf());
        out.push(
            Sprite {
                rect: build_rect(p.position.x, p.position.y, width, height),
                paint: Paint::Hue {
                    hue: p.hue,
                    alpha: if fading { p.lifetime } else { LIFE_FULL },
                },
            },
        );
        i = i + 1;
        assert(out@ =~= start + particle_sprites(v@, width as int, height as int, fading).take(
            i as int,
        ));
    }
    assert(particle_sprites(v@, width as int, height as int, fading).take(v@.len() as int)
        =~= particle_sprites(v@, width as int, height as int, fading));
}

} // verus!
