use colorstep::cluster::{isqrt, Clusterbomb, CLUSTER_END_T};
use colorstep::geometry::{build_rect, Vec2};
use colorstep::hazard::{contact, copy_hazards, shift, sweep, Contact, Hazard, Probe};
use colorstep::hue::{quantize, stepped_hue, HueStep};
use colorstep::lane::{advance_lane, PROJECTILE_HEIGHT, PROJECTILE_HIT_LOSS, PROJECTILE_WIDTH};
use colorstep::particle::{unit_direction, Particle, LIFE_FULL};
use colorstep::pool::{fade, push_capped, retain_alive, sweep_fragments, update_all};
use rand::rngs::StdRng;
use rand::SeedableRng;

fn hue(index: u32) -> HueStep {
    HueStep { index, steps: 7 }
}

fn at_rest(x: i64, y: i64, lifetime: i64) -> Particle {
    Particle {
        position: Vec2 { x, y },
        velocity: Vec2 { x: 0, y: 0 },
        acceleration: Vec2 { x: 0, y: 0 },
        hue: hue(2),
        lifetime,
    }
}

fn probe_at_origin(player_hue: HueStep, width: i64, height: i64) -> Probe {
    Probe { player: build_rect(0, 0, 30_000, 30_000), player_hue, width, height }
}

fn projectile(x: i64, y: i64, h: HueStep) -> Hazard {
    Hazard { pos: Vec2 { x, y }, hue: h }
}

#[test]
fn directions_table() {
    assert_eq!(unit_direction(0), Vec2 { x: 1_000, y: 0 });
    assert_eq!(unit_direction(1), Vec2 { x: 924, y: 383 });
    assert_eq!(unit_direction(4), Vec2 { x: 0, y: 1_000 });
    assert_eq!(unit_direction(5), Vec2 { x: -383, y: 924 });
    assert_eq!(unit_direction(8), Vec2 { x: -1_000, y: 0 });
    assert_eq!(unit_direction(12), Vec2 { x: 0, y: -1_000 });
    assert_eq!(unit_direction(15), Vec2 { x: 924, y: -383 });
}

#[test]
fn spawn_with_exact() {
    let p = Particle::spawn_with(
        Vec2 { x: 1_000, y: -2_000 },
        6_000,
        1_800,
        Vec2 { x: -3_000, y: 0 },
        hue(3),
        4,
        6,
        5,
        5,
    );
    assert_eq!(p.position, Vec2 { x: 1_005, y: -2_010 });
    assert_eq!(p.velocity, Vec2 { x: -3_000, y: 6_000 });
    assert_eq!(p.acceleration, Vec2 { x: -1_272, y: 1_272 });
    assert_eq!(p.hue, hue(3));
    assert_eq!(p.lifetime, LIFE_FULL);
}

#[test]
fn spawn_draws_within_bounds() {
    let mut rng = StdRng::seed_from_u64(11);
    for _ in 0..200 {
        let p = Particle::spawn(Vec2 { x: 10_000, y: 10_000 }, 0, 0, Vec2 { x: 0, y: 0 }, hue(1), &mut rng);
        assert!(p.position.x >= 9_950 && p.position.x <= 10_050);
        assert!(p.position.y >= 9_950 && p.position.y <= 10_050);
        assert_eq!(p.velocity, Vec2 { x: 0, y: 0 });
        assert_eq!(p.lifetime, LIFE_FULL);
    }
}

#[test]
fn free_update_exact() {
    let mut p = Particle {
        position: Vec2 { x: 0, y: 0 },
        velocity: Vec2 { x: 10, y: 0 },
        acceleration: Vec2 { x: 2, y: 0 },
        hue: hue(0),
        lifetime: 1_000,
    };
    p.update_with(99);
    assert_eq!(p.lifetime, 901);
    assert_eq!(p.velocity, Vec2 { x: 10, y: 0 });
    assert_eq!(p.position, Vec2 { x: 10, y: 0 });
}

#[test]
fn free_update_decay_stays_below_bound() {
    let mut rng = StdRng::seed_from_u64(3);
    for _ in 0..500 {
        let mut p = at_rest(0, 0, 1_000);
        p.update(&mut rng);
        assert!(p.lifetime > 900 && p.lifetime <= 1_000);
    }
}

#[test]
fn custom_update_friction() {
    let mut p = at_rest(0, 0, 1_000);
    p.velocity = Vec2 { x: 90_000, y: -90_000 };
    p.update_custom(50, None, Some(750), None);
    assert_eq!(p.lifetime, 950);
    assert_eq!(p.velocity, Vec2 { x: 67_500, y: -67_500 });
    assert_eq!(p.position, Vec2 { x: 67_500, y: -67_500 });
}

#[test]
fn custom_update_forced_and_accel() {
    let mut p = at_rest(0, 0, 1_000);
    p.update_custom(10, Some(Vec2 { x: 1, y: 2 }), None, Some(Vec2 { x: 5, y: 5 }));
    assert_eq!(p.lifetime, 990);
    assert_eq!(p.velocity, Vec2 { x: 5, y: 5 });
    assert_eq!(p.position, Vec2 { x: 1, y: 2 });
}

#[test]
fn isqrt_values() {
    assert_eq!(isqrt(0), 0);
    assert_eq!(isqrt(15), 3);
    assert_eq!(isqrt(16), 4);
    assert_eq!(isqrt(320_000_000_000), 565_685);
    assert_eq!(isqrt(1_000_000_000_000), 1_000_000);
}

#[test]
fn from_positions_solves_lift() {
    let b = Clusterbomb::from_positions(Vec2 { x: 0, y: 0 }, Vec2 { x: 600_000, y: 0 }, hue(4)).unwrap();
    assert_eq!(b.lift, 565_685);
    assert_eq!(b.t, 0);
    assert_eq!(b.start_pos, Vec2 { x: 0, y: 0 });
    assert_eq!(b.end_pos, Vec2 { x: 600_000, y: 0 });
}

#[test]
fn from_positions_rejects_out_of_reach() {
    let far = Clusterbomb::from_positions(Vec2 { x: 0, y: 0 }, Vec2 { x: 1_800_001, y: 0 }, hue(4));
    assert!(far.is_none());
    let back = Clusterbomb::from_positions(Vec2 { x: 0, y: 0 }, Vec2 { x: -1_800_001, y: 5 }, hue(4));
    assert!(back.is_none());
    let edge = Clusterbomb::from_positions(Vec2 { x: 0, y: 0 }, Vec2 { x: 1_800_000, y: 0 }, hue(4));
    assert_eq!(edge.unwrap().lift, 0);
}

#[test]
fn bomb_midflight_position() {
    let mut b = Clusterbomb::from_positions(Vec2 { x: 0, y: 0 }, Vec2 { x: 600_000, y: 0 }, hue(4)).unwrap();
    let p = b.update(90);
    assert_eq!(p, Vec2 { x: 300_000, y: 424_263 });
    assert_eq!(b.t, 90);

    let mut c = Clusterbomb::from_positions(
        Vec2 { x: -100_000, y: 50_000 },
        Vec2 { x: 200_000, y: -300_000 },
        hue(4),
    )
    .unwrap();
    assert_eq!(c.lift, 591_607);
    assert_eq!(c.update(60), Vec2 { x: 0, y: 405_515 });
}

#[test]
fn bomb_lands_on_target() {
    let cases = [
        (Vec2 { x: 0, y: 0 }, Vec2 { x: 600_000, y: 0 }),
        (Vec2 { x: -614_400, y: 460_800 }, Vec2 { x: 100_000, y: -200_000 }),
        (Vec2 { x: 300_000, y: -400_000 }, Vec2 { x: -1_000_000, y: 800_000 }),
        (Vec2 { x: 5, y: 7 }, Vec2 { x: 5, y: 7 }),
    ];
    for (start, end) in cases {
        let mut b = Clusterbomb::from_positions(start, end, hue(2)).unwrap();
        let mut last = b.position();
        assert_eq!(last, start);
        for _ in 0..CLUSTER_END_T {
            last = b.update(1);
        }
        assert_eq!(last, end);
        assert_eq!(b.t, CLUSTER_END_T);
    }
}

#[test]
fn bomb_new_computes_landing() {
    let b = Clusterbomb::new(Vec2 { x: 0, y: 0 }, 100, 300, 200, hue(1));
    assert_eq!(b.end_pos, Vec2 { x: 300, y: 0 });
    assert_eq!(b.lift, 300);
    let odd = Clusterbomb::new(Vec2 { x: 0, y: 0 }, 100, 300, 201, hue(1));
    assert_eq!(odd.end_pos, Vec2 { x: 300, y: -4 });
}

#[test]
fn contact_kinds() {
    let probe = probe_at_origin(quantize(90_000, 12, 0), PROJECTILE_WIDTH, PROJECTILE_HEIGHT);
    assert_eq!(contact(&probe, Vec2 { x: 10_000, y: 0 }, quantize(95_000, 12, 0)), Contact::Graze);
    assert_eq!(contact(&probe, Vec2 { x: 10_000, y: 0 }, quantize(210_000, 12, 0)), Contact::Hit);
    assert_eq!(contact(&probe, Vec2 { x: 10_000, y: 100_000 }, quantize(210_000, 12, 0)), Contact::Clear);
}

#[test]
fn same_bucket_graze_keeps_hazard() {
    // Player in bucket 3 of 12, hazard in bucket 3 of 12, overlapping.
    let probe = probe_at_origin(quantize(90_000, 12, 0), PROJECTILE_WIDTH, PROJECTILE_HEIGHT);
    let h = projectile(10_000, 0, quantize(95_000, 12, 0));
    let r = sweep(&vec![h], &probe, PROJECTILE_HIT_LOSS);
    assert_eq!(r.kept, vec![h]);
    assert_eq!(r.hits, 0);
    assert_eq!(r.grazes, 1);
    assert_eq!(r.loss, 30);
}

#[test]
fn other_bucket_hit_removes_hazard() {
    // Player in bucket 3 of 12, hazard in bucket 7, overlapping.
    let probe = probe_at_origin(quantize(90_000, 12, 0), PROJECTILE_WIDTH, PROJECTILE_HEIGHT);
    let h = projectile(10_000, 0, quantize(210_000, 12, 0));
    let far = projectile(500_000, 0, quantize(210_000, 12, 0));
    let r = sweep(&vec![far, h, far], &probe, PROJECTILE_HIT_LOSS);
    assert_eq!(r.kept, vec![far, far]);
    assert_eq!(r.hits, 1);
    assert_eq!(r.grazes, 0);
    assert_eq!(r.loss, 600);
}

#[test]
fn sweep_accounts_every_contact() {
    let probe = probe_at_origin(hue(2), PROJECTILE_WIDTH, PROJECTILE_HEIGHT);
    let v = vec![
        projectile(0, 0, hue(2)),
        projectile(0, 0, hue(3)),
        projectile(1_000, 1_000, hue(2)),
        projectile(0, 300_000, hue(3)),
        projectile(-1_000, 0, hue(5)),
    ];
    let r = sweep(&v, &probe, 900);
    assert_eq!(r.hits, 2);
    assert_eq!(r.grazes, 2);
    assert_eq!(r.loss, 2 * 900 + 2 * 30);
    assert_eq!(r.kept.len() as u64 + r.hits, v.len() as u64);
    assert_eq!(r.kept, vec![v[0], v[2], v[3]]);
}

#[test]
fn shift_and_copy() {
    let v = vec![projectile(10, 20, hue(0)), projectile(-5, 0, hue(1))];
    assert_eq!(copy_hazards(&v), v);
    let moved = shift(&v, Vec2 { x: -4_500, y: 0 });
    assert_eq!(moved, vec![projectile(-4_490, 20, hue(0)), projectile(-4_505, 0, hue(1))]);
}

fn far_probe() -> Probe {
    probe_at_origin(stepped_hue(0), PROJECTILE_WIDTH, PROJECTILE_HEIGHT)
}

#[test]
fn lane_moves_without_spawn() {
    let fresh = projectile(614_400, 0, hue(1));
    let r = advance_lane(&vec![projectile(600_000, 0, hue(2))], 4_500, &far_probe(), fresh);
    assert_eq!(r.entries, vec![projectile(595_500, 0, hue(2))]);
    assert_eq!(r.loss, 0);
}

#[test]
fn lane_spawns_after_lead_threshold() {
    let fresh = projectile(614_400, 0, hue(1));
    let r = advance_lane(&vec![projectile(578_000, 0, hue(2))], 4_500, &far_probe(), fresh);
    assert_eq!(r.entries, vec![projectile(573_500, 0, hue(2)), fresh]);
}

#[test]
fn lane_retires_oldest_and_keeps_order() {
    let fresh = projectile(614_400, 0, hue(1));
    let v = vec![projectile(-659_500, 0, hue(2)), projectile(0, 300_000, hue(3))];
    let r = advance_lane(&v, 4_500, &far_probe(), fresh);
    assert_eq!(r.entries, vec![projectile(-4_500, 300_000, hue(3)), fresh]);
}

#[test]
fn empty_lane_skips_spawn() {
    let fresh = projectile(614_400, 0, hue(1));
    let r = advance_lane(&vec![], 4_500, &far_probe(), fresh);
    assert!(r.entries.is_empty());
    assert_eq!(r.loss, 0);
}

#[test]
fn lane_hit_removes_entry() {
    let fresh = projectile(614_400, 0, hue(1));
    let v = vec![projectile(2_000, 0, hue(1)), projectile(100_000, 200_000, hue(3))];
    let r = advance_lane(&v, 4_500, &far_probe(), fresh);
    assert_eq!(r.entries, vec![projectile(95_500, 200_000, hue(3)), fresh]);
    assert_eq!(r.hits, 1);
    assert_eq!(r.loss, PROJECTILE_HIT_LOSS);
}

#[test]
fn hit_newest_still_spawns() {
    // The lane's only projectile has crossed the leading line and is hit.
    let fresh = projectile(614_400, 0, hue(1));
    let r = advance_lane(&vec![projectile(4_000, 0, hue(1))], 4_500, &far_probe(), fresh);
    assert_eq!(r.hits, 1);
    assert_eq!(r.entries, vec![fresh]);
}

#[test]
fn hit_and_retired_oldest_goes_once() {
    let fresh = projectile(614_400, 0, hue(1));
    let probe = Probe { player: build_rect(-664_000, 0, 30_000, 30_000), ..far_probe() };
    let v = vec![projectile(-659_500, 0, hue(1)), projectile(600_000, 0, hue(2))];
    let r = advance_lane(&v, 4_500, &probe, fresh);
    assert_eq!(r.hits, 1);
    assert_eq!(r.entries, vec![projectile(595_500, 0, hue(2))]);
}

#[test]
fn retain_alive_drops_expired() {
    let v = vec![at_rest(0, 0, 5), at_rest(1, 0, 0), at_rest(2, 0, -3), at_rest(3, 0, 1_000)];
    assert_eq!(retain_alive(&v), vec![at_rest(0, 0, 5), at_rest(3, 0, 1_000)]);
}

#[test]
fn fade_lowers_lifetimes() {
    let v = vec![at_rest(0, 0, 40), at_rest(1, 0, 60), at_rest(2, 0, 1_000)];
    assert_eq!(fade(&v, 50), vec![at_rest(1, 0, 10), at_rest(2, 0, 950)]);
}

#[test]
fn push_capped_appends() {
    let mut v = vec![at_rest(0, 0, 5)];
    push_capped(&mut v, at_rest(1, 1, 6));
    assert_eq!(v, vec![at_rest(0, 0, 5), at_rest(1, 1, 6)]);
}

#[test]
fn update_all_keeps_count() {
    let mut rng = StdRng::seed_from_u64(5);
    let v = vec![at_rest(0, 0, 1_000), at_rest(5, 5, 500)];
    let r = update_all(&v, &mut rng);
    assert_eq!(r.len(), 2);
    assert!(r[0].lifetime > 900 && r[0].lifetime <= 1_000);
    assert!(r[1].lifetime > 400 && r[1].lifetime <= 500);
}

#[test]
fn fragment_sweep() {
    let probe = probe_at_origin(hue(6), 21_000, 21_000);
    let mut hit = at_rest(0, 0, 1_000);
    hit.hue = hue(1);
    let mut moving = at_rest(400_000, 0, 1_000);
    moving.velocity = Vec2 { x: 90_000, y: 0 };
    let dying = at_rest(-400_000, 0, 50);
    let mut graze = at_rest(5_000, 0, 1_000);
    graze.hue = hue(6);
    let r = sweep_fragments(&vec![hit, moving, dying, graze], &probe, 1_200);
    assert_eq!(r.hits, 1);
    assert_eq!(r.grazes, 1);
    assert_eq!(r.loss, 1_230);
    assert_eq!(r.kept.len(), 2);
    assert_eq!(r.kept[0].position, Vec2 { x: 467_500, y: 0 });
    assert_eq!(r.kept[0].velocity, Vec2 { x: 67_500, y: 0 });
    assert_eq!(r.kept[0].lifetime, 950);
    assert_eq!(r.kept[1].position, Vec2 { x: 5_000, y: 0 });
}
