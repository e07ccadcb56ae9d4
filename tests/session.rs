use colorstep::cluster::{Clusterbomb, CLUSTER_END_T};
use colorstep::config::SIGNAL_THRESHOLD;
use colorstep::game::{
    aim_bomb, fresh_projectile, Game, Lane, Status, JUMPROPE_START_Y, JUMPROPE_X, RADIUS_START,
};
use colorstep::goal::{speed_up, GOAL_Y};
use colorstep::input::{KEY_BOOST, KEY_LEFT, KEY_RIGHT, KEY_UP};
use colorstep::geometry::{build_rect, Vec2};
use colorstep::hazard::Hazard;
use colorstep::hue::{stepped_hue, HueStep};
use colorstep::render::Paint;
use rand::rngs::StdRng;
use rand::SeedableRng;

fn fresh_game(seed: u64) -> (Game, StdRng) {
    let mut rng = StdRng::seed_from_u64(seed);
    let g = Game::new(&mut rng);
    (g, rng)
}

fn far_candidates() -> Vec<Hazard> {
    (0..10)
        .map(|i| Hazard { pos: Vec2 { x: 614_400, y: 400_000 + i }, hue: HueStep { index: 0, steps: 7 } })
        .collect()
}

#[test]
fn new_game_state() {
    let (g, _) = fresh_game(1);
    assert_eq!(g.status, Status::Running);
    assert_eq!(g.player, Vec2 { x: 0, y: 0 });
    assert_eq!(g.score, 0);
    assert_eq!(g.signal_lost, 0);
    assert_eq!(g.radius, RADIUS_START);
    assert_eq!(g.current_spawns, 2);
    assert_eq!(g.lanes.len(), 10);
    for (i, lane) in g.lanes.iter().enumerate() {
        assert_eq!(lane.entries.len(), 1);
        let h = lane.entries[0];
        assert!(h.pos.x >= 614_400 && h.pos.x < 614_400 + 15 * 6_000);
        assert_eq!(h.pos.y, 92_160 * i as i64 + 230_400 - 460_800);
        assert_eq!(h.hue.steps, 7);
    }
    assert_eq!(g.jumpropes.len(), 1);
    assert_eq!(g.jumpropes[0].pos, Vec2 { x: JUMPROPE_X, y: JUMPROPE_START_Y });
    assert!(g.goal_t < 360_000);
}

#[test]
fn keys_are_a_set() {
    let (mut g, _) = fresh_game(2);
    g.key_down(KEY_RIGHT);
    g.key_down(KEY_RIGHT);
    g.key_down(KEY_UP);
    assert_eq!(g.keys, vec![KEY_RIGHT, KEY_UP]);
    g.key_up(KEY_RIGHT);
    assert_eq!(g.keys, vec![KEY_UP]);
    g.key_up(KEY_LEFT);
    assert_eq!(g.keys, vec![KEY_UP]);
}

#[test]
fn held_keys_move_and_boost() {
    let (mut g, _) = fresh_game(3);
    g.key_down(KEY_RIGHT);
    g.key_down(KEY_UP);
    g.key_down(KEY_BOOST);
    g.apply_keys();
    assert_eq!(g.player, Vec2 { x: 6_000, y: 6_000 });
    assert_eq!(g.signal_lost, 10);
    assert_eq!(g.radius, RADIUS_START + 100);
    g.key_up(KEY_RIGHT);
    g.key_down(KEY_LEFT);
    g.apply_keys();
    assert_eq!(g.player, Vec2 { x: 0, y: 12_000 });
}

#[test]
fn pointer_sets_selector() {
    let (mut g, _) = fresh_game(4);
    g.pointer_moved(512, 1_024);
    assert_eq!(g.selector, 180_000);
    g.pointer_moved(-3, 1_024);
    assert_eq!(g.selector, 0);
    g.pointer_moved(5_000, 1_024);
    assert_eq!(g.selector, 360_000);
}

#[test]
fn jumprope_arrives_at_threshold() {
    let (mut g, _) = fresh_game(5);
    let h = HueStep { index: 2, steps: 7 };
    g.accum = 199_500;
    g.jumprope_arrival(400, h);
    assert_eq!(g.accum, 199_900);
    assert_eq!(g.jumpropes.len(), 1);
    g.jumprope_arrival(100, h);
    assert_eq!(g.accum, 0);
    assert_eq!(g.jumpropes.len(), 2);
    assert_eq!(g.jumpropes[1], Hazard { pos: Vec2 { x: 0, y: 460_800 }, hue: h });
    g.jumpropes = vec![g.jumpropes[0]; 4];
    g.accum = 300_000;
    g.jumprope_arrival(1, h);
    assert_eq!(g.jumpropes.len(), 4);
    assert_eq!(g.accum, 300_001);
}

#[test]
fn jumprope_graze_grows_radius() {
    let (mut g, _) = fresh_game(6);
    let player_hue = stepped_hue(g.selector);
    g.jumpropes = vec![Hazard { pos: Vec2 { x: 0, y: 1_500 }, hue: player_hue }];
    g.advance_jumpropes();
    assert_eq!(g.jumpropes, vec![Hazard { pos: Vec2 { x: 0, y: 0 }, hue: player_hue }]);
    assert_eq!(g.signal_lost, 30);
    assert_eq!(g.radius, RADIUS_START + 600);
    assert!(!g.hit);
}

#[test]
fn jumprope_hit_removes_band() {
    let (mut g, _) = fresh_game(7);
    let other = HueStep { index: 1, steps: 7 };
    assert_ne!(stepped_hue(g.selector), other);
    g.jumpropes = vec![
        Hazard { pos: Vec2 { x: 0, y: -470_000 }, hue: other },
        Hazard { pos: Vec2 { x: 0, y: 1_500 }, hue: other },
    ];
    g.advance_jumpropes();
    assert!(g.jumpropes.is_empty());
    assert_eq!(g.signal_lost, 900);
    assert!(g.hit);
}

#[test]
fn projectile_hit_flags_player() {
    let (mut g, _) = fresh_game(8);
    let other = stepped_hue(100_000);
    assert_ne!(stepped_hue(g.selector), other);
    g.lanes[0] = Lane { entries: vec![Hazard { pos: Vec2 { x: 0, y: 0 }, hue: other }] };
    let fresh = far_candidates();
    let lane1 = g.lanes[1].entries.clone();
    g.advance_lanes(&fresh);
    assert_eq!(g.lanes[0].entries, vec![fresh[0]]);
    assert_eq!(g.signal_lost, 600);
    assert!(g.hit);
    let moved: Vec<Hazard> = lane1
        .iter()
        .map(|h| Hazard { pos: Vec2 { x: h.pos.x - 4_500, y: h.pos.y }, hue: h.hue })
        .collect();
    assert_eq!(g.lanes[1].entries, moved);
    let frame = g.render();
    assert_eq!(frame.player.paint, Paint::Red);
}

#[test]
fn projectile_graze_keeps_hazard() {
    let (mut g, _) = fresh_game(9);
    let same = stepped_hue(g.selector);
    g.lanes[0] = Lane { entries: vec![Hazard { pos: Vec2 { x: 0, y: 0 }, hue: same }] };
    g.advance_lanes(&far_candidates());
    assert_eq!(g.lanes[0].entries[0], Hazard { pos: Vec2 { x: -4_500, y: 0 }, hue: same });
    assert_eq!(g.lanes[0].entries.len(), 2);
    assert_eq!(g.signal_lost, 30);
    assert!(!g.hit);
}

#[test]
fn inactive_lanes_stand_still() {
    let (mut g, _) = fresh_game(10);
    let before: Vec<Vec<Hazard>> = g.lanes.iter().map(|l| l.entries.clone()).collect();
    g.advance_lanes(&far_candidates());
    for i in 2..10 {
        assert_eq!(g.lanes[i].entries, before[i]);
    }
}

#[test]
fn fresh_projectile_position() {
    let h = fresh_projectile(1, 2, 3, 100, HueStep { index: 4, steps: 7 });
    assert_eq!(h.pos, Vec2 { x: 614_400 + 18_000, y: 460_800 - 460_800 + 100 });
    let k = fresh_projectile(0, 10, 0, 0, HueStep { index: 4, steps: 7 });
    assert_eq!(k.pos, Vec2 { x: 614_400, y: -460_800 });
}

#[test]
fn clusters_arrive_by_score() {
    let (mut g, _) = fresh_game(11);
    let b = Clusterbomb::from_positions(Vec2 { x: 0, y: 0 }, Vec2 { x: 1_000, y: 0 }, HueStep { index: 1, steps: 7 }).unwrap();
    g.cluster_arrival(Some(b), Some(b));
    assert!(g.clusters.is_empty());
    g.score = 4;
    g.cluster_arrival(Some(b), Some(b));
    assert_eq!(g.clusters.len(), 1);
    g.cluster_arrival(Some(b), Some(b));
    assert_eq!(g.clusters.len(), 1);
    g.clusters.clear();
    g.score = 8;
    g.cluster_arrival(Some(b), None);
    assert_eq!(g.clusters.len(), 1);
    g.clusters.clear();
    g.cluster_arrival(Some(b), Some(b));
    assert_eq!(g.clusters.len(), 2);
}

#[test]
fn cluster_bursts_into_ring() {
    let (mut g, _) = fresh_game(12);
    let h = HueStep { index: 5, steps: 7 };
    let mut b = Clusterbomb::from_positions(Vec2 { x: 0, y: 0 }, Vec2 { x: 600_000, y: 0 }, h).unwrap();
    let mut flying = b;
    b.t = CLUSTER_END_T - 1;
    flying.t = 10;
    g.clusters = vec![b, flying];
    g.advance_clusters();
    assert_eq!(g.clusters.len(), 1);
    assert_eq!(g.clusters[0].t, 11);
    assert_eq!(g.fragments.len(), 8);
    for f in &g.fragments {
        assert_eq!(f.position, Vec2 { x: 600_000, y: 0 });
        assert_eq!(f.hue, h);
        assert_eq!(f.lifetime, 1_000);
    }
    assert_eq!(g.fragments[0].velocity, Vec2 { x: 90_000, y: 0 });
    assert_eq!(g.fragments[1].velocity, Vec2 { x: 63_630, y: 63_630 });
    assert_eq!(g.fragments[2].velocity, Vec2 { x: 0, y: 90_000 });
    assert_eq!(g.fragments[4].velocity, Vec2 { x: -90_000, y: 0 });
}

#[test]
fn aim_bomb_targets_near_player() {
    let h = HueStep { index: 5, steps: 7 };
    let b = aim_bomb(Vec2 { x: 1_000, y: 2_000 }, 614_400, 460_800, 50, 60, h).unwrap();
    assert_eq!(b.start_pos, Vec2 { x: 0, y: 0 });
    assert_eq!(b.end_pos, Vec2 { x: 1_050, y: 2_060 });
    let out = aim_bomb(Vec2 { x: 900_000_000, y: 0 }, 0, 0, 0, 0, h);
    assert!(out.is_none());
}

#[test]
fn fragment_hit_costs_signal() {
    let (mut g, _) = fresh_game(13);
    let h = HueStep { index: 1, steps: 7 };
    let b = Clusterbomb::from_positions(Vec2 { x: 0, y: 0 }, Vec2 { x: 0, y: 0 }, h).unwrap();
    let mut burst = b;
    burst.t = CLUSTER_END_T - 1;
    g.clusters = vec![burst];
    g.advance_clusters();
    g.advance_fragments();
    assert_eq!(g.signal_lost, 8 * 1_200);
    assert!(g.hit);
    assert!(g.fragments.is_empty());
}

#[test]
fn ghosts_fade() {
    let (mut g, mut rng) = fresh_game(14);
    g.frames = 4;
    g.spawn_ghosts(&mut rng);
    assert_eq!(g.ghosts.len(), 2);
    for (k, ghost) in g.ghosts.iter().enumerate() {
        let e = g.lanes[k].entries[0];
        assert_eq!(ghost.hue, e.hue);
        assert_eq!(ghost.velocity, Vec2 { x: 0, y: 0 });
        assert_eq!(ghost.lifetime, 1_000);
        assert!((ghost.position.x - e.pos.x).abs() <= e.pos.x.abs() / 200 + 1);
        assert!((ghost.position.y - e.pos.y).abs() <= e.pos.y.abs() / 200 + 1);
    }
    g.advance_ghosts();
    assert!(g.ghosts.iter().all(|p| p.lifetime == 950));
    g.frames = 5;
    g.spawn_ghosts(&mut rng);
    assert_eq!(g.ghosts.len(), 2);
}

#[test]
fn band_particles_spawn_four_each() {
    let (mut g, mut rng) = fresh_game(15);
    g.spawn_band_particles(&mut rng);
    assert_eq!(g.particles.len(), 4);
    assert!(g.particles[0].position.x > 600_000);
    assert!(g.particles[3].position.x < -600_000);
    assert!(g.particles.iter().all(|p| p.hue == g.jumpropes[0].hue && p.lifetime == 1_000));
    assert!(g.particles[0].velocity.x <= -3_000 + 6_000 && g.particles[2].velocity.x >= 3_000 - 6_000);
    g.advance_particles(&mut rng);
    assert_eq!(g.particles.len(), 4);
    assert!(g.particles.iter().all(|p| p.lifetime > 900));
}

#[test]
fn pickup_needs_matching_bucket_and_overlap() {
    let (mut g, _) = fresh_game(16);
    g.goal_t = 100_000;
    g.selector = 200_000;
    g.player = Vec2 { x: 0, y: GOAL_Y };
    g.update_goal(5);
    assert!(!g.carrying);
    g.selector = 100_000;
    g.player = Vec2 { x: 0, y: 0 };
    g.update_goal(5);
    assert!(!g.carrying);
    g.player = Vec2 { x: 0, y: GOAL_Y };
    g.update_goal(5);
    assert!(g.carrying);
    assert_eq!(g.score, 0);
    assert_eq!(g.goal_t, 100_000);
    assert_eq!(g.render().goal.paint, Paint::White);
}

#[test]
fn delivery_scores_and_restores_signal() {
    let (mut g, _) = fresh_game(17);
    g.goal_t = 100_000;
    g.carrying = true;
    g.signal_lost = 2_000;
    g.player = Vec2 { x: 0, y: -460_800 };
    g.update_goal(7);
    assert!(g.carrying);
    assert_eq!(g.score, 0);
    g.player = Vec2 { x: 0, y: -460_801 };
    g.update_goal(7);
    assert!(!g.carrying);
    assert_eq!(g.score, 1);
    assert_eq!(g.signal_lost, 500);
    assert_eq!(g.goal_t, 7);
    assert_eq!(g.laser_speed, 4_725);
    assert_eq!(g.jumprope_speed, 1_575);
    assert_eq!(g.current_spawns, 3);
    g.carrying = true;
    g.update_goal(9);
    assert_eq!(g.score, 2);
    assert_eq!(g.signal_lost, 0);
    assert_eq!(g.current_spawns, 3);
}

#[test]
fn speed_up_caps() {
    assert_eq!(speed_up(4_500), 4_725);
    assert_eq!(speed_up(999_999), 1_000_000);
}

#[test]
fn signal_threshold_ends_session() {
    let (mut g, mut rng) = fresh_game(18);
    g.signal_lost = SIGNAL_THRESHOLD - 10;
    g.key_down(KEY_BOOST);
    let frame = g.tick(&mut rng).unwrap();
    assert_eq!(g.signal_lost, SIGNAL_THRESHOLD);
    assert_eq!(frame.signal_lost, SIGNAL_THRESHOLD);
    assert_eq!(g.status, Status::Lost);
    let frames = g.frames;
    assert!(g.tick(&mut rng).is_none());
    assert_eq!(g.frames, frames);
    assert_eq!(g.signal_lost, SIGNAL_THRESHOLD);
}

#[test]
fn below_threshold_keeps_running() {
    let (mut g, mut rng) = fresh_game(19);
    g.signal_lost = SIGNAL_THRESHOLD - 11;
    g.key_down(KEY_BOOST);
    assert!(g.tick(&mut rng).is_some());
    assert_eq!(g.signal_lost, SIGNAL_THRESHOLD - 1);
    assert_eq!(g.status, Status::Running);
}

#[test]
fn long_session_runs() {
    let (mut g, mut rng) = fresh_game(20);
    let mut ticks = 0u64;
    while ticks < 2_000 {
        match g.tick(&mut rng) {
            Some(frame) => {
                assert_eq!(frame.score, g.score);
                assert_eq!(frame.signal_lost, g.signal_lost);
                assert_eq!(frame.player.rect, build_rect(g.player.x, g.player.y, 30_000, 30_000));
            }
            None => break,
        }
        ticks += 1;
    }
    assert_eq!(g.frames, ticks.min(g.frames));
    assert!(g.lanes[0].entries.len() >= 1);
}

#[test]
fn render_lists_each_entity_class() {
    let (mut g, _) = fresh_game(21);
    let frame = g.render();
    assert_eq!(frame.projectiles.len(), 2);
    assert_eq!(frame.jumpropes.len(), 1);
    assert_eq!(frame.jumpropes[0].rect, build_rect(0, 460_800, 1_536_000, 12_000));
    assert!(frame.clusters.is_empty() && frame.targets.is_empty());
    assert_eq!(frame.player.rect, build_rect(0, 0, 30_000, 30_000));
    assert_eq!(frame.player.paint, Paint::Hue { hue: stepped_hue(0), alpha: 1_000 });
    assert_eq!(frame.goal.rect, build_rect(0, GOAL_Y, 60_000, 60_000));
    assert_eq!(frame.goal.paint, Paint::Hue { hue: stepped_hue(g.goal_t), alpha: 1_000 });
    let b = Clusterbomb::from_positions(Vec2 { x: 0, y: 0 }, Vec2 { x: 600_000, y: 0 }, HueStep { index: 2, steps: 7 }).unwrap();
    g.clusters = vec![b];
    let frame = g.render();
    assert_eq!(frame.clusters[0].rect, build_rect(0, 0, 21_000, 21_000));
    assert_eq!(frame.targets[0].rect, build_rect(600_000, 0, 60_000, 60_000));
    assert_eq!(frame.radius, RADIUS_START);
}
