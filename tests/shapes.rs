use colorstep::geometry::{build_rect, clamp_world, rect_intersect, scale_coord, Rect, Vec2};
use colorstep::hue::{
    color_convert, quantize, stepped_hue, Color, HueStep, COLOR_STEPS, SELECTOR_FULL,
};

#[test]
fn build_rect_is_centred() {
    let r = build_rect(1_000, -2_000, 30_000, 6_000);
    assert_eq!(
        r,
        Rect { min_x: -14_000, min_y: -5_000, max_x: 16_000, max_y: 1_000 }
    );
}

#[test]
fn corners_follow_emission_order() {
    let r = build_rect(0, 0, 10, 20);
    let c = r.corners();
    assert_eq!(
        c,
        vec![
            Vec2 { x: -5, y: -10 },
            Vec2 { x: 5, y: -10 },
            Vec2 { x: -5, y: 10 },
            Vec2 { x: 5, y: 10 },
        ]
    );
}

#[test]
fn overlapping_rects_intersect() {
    let a = build_rect(0, 0, 100, 100);
    let b = build_rect(60, 60, 100, 100);
    assert!(rect_intersect(&a, &b));
}

#[test]
fn touching_edges_do_not_intersect() {
    let a = build_rect(0, 0, 100, 100);
    let b = build_rect(100, 0, 100, 100);
    assert!(!rect_intersect(&a, &b));
    let c = build_rect(0, 100, 100, 100);
    assert!(!rect_intersect(&a, &c));
}

#[test]
fn overlap_is_symmetric_on_samples() {
    let rects = vec![
        build_rect(0, 0, 30_000, 30_000),
        build_rect(20_000, 0, 60_000, 6_000),
        build_rect(0, 460_800, 1_536_000, 12_000),
        build_rect(-50_000, 10_000, 21_000, 21_000),
        build_rect(45_000, 0, 60_000, 6_000),
        build_rect(0, 360_000, 60_000, 60_000),
    ];
    let mut seen_true = false;
    let mut seen_false = false;
    for a in &rects {
        for b in &rects {
            assert_eq!(rect_intersect(a, b), rect_intersect(b, a));
            if rect_intersect(a, b) {
                seen_true = true;
            } else {
                seen_false = true;
            }
        }
    }
    assert!(seen_true && seen_false);
}

#[test]
fn clamp_keeps_world_box() {
    assert_eq!(clamp_world(2_000_000_000), 1_000_000_000);
    assert_eq!(clamp_world(-2_000_000_000), -1_000_000_000);
    assert_eq!(clamp_world(17), 17);
}

#[test]
fn scale_rounds_toward_zero() {
    assert_eq!(scale_coord(1_000, 750, 1_000), 750);
    assert_eq!(scale_coord(-7, 1, 2), -3);
    assert_eq!(scale_coord(7, -1, 2), -3);
    assert_eq!(scale_coord(7, 1, 2), 3);
}

#[test]
fn vector_ops_clamp() {
    let a = Vec2::new(999_999_999, 5);
    let b = Vec2::new(10, -10);
    assert_eq!(a.add(b), Vec2 { x: 1_000_000_000, y: -5 });
    assert_eq!(a.sub(b), Vec2 { x: 999_999_989, y: 15 });
    assert_eq!(Vec2::new(90_000, -90_000).scale(750, 1_000), Vec2 { x: 67_500, y: -67_500 });
}

#[test]
fn quantize_twelve_buckets() {
    assert_eq!(quantize(0, 12, 0), HueStep { index: 0, steps: 12 });
    assert_eq!(quantize(90_000, 12, 0), HueStep { index: 3, steps: 12 });
    assert_eq!(quantize(95_000, 12, 0), HueStep { index: 3, steps: 12 });
    assert_eq!(quantize(210_000, 12, 0), HueStep { index: 7, steps: 12 });
    assert_eq!(quantize(359_999, 12, 0), HueStep { index: 11, steps: 12 });
}

#[test]
fn quantize_full_turn_wraps_to_zero() {
    assert_eq!(quantize(SELECTOR_FULL, 12, 0), HueStep { index: 0, steps: 12 });
}

#[test]
fn quantize_negative_angle_wraps() {
    // 10 degrees less a 20 degree offset is 350 degrees.
    assert_eq!(quantize(10_000, 36, 20_000), HueStep { index: 35, steps: 36 });
    // An offset of a whole turn or more counts modulo the turn.
    assert_eq!(quantize(10_000, 36, 380_000), HueStep { index: 35, steps: 36 });
}

#[test]
fn stepped_hue_uses_game_buckets() {
    assert_eq!(stepped_hue(0), HueStep { index: 6, steps: COLOR_STEPS });
    assert_eq!(stepped_hue(20_000), HueStep { index: 0, steps: COLOR_STEPS });
    assert_eq!(stepped_hue(100_000), HueStep { index: 1, steps: COLOR_STEPS });
    assert_eq!(stepped_hue(SELECTOR_FULL), HueStep { index: 6, steps: COLOR_STEPS });
}

#[test]
fn quantize_takes_exactly_steps_values() {
    for steps in [1u32, 7, 12, 360] {
        let mut seen = std::collections::BTreeSet::new();
        let mut t = 0u32;
        while t <= SELECTOR_FULL {
            let q = quantize(t, steps, 0);
            assert_eq!(q.steps, steps);
            assert!(q.index < steps);
            seen.insert(q.index);
            t += 250;
        }
        assert_eq!(seen.len() as u32, steps);
    }
}

#[test]
fn quantize_is_idempotent_on_lower_edges() {
    for steps in 1..=360u32 {
        let mut t = 0u32;
        while t <= SELECTOR_FULL {
            let q = quantize(t, steps, 0);
            assert_eq!(quantize(q.lower_edge(), steps, 0), q);
            t += 4_999;
        }
    }
}

#[test]
fn lower_edge_values() {
    assert_eq!(HueStep { index: 3, steps: 12 }.lower_edge(), 90_000);
    // 360 / 7 degrees, rounded up to the millidegree.
    assert_eq!(HueStep { index: 1, steps: 7 }.lower_edge(), 51_429);
    assert_eq!(HueStep { index: 0, steps: 7 }.lower_edge(), 0);
}

#[test]
fn matching_compares_buckets() {
    let a = HueStep { index: 3, steps: 12 };
    assert!(a.matches(&HueStep { index: 3, steps: 12 }));
    assert!(!a.matches(&HueStep { index: 7, steps: 12 }));
    assert!(!a.matches(&HueStep { index: 3, steps: 7 }));
}

#[test]
fn color_convert_is_opaque() {
    assert_eq!(color_convert((10, 20, 30)), Color { r: 10, g: 20, b: 30, a: 255 });
    assert_eq!(color_convert((255, 0, 0)), Color { r: 255, g: 0, b: 0, a: 255 });
}
