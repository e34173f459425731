use platformer_core::ballistics::{
    handle_projectile_despawn, solve_ballistic_velocity, spawn_projectile_on_click, Projectile,
    WOOL_DESPAWN_MS,
};
use platformer_core::events::{collisions_involving, contains_entity, CollisionPair};
use platformer_core::math::{isqrt_u128, scale_div, sin_milli};
use platformer_core::physics::Velocity;
use platformer_core::timer::TimerMs;

#[test]
fn far_target_has_no_solution() {
    // Ten thousand units sideways is far beyond the reach of speed 100
    // under this gravity, so the solver must decline.
    let result = solve_ballistic_velocity(0, 0, 10_000, 0, 100, 314, false);
    assert!(result.is_none());
}

#[test]
fn level_shot_solves_to_an_almost_flat_low_arc() {
    let v = solve_ballistic_velocity(0, 0, 100, 0, 1_000, 314, false).unwrap();
    assert_eq!(v, Velocity { x: 999_876, y: 15_730 });
}

#[test]
fn high_arc_swaps_the_velocity_components() {
    let low = solve_ballistic_velocity(0, 0, 100, 0, 1_000, 314, false).unwrap();
    let high = solve_ballistic_velocity(0, 0, 100, 0, 1_000, 314, true).unwrap();
    assert_eq!(high, Velocity { x: 15_701, y: 999_876 });
    // The high arc climbs at least as steeply as the low arc.
    assert!(high.y >= low.y);
}

#[test]
fn tiny_scales_keep_the_launch_speed() {
    // A one-unit shot at speed one: both components near 707 thousandths,
    // magnitude within a thousandth of the speed rather than off by a
    // whole unit of the rooted hypotenuse.
    let v = solve_ballistic_velocity(0, 0, 1, 0, 1, 1, false).unwrap();
    assert_eq!(v, Velocity { x: 707, y: 707 });
}

#[test]
fn vertical_shots_go_straight_at_full_speed() {
    let up = solve_ballistic_velocity(0, 0, 0, 50, 1_000, 314, false).unwrap();
    assert_eq!(up, Velocity { x: 0, y: 1_000_000 });
    let down = solve_ballistic_velocity(5, 9, 5, -50, 1_000, 314, false).unwrap();
    assert_eq!(down, Velocity { x: 0, y: -1_000_000 });
}

#[test]
fn leftward_target_flips_the_horizontal_sign() {
    let v = solve_ballistic_velocity(0, 0, -200, 100, 1_000, 314, false).unwrap();
    assert_eq!(v, Velocity { x: -879_688, y: 475_550 });
}

#[test]
fn solved_arcs_retrace_to_the_target() {
    // Integrate x(t) = vx t, y(t) = vy t - g t^2 / 2 at the moment the
    // horizontal displacement is reached; the residual is only the
    // milliunit rounding of the returned velocity.
    let cases = [
        ((0i64, 0i64, 100i64, 0i64), 0.05f64),
        ((0, 0, -200, 100), 0.05),
        ((50, -20, 400, 150), 0.5),
    ];
    for ((sx, sy, tx, ty), tolerance) in cases {
        let v = solve_ballistic_velocity(sx, sy, tx, ty, 1_000, 314, false).unwrap();
        let vx = v.x as f64 / 1000.0;
        let vy = v.y as f64 / 1000.0;
        let dx = (tx - sx) as f64;
        let dy = (ty - sy) as f64;
        let t = dx / vx;
        assert!(t > 0.0);
        let reached = vy * t - 0.5 * 314.0 * t * t;
        assert!((reached - dy).abs() < tolerance, "residual {}", reached - dy);
    }
}

#[test]
fn click_spawns_a_standoff_projectile() {
    // Player at the origin, crosshair 500 units right and 200 up.
    let (sx, sy, p) = spawn_projectile_on_click(0, 0, 500_000, 200_000).unwrap();
    assert_eq!(p.velocity, Velocity { x: 895_153, y: 445_757 });
    assert_eq!((sx, sy), (28_644, 14_264));
    assert!(!p.has_collided);
    assert_eq!(p.despawn_timer, TimerMs { elapsed_ms: 0, duration_ms: WOOL_DESPAWN_MS });
}

#[test]
fn click_on_an_unreachable_crosshair_spawns_nothing() {
    assert!(spawn_projectile_on_click(0, 0, 10_000_000, 0).is_none());
}

#[test]
fn projectile_latches_on_first_hit_and_despawns_later() {
    let mut p = Projectile {
        velocity: Velocity { x: 1, y: 2 },
        despawn_timer: TimerMs::new(WOOL_DESPAWN_MS),
        has_collided: false,
    };
    let quiet: Vec<CollisionPair> = vec![];
    assert!(!handle_projectile_despawn(&mut p, 9, &quiet, 500));
    assert!(!p.has_collided);
    assert_eq!(p.despawn_timer.elapsed_ms, 0);

    let hit = vec![CollisionPair { a: 9, b: 40 }];
    assert!(!handle_projectile_despawn(&mut p, 9, &hit, 500));
    assert!(p.has_collided);
    assert_eq!(p.despawn_timer.elapsed_ms, 500);

    // The latch is one-way: a quiet tick keeps it collided and ticking.
    assert!(!handle_projectile_despawn(&mut p, 9, &quiet, 1_000));
    assert!(p.has_collided);
    assert!(handle_projectile_despawn(&mut p, 9, &quiet, 1_000));
}

#[test]
fn collision_snapshot_reports_partners_in_order() {
    let events = vec![
        CollisionPair { a: 1, b: 2 },
        CollisionPair { a: 3, b: 1 },
        CollisionPair { a: 4, b: 5 },
    ];
    assert_eq!(collisions_involving(&events, 1), vec![2, 3]);
    assert_eq!(collisions_involving(&events, 5), vec![4]);
    assert!(collisions_involving(&events, 9).is_empty());

    let partners = collisions_involving(&events, 1);
    assert!(contains_entity(&partners, 3));
    assert!(!contains_entity(&partners, 4));
}

#[test]
fn integer_square_root_floors() {
    assert_eq!(isqrt_u128(0), 0);
    assert_eq!(isqrt_u128(1), 1);
    assert_eq!(isqrt_u128(10), 3);
    assert_eq!(isqrt_u128(999_014_040_000), 999_506);
}

#[test]
fn sine_wave_peaks_at_the_quarter_turn() {
    assert_eq!(sin_milli(0), 0);
    assert_eq!(sin_milli(1_571), 1_000);
    assert_eq!(sin_milli(3_716), -542);
    assert_eq!(sin_milli(3_142 + 1_571), -1_000);
}

#[test]
fn scale_div_truncates_toward_zero() {
    assert_eq!(scale_div(7, 2), 3);
    assert_eq!(scale_div(-7, 2), -3);
    assert_eq!(scale_div(0, 5), 0);
}
