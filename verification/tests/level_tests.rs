use platformer_core::game_state::{GameState, LevelState};
use platformer_core::level::{tile_to_world, LevelContext};
use platformer_core::tiles::{
    BouncyPlatform, CollectibleItem, CollectibleProperties, CollectibleType, DamageTile,
    TileProperties, TileType,
};
use platformer_core::timer::TimerMs;

#[test]
fn tile_grid_converts_to_centred_world_positions() {
    let ctx = LevelContext { tile_size: 32, map_width_tiles: 100, map_height_tiles: 50 };
    assert_eq!(tile_to_world(&ctx, 0, 0), (-1_584_000, 784_000));
    assert_eq!(tile_to_world(&ctx, 99, 49), (1_584_000, -784_000));
    assert_eq!(ctx.map_left_milli_exec(), -1_600_000);
    assert_eq!(ctx.map_right_milli_exec(), 1_600_000);
}

#[test]
fn timers_cap_and_report_their_finishing_tick() {
    let mut t = TimerMs::new(800);
    assert!(!t.tick(500));
    assert_eq!(t.elapsed_ms, 500);
    assert!(t.tick(500));
    assert_eq!(t.elapsed_ms, 800);
    assert!(t.finished());
    // A finished timer never reports finishing again.
    assert!(!t.tick(100));
    t.reset();
    assert_eq!(t.elapsed_ms, 0);
}

#[test]
fn game_opens_on_the_menu_with_no_level() {
    let g: GameState = Default::default();
    assert_eq!(g, GameState::MainMenu);
    let l: LevelState = Default::default();
    assert_eq!(l, LevelState::Pre);
}

#[test]
fn tile_factories_set_their_tunings() {
    let d: TileProperties = Default::default();
    assert_eq!(d.tile_type, TileType::Solid);
    assert_eq!((d.fall_delay_ms, d.shake_duration_ms), (1_000, 500));
    assert_eq!(TileProperties::damage(4).damage, 4);
    assert_eq!(TileProperties::pipe_bottom_left().tile_type, TileType::PipeBottomLeft);
    assert_eq!(TileProperties::pipe_bottom_right().tile_type, TileType::PipeBottomRight);
    let b: BouncyPlatform = Default::default();
    assert_eq!(b.bounce_force_milli, 100_000);
    let dt: DamageTile = Default::default();
    assert_eq!(dt.damage_amount, 1);
}

#[test]
fn collectible_factories_set_their_tunings() {
    let heart = CollectibleProperties::heart(2);
    assert_eq!(heart.collectible_type, CollectibleType::Heart);
    assert_eq!(heart.health_restore, 2);
    assert_eq!(heart.points_value, 0);

    let yarn = CollectibleProperties::yarn_ball(10);
    assert_eq!(yarn.collectible_type, CollectibleType::YarnBall);
    assert_eq!(yarn.points_value, 10);

    let cookie = CollectibleProperties::bone_cookie(5_000, 1_500);
    assert_eq!(cookie.collectible_type, CollectibleType::BoneCookie);
    assert_eq!((cookie.boost_duration_ms, cookie.boost_multiplier_milli), (5_000, 1_500));

    let item: CollectibleItem = Default::default();
    assert!(!item.collected);
    assert_eq!(item.properties.points_value, 10);
    assert_eq!(item.bob_amplitude_milli, 5_000);
}
