use platformer_core::level::{LayerData, LevelData, TilePosition};
use platformer_core::physics::Velocity;
use platformer_core::player::{Health, Invincibility};
use platformer_core::tile_systems::{
    bouncy_platforms_system, damage_platforms_system, falling_tiles_system,
    one_way_platform_collision_system, trigger_falling_tiles_system, DamageContact,
};
use platformer_core::tiles::{
    create_collider_from_shape, get_tile_properties_from_path, spawn_level_tiles,
    spawn_special_tile, BouncyPlatform, ColliderShape, CollisionGroups, FallingState, FallingTile,
    TileProperties, TileSetup, TileType, ALL_BUT_ONE_WAY, ALL_GROUPS, PLAYER_GROUP,
};

#[test]
fn tile_paths_map_to_their_tunings() {
    let solid = get_tile_properties_from_path("solid").unwrap();
    assert_eq!(solid.tile_type, TileType::Solid);
    assert_eq!(solid.damage, 0);
    assert!(matches!(solid.custom_collider, Some(ColliderShape::FullTile)));

    let falling = get_tile_properties_from_path("falling_platform").unwrap();
    assert_eq!(falling.tile_type, TileType::Falling);
    assert_eq!(falling.fall_delay_ms, 1_500);
    assert_eq!(falling.shake_duration_ms, 800);
    assert!(matches!(falling.custom_collider, Some(ColliderShape::ThinHorizontal)));

    let spikes = get_tile_properties_from_path("spikes").unwrap();
    assert_eq!(spikes.tile_type, TileType::Damage);
    assert_eq!(spikes.damage, 1);

    assert_eq!(get_tile_properties_from_path("end_level").unwrap().tile_type, TileType::EndLevel);
    assert_eq!(get_tile_properties_from_path("bouncy").unwrap().tile_type, TileType::Bouncy);
    assert_eq!(get_tile_properties_from_path("pipe_left").unwrap().tile_type, TileType::PipeBottomLeft);
    assert!(get_tile_properties_from_path("clouds").is_none());
    assert!(get_tile_properties_from_path("").is_none());
}

#[test]
fn collider_shapes_have_their_documented_boxes() {
    let full = create_collider_from_shape(&ColliderShape::FullTile, 32);
    assert_eq!((full.offset_x_milli, full.offset_y_milli), (0, 0));
    assert_eq!((full.half_x_milli, full.half_y_milli), (16_000, 16_000));

    let thin = create_collider_from_shape(&ColliderShape::ThinHorizontal, 32);
    assert_eq!((thin.offset_x_milli, thin.offset_y_milli), (0, 10_000));
    assert_eq!((thin.half_x_milli, thin.half_y_milli), (16_000, 4_000));

    let quarter = create_collider_from_shape(&ColliderShape::QuarterBottomRight, 32);
    assert_eq!((quarter.offset_x_milli, quarter.offset_y_milli), (8_000, -8_000));
    assert_eq!((quarter.half_x_milli, quarter.half_y_milli), (8_000, 8_000));
}

#[test]
fn one_way_filter_enabled_only_while_descending() {
    let falling = one_way_platform_collision_system(&Velocity { x: 0, y: -50_000 });
    assert_eq!(falling, CollisionGroups { memberships: ALL_GROUPS, filters: ALL_GROUPS });

    let rising = one_way_platform_collision_system(&Velocity { x: 0, y: 50_000 });
    assert_eq!(rising, CollisionGroups { memberships: PLAYER_GROUP, filters: ALL_BUT_ONE_WAY });

    // The boundary counts as "not descending".
    let level = one_way_platform_collision_system(&Velocity { x: 0, y: 0 });
    assert_eq!(level, CollisionGroups { memberships: PLAYER_GROUP, filters: ALL_BUT_ONE_WAY });
}

#[test]
fn falling_tile_runs_its_whole_lifecycle() {
    let props = TileProperties::falling();
    let mut tile: FallingTile = Default::default();
    let mut x: i64 = 0;

    // The trigger lands on the same tick as the collision report.
    assert_eq!(tile.state, FallingState::Stable);
    trigger_falling_tiles_system(&mut tile, &props, true);
    assert_eq!(tile.state, FallingState::Triggered);

    // A second hit while non-stable never re-triggers or resets anything.
    let before = tile;
    trigger_falling_tiles_system(&mut tile, &props, true);
    assert_eq!(tile, before);

    // The shake starts only on the next tick.
    assert!(!falling_tiles_system(&mut tile, &mut x, 0, 100));
    assert_eq!(tile.state, FallingState::Shaking);

    // While shaking the tile oscillates around its original position.
    assert!(!falling_tiles_system(&mut tile, &mut x, 0, 400));
    assert_eq!(tile.state, FallingState::Shaking);
    assert!(x.abs() <= tile.shake_intensity_milli);

    // The shake timer completing switches the tile to falling.
    assert!(!falling_tiles_system(&mut tile, &mut x, 0, 400));
    assert_eq!(tile.state, FallingState::Falling);

    // The fall timer completing destroys the tile.
    assert!(falling_tiles_system(&mut tile, &mut x, 0, 1_500));
    assert_eq!(tile.state, FallingState::Fallen);
}

#[test]
fn falling_tile_dies_below_the_floor() {
    let mut tile = FallingTile { state: FallingState::Falling, ..Default::default() };
    let mut x: i64 = 0;
    let despawn = falling_tiles_system(&mut tile, &mut x, -600_000, 16);
    assert!(despawn);
    assert_eq!(tile.state, FallingState::Fallen);
}

#[test]
fn untriggered_tile_never_moves() {
    let mut tile: FallingTile = Default::default();
    let mut x: i64 = 42;
    assert!(!falling_tiles_system(&mut tile, &mut x, 0, 1_000));
    assert_eq!(tile.state, FallingState::Stable);
    assert_eq!(x, 42);
}

#[test]
fn trigger_ignores_non_falling_tiles() {
    let props = TileProperties::solid();
    let mut tile: FallingTile = Default::default();
    trigger_falling_tiles_system(&mut tile, &props, true);
    assert_eq!(tile.state, FallingState::Stable);
}

#[test]
fn bouncy_platform_recoils_away_from_the_player() {
    let mut platform: BouncyPlatform = Default::default();
    let player = Velocity { x: 0, y: -50_000 };
    bouncy_platforms_system(&mut platform, &player);
    assert_eq!(platform.velocity, Velocity { x: 0, y: 100_000 });
}

#[test]
fn bouncy_platform_matching_velocities_stay_at_rest() {
    let mut platform = BouncyPlatform { velocity: Velocity { x: 7, y: 7 }, ..Default::default() };
    let player = Velocity { x: 7, y: 7 };
    bouncy_platforms_system(&mut platform, &player);
    assert_eq!(platform.velocity, Velocity { x: 0, y: 0 });
}

#[test]
fn damage_tile_hurts_knocks_back_and_grants_immunity() {
    let mut health = Health { current: 6, max: 6 };
    let mut velocity = Velocity { x: 0, y: -100_000 };
    let mut inv: Option<Invincibility> = None;
    let contacts = vec![DamageContact { damage_amount: 1, normal_x_milli: 0, normal_y_milli: 1_000 }];
    damage_platforms_system(&mut health, &mut velocity, &mut inv, &contacts);
    assert_eq!(health.current, 5);
    // The velocity reflects off the upward normal at ninety percent.
    assert_eq!(velocity, Velocity { x: 0, y: 90_000 });
    assert_eq!(inv, Some(Invincibility { remaining_ms: 1_900 }));
}

#[test]
fn invincible_player_ignores_damage_tiles_entirely() {
    let mut health = Health { current: 6, max: 6 };
    let mut velocity = Velocity { x: 0, y: -100_000 };
    let mut inv = Some(Invincibility { remaining_ms: 800 });
    let contacts = vec![DamageContact { damage_amount: 5, normal_x_milli: 0, normal_y_milli: 1_000 }];
    damage_platforms_system(&mut health, &mut velocity, &mut inv, &contacts);
    assert_eq!(health.current, 6);
    assert_eq!(velocity, Velocity { x: 0, y: -100_000 });
    assert_eq!(inv, Some(Invincibility { remaining_ms: 800 }));
}

#[test]
fn two_tile_contacts_in_one_tick_both_land() {
    let mut health = Health { current: 6, max: 6 };
    let mut velocity = Velocity { x: 0, y: 0 };
    let mut inv: Option<Invincibility> = None;
    let hit = DamageContact { damage_amount: 1, normal_x_milli: 0, normal_y_milli: 1_000 };
    let contacts = vec![hit, hit];
    damage_platforms_system(&mut health, &mut velocity, &mut inv, &contacts);
    assert_eq!(health.current, 4);
}

#[test]
fn special_tiles_carry_their_records() {
    let damage = spawn_special_tile(&TileProperties::damage(3), 0, 0);
    assert!(matches!(damage, TileSetup::Damage(d) if d.damage_amount == 3));

    let falling = spawn_special_tile(&TileProperties::falling(), 1_000, 2_000);
    match falling {
        TileSetup::Falling(tile, groups) => {
            assert_eq!(tile.state, FallingState::Stable);
            assert_eq!(tile.shake_timer.duration_ms, 800);
            assert_eq!(tile.fall_timer.duration_ms, 1_500);
            assert_eq!((tile.original_x_milli, tile.original_y_milli), (1_000, 2_000));
            assert_eq!(groups.memberships, 0x0000_0002);
            assert_eq!(groups.filters, 0xffff_fffe);
        },
        other => panic!("expected a falling tile, got {:?}", other),
    }

    let bouncy = spawn_special_tile(&TileProperties::bouncy(), 5, 6);
    assert!(matches!(bouncy, TileSetup::Bouncy(b) if b.original_x_milli == 5 && b.original_y_milli == 6));

    assert_eq!(spawn_special_tile(&TileProperties::solid(), 0, 0), TileSetup::Solid);
}

#[test]
fn level_spawner_builds_world_positions() {
    let level = LevelData {
        tile_size: 32,
        map_width: 100,
        map_height: 50,
        layers: vec![
            LayerData {
                name: 2,
                path: String::from("solid"),
                positions: vec![
                    TilePosition { x: 0, y: 0, id: 7 },
                    TilePosition { x: 99, y: 49, id: 8 },
                ],
            },
            LayerData { name: 3, path: String::from("clouds"), positions: vec![TilePosition { x: 1, y: 1, id: 9 }] },
        ],
    };
    let tiles = spawn_level_tiles(&level);
    assert_eq!(tiles.len(), 2);
    assert_eq!((tiles[0].x_milli, tiles[0].y_milli), (-1_584_000, 784_000));
    assert_eq!((tiles[1].x_milli, tiles[1].y_milli), (1_584_000, -784_000));
    assert_eq!(tiles[0].depth, 2);
    assert_eq!(tiles[0].tile_id, 7);
    assert_eq!(tiles[0].properties.tile_type, TileType::Solid);
    assert!(matches!(tiles[0].setup, TileSetup::Solid));
    let rect = tiles[0].collider.unwrap();
    assert_eq!((rect.half_x_milli, rect.half_y_milli), (16_000, 16_000));
}
