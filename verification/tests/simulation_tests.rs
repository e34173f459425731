use platformer_core::enemies::CombatEvent;
use platformer_core::game_state::GameState;
use platformer_core::level::LevelContext;
use platformer_core::physics::{Mass, Velocity};
use platformer_core::player::{DoubleJump, Health, Invincibility, PlayerInput};
use platformer_core::simulation::{
    player_prepare_movement, player_resolve_collisions, PlayerState,
};
use platformer_core::tile_systems::DamageContact;

fn fresh_state() -> PlayerState {
    PlayerState {
        health: Health { current: 6, max: 6 },
        velocity: Velocity { x: 0, y: 0 },
        double_jump: DoubleJump { jumps_remaining: 2, max_jumps: 2 },
        invincibility: None,
        game_over: None,
        mass: Mass { kilograms: 100 },
        x_milli: 0,
    }
}

fn ctx() -> LevelContext {
    LevelContext { tile_size: 32, map_width_tiles: 100, map_height_tiles: 50 }
}

const NO_KEYS: PlayerInput = PlayerInput { left: false, right: false, jump_pressed: false };

#[test]
fn a_grounded_jump_rises_and_spends_the_budget() {
    let mut state = fresh_state();
    let jump = PlayerInput { left: false, right: false, jump_pressed: true };
    let (translation, groups) = player_prepare_movement(&mut state, jump, true, 16);
    assert_eq!(state.velocity, Velocity { x: 0, y: 500_000 });
    assert_eq!(state.double_jump.jumps_remaining, 1);
    assert_eq!((translation.x, translation.y), (0, 7_200));
    // Rising, so the one-way platforms are filtered out.
    assert_eq!(groups.filters, 0xffff_fffd);
}

#[test]
fn an_airborne_tick_accumulates_gravity_and_opens_the_filter() {
    let mut state = fresh_state();
    state.velocity.y = -50_000;
    let (_, groups) = player_prepare_movement(&mut state, NO_KEYS, false, 16);
    assert_eq!(state.velocity.y, -64_126);
    // Descending, so one-way platforms collide.
    assert_eq!(groups.filters, 0xffff_ffff);
}

#[test]
fn a_damage_tile_tick_hurts_reflects_and_protects() {
    let mut state = fresh_state();
    state.velocity.y = -64_126;
    let contacts = vec![DamageContact { damage_amount: 1, normal_x_milli: 0, normal_y_milli: 1_000 }];
    let quiet: Vec<CombatEvent> = vec![];
    let (transition, despawns) =
        player_resolve_collisions(&mut state, &ctx(), &contacts, &quiet, 16);
    assert_eq!(state.health.current, 5);
    assert_eq!(state.velocity, Velocity { x: 0, y: 57_713 });
    assert_eq!(state.invincibility, Some(Invincibility { remaining_ms: 1_900 }));
    assert_eq!(transition, None);
    assert!(despawns.is_empty());

    // The immunity shields the following tick entirely and ticks down.
    let (transition, _) = player_resolve_collisions(&mut state, &ctx(), &contacts, &quiet, 16);
    assert_eq!(state.health.current, 5);
    assert_eq!(state.invincibility, Some(Invincibility { remaining_ms: 1_884 }));
    assert_eq!(transition, None);
}

#[test]
fn death_reaches_game_over_after_the_full_delay() {
    let mut state = fresh_state();
    state.health.current = 1;
    let no_tiles: Vec<DamageContact> = vec![];
    let fatal = vec![DamageContact { damage_amount: 1, normal_x_milli: 0, normal_y_milli: 1_000 }];
    let quiet: Vec<CombatEvent> = vec![];

    // The tick whose damage drops health to zero arms the timer but does
    // not fire the transition yet.
    let (transition, _) = player_resolve_collisions(&mut state, &ctx(), &fatal, &quiet, 16);
    assert_eq!(state.health.current, 0);
    assert_eq!(transition, None);
    assert!(state.game_over.is_some());

    // Only once the whole delay has elapsed does the transition fire.
    let (transition, _) =
        player_resolve_collisions(&mut state, &ctx(), &no_tiles, &quiet, 2_000);
    assert_eq!(transition, Some(GameState::GameOver));

    // Death is change-detected, not polled: a player who merely stays
    // dead never re-arms the cleared timer.
    assert_eq!(state.game_over, None);
    let (transition, _) = player_resolve_collisions(&mut state, &ctx(), &no_tiles, &quiet, 16);
    assert_eq!(transition, None);
    assert_eq!(state.game_over, None);
}

#[test]
fn the_clamp_runs_every_tick_of_the_pipeline() {
    let mut state = fresh_state();
    state.x_milli = -5_000_000;
    let no_tiles: Vec<DamageContact> = vec![];
    let quiet: Vec<CombatEvent> = vec![];
    player_resolve_collisions(&mut state, &ctx(), &no_tiles, &quiet, 16);
    assert_eq!(state.x_milli, -1_584_000);
}
