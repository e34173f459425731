use platformer_core::game_state::GameState;
use platformer_core::level::LevelContext;
use platformer_core::physics::Velocity;
use platformer_core::player::{
    apply_damage, character_input_handling, check_player_death, handle_gameover_timer,
    invincibility_system, player_bounds_system, player_input_system, reset_jumps, DoubleJump,
    GameOverTimer, Health, Invincibility, PlayerInput, SpriteChoice, GAME_OVER_DELAY_MS,
    HORIZONTAL_FORCE_MILLI, JUMP_FORCE_MILLI,
};

#[test]
fn damage_saturates_at_zero_and_caps_at_max() {
    let mut h: Health = Default::default();
    assert_eq!((h.current, h.max), (6, 6));
    apply_damage(&mut h, 2);
    assert_eq!(h.current, 4);
    apply_damage(&mut h, 10);
    assert_eq!(h.current, 0);
    apply_damage(&mut h, 1);
    assert_eq!(h.current, 0);
    assert_eq!(h.max, 6);
}

#[test]
fn damage_sequence_never_leaves_bounds() {
    let mut h = Health { current: 3, max: 3 };
    for amount in [0u32, 1, 0, 5, 2, 1_000_000] {
        apply_damage(&mut h, amount);
        assert!(h.current <= h.max);
    }
    assert_eq!(h.current, 0);
}

#[test]
fn held_keys_map_to_horizontal_velocity() {
    let mut v = Velocity { x: 0, y: 0 };
    let mut dj: DoubleJump = Default::default();
    let left = PlayerInput { left: true, right: false, jump_pressed: false };
    player_input_system(&mut v, false, &mut dj, left);
    assert_eq!(v.x, -HORIZONTAL_FORCE_MILLI);
    let both = PlayerInput { left: true, right: true, jump_pressed: false };
    player_input_system(&mut v, false, &mut dj, both);
    assert_eq!(v.x, 0);
    let right = PlayerInput { left: false, right: true, jump_pressed: false };
    player_input_system(&mut v, false, &mut dj, right);
    assert_eq!(v.x, HORIZONTAL_FORCE_MILLI);
    assert_eq!(dj.jumps_remaining, 2);
}

#[test]
fn double_jump_budget_spends_one_per_jump_and_resets_on_landing() {
    let mut v = Velocity { x: 0, y: 0 };
    let mut dj = DoubleJump { jumps_remaining: 2, max_jumps: 2 };
    let jump = PlayerInput { left: false, right: false, jump_pressed: true };

    // A grounded jump consumes one jump through the same branch.
    player_input_system(&mut v, true, &mut dj, jump);
    assert_eq!(v.y, JUMP_FORCE_MILLI);
    assert_eq!(dj.jumps_remaining, 1);

    // One jump while airborne decrements the budget by exactly one.
    player_input_system(&mut v, false, &mut dj, jump);
    assert_eq!(dj.jumps_remaining, 0);

    // With the budget spent and no ground, the jump does not fire.
    v.y = -5;
    player_input_system(&mut v, false, &mut dj, jump);
    assert_eq!(v.y, -5);
    assert_eq!(dj.jumps_remaining, 0);

    // Any grounded tick restores the full budget, whatever was left.
    reset_jumps(&mut dj, true);
    assert_eq!(dj.jumps_remaining, 2);
    dj.jumps_remaining = 1;
    reset_jumps(&mut dj, false);
    assert_eq!(dj.jumps_remaining, 1);
}

#[test]
fn jump_key_held_without_edge_does_nothing() {
    let mut v = Velocity { x: 0, y: -42 };
    let mut dj = DoubleJump { jumps_remaining: 2, max_jumps: 2 };
    let idle = PlayerInput { left: false, right: false, jump_pressed: false };
    player_input_system(&mut v, false, &mut dj, idle);
    assert_eq!(v.y, -42);
    assert_eq!(dj.jumps_remaining, 2);
}

#[test]
fn invincibility_ticks_down_and_expires() {
    let mut inv = Some(Invincibility::new(1_500));
    invincibility_system(&mut inv, 1_000);
    assert_eq!(inv, Some(Invincibility { remaining_ms: 500 }));
    invincibility_system(&mut inv, 500);
    assert_eq!(inv, None);
    invincibility_system(&mut inv, 16);
    assert_eq!(inv, None);
}

#[test]
fn bounds_clamp_pins_the_player_inside_the_map() {
    let ctx = LevelContext { tile_size: 32, map_width_tiles: 100, map_height_tiles: 50 };
    let mut x: i64 = -2_000_000;
    player_bounds_system(&ctx, &mut x);
    assert_eq!(x, -1_584_000);
    let mut x2: i64 = 2_000_000;
    player_bounds_system(&ctx, &mut x2);
    assert_eq!(x2, 1_584_000);
}

#[test]
fn bounds_clamp_is_idempotent_in_bounds() {
    let ctx = LevelContext { tile_size: 32, map_width_tiles: 100, map_height_tiles: 50 };
    let mut x: i64 = 123_456;
    player_bounds_system(&ctx, &mut x);
    assert_eq!(x, 123_456);
    player_bounds_system(&ctx, &mut x);
    assert_eq!(x, 123_456);
}

#[test]
fn death_arms_the_game_over_timer_exactly_once() {
    let dead = Health { current: 0, max: 6 };
    let mut timer: Option<GameOverTimer> = None;
    check_player_death(&dead, &mut timer);
    assert_eq!(timer, Some(GameOverTimer { remaining_ms: GAME_OVER_DELAY_MS }));
    // Ticking part of the delay, then re-checking, must not re-arm it.
    let transition = handle_gameover_timer(&mut timer, 500);
    assert_eq!(transition, None);
    assert_eq!(timer, Some(GameOverTimer { remaining_ms: 1_500 }));
    check_player_death(&dead, &mut timer);
    assert_eq!(timer, Some(GameOverTimer { remaining_ms: 1_500 }));
}

#[test]
fn game_over_fires_when_the_timer_completes() {
    let mut timer = Some(GameOverTimer { remaining_ms: 300 });
    let transition = handle_gameover_timer(&mut timer, 300);
    assert_eq!(transition, Some(GameState::GameOver));
    assert_eq!(timer, None);
    assert_eq!(handle_gameover_timer(&mut timer, 300), None);
}

#[test]
fn living_player_never_arms_the_timer() {
    let alive = Health { current: 1, max: 6 };
    let mut timer: Option<GameOverTimer> = None;
    check_player_death(&alive, &mut timer);
    assert_eq!(timer, None);
}

#[test]
fn sprite_follows_the_held_direction() {
    assert_eq!(character_input_handling(true, false), SpriteChoice::Left);
    assert_eq!(character_input_handling(false, true), SpriteChoice::Right);
    assert_eq!(character_input_handling(false, false), SpriteChoice::Idle);
    assert_eq!(character_input_handling(true, true), SpriteChoice::Idle);
}
