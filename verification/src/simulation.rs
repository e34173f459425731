//! The per-tick pipeline. Every simulation tick runs the same fixed
//! phase order: jump-budget reset and input mapping, gravity, kinematic
//! integration and the one-way filter produce this tick's movement
//! intent; the engine resolves the move outside; then the collision
//! snapshot is routed to the terrain and damage handlers, timers tick,
//! and the death sequence advances. The order is written here once,
//! instead of living in scheduler annotations.

use vstd::prelude::*;
use crate::enemies::{spec_combat_amounts, spec_combat_despawns, CombatEvent};
use crate::game_state::GameState;
use crate::level::LevelContext;
use crate::physics::{
    spec_displacement, spec_gravity_delta, Mass, Translation, Velocity, MASS_LIMIT,
};
use crate::player::{
    spec_clamped_x, spec_damage_seq, spec_horizontal_velocity, spec_jump_fires, DoubleJump,
    GameOverTimer, Health, Invincibility, PlayerInput, COMBAT_INVINCIBILITY_MS,
    GAME_OVER_DELAY_MS, TILE_INVINCIBILITY_MS,
};
use crate::tile_systems::{spec_velocity_after_contacts, DamageContact, POS_LIMIT};
use crate::tiles::{CollisionGroups, ALL_BUT_ONE_WAY, ALL_GROUPS, PLAYER_GROUP};

verus! {

/// Everything of the player the simulation owns across ticks.
pub struct PlayerState {
    pub health: Health,
    pub velocity: Velocity,
    pub double_jump: DoubleJump,
    pub invincibility: Option<Invincibility>,
    pub game_over: Option<GameOverTimer>,
    pub mass: Mass,
    pub x_milli: i64,
}

impl PlayerState {
    /// Well-formedness across ticks: sound health, a velocity within the
    /// magnitude bound, at least one jump in a full budget, a bounded
    /// mass and an on-map position.
    pub open spec fn wf(self) -> bool {
        &&& self.health.wf()
        &&& self.velocity.in_norm_bounds()
        &&& self.double_jump.max_jumps >= 1
        &&& self.double_jump.jumps_remaining <= self.double_jump.max_jumps
        &&& self.mass.kilograms <= MASS_LIMIT
        &&& -POS_LIMIT <= self.x_milli <= POS_LIMIT
    }
}

/// The first half of a tick, before the engine moves anything: the
/// grounded reset refills the jump budget, held keys and the jump edge
/// set the velocity, gravity accumulates on the result while airborne,
/// and the kinematic integrator turns it into this tick's translation
/// request together with the one-way collision filter.
pub fn player_prepare_movement(
    state: &mut PlayerState,
    input: PlayerInput,
    grounded: bool,
    dt_ms: u32,
) -> (intent: (Translation, CollisionGroups))
    requires
        old(state).wf(),
        old(state).velocity.in_bounds(),
        -(crate::physics::VEL_LIMIT - 10_000_000_000) <= old(state).velocity.y
            <= crate::physics::VEL_LIMIT - 10_000_000_000,
    ensures
        final(state).wf(),
        final(state).health == old(state).health,
        final(state).invincibility == old(state).invincibility,
        final(state).game_over == old(state).game_over,
        final(state).x_milli == old(state).x_milli,
        final(state).mass == old(state).mass,
        ({
            let dj0 = if grounded {
                DoubleJump {
                    jumps_remaining: old(state).double_jump.max_jumps,
                    ..old(state).double_jump
                }
            } else {
                old(state).double_jump
            };
            let fires = spec_jump_fires(input, grounded, dj0);
            let vy1 = if fires {
                crate::player::JUMP_FORCE_MILLI as int
            } else {
                old(state).velocity.y as int
            };
            let vy2 = if !grounded {
                vy1 - spec_gravity_delta(old(state).mass.kilograms as int, dt_ms as int)
            } else {
                vy1
            };
            &&& final(state).double_jump == (if fires {
                DoubleJump { jumps_remaining: (dj0.jumps_remaining - 1) as u8, ..dj0 }
            } else {
                dj0
            })
            &&& final(state).velocity.x == spec_horizontal_velocity(input)
            &&& final(state).velocity.y == vy2
            &&& intent.0 == spec_displacement(final(state).velocity, dt_ms as int)
            &&& (final(state).velocity.y < 0 ==> intent.1 == CollisionGroups {
                memberships: ALL_GROUPS,
                filters: ALL_GROUPS,
            })
            &&& (final(state).velocity.y >= 0 ==> intent.1 == CollisionGroups {
                memberships: PLAYER_GROUP,
                filters: ALL_BUT_ONE_WAY,
            })
        }),
{
    crate::player::reset_jumps(&mut state.double_jump, grounded);
    crate::player::player_input_system(
        &mut state.velocity,
        grounded,
        &mut state.double_jump,
        input,
    );
    proof {
        assert(state.velocity.in_bounds());
    }
    proof {
        crate::physics::lemma_gravity_delta_bounds(state.mass.kilograms as int, dt_ms as int);
    }
    crate::physics::gravity_system(&mut state.velocity, &state.mass, grounded, dt_ms as u64);
    proof {
        assert(state.velocity.in_bounds());
    }
    let translation = crate::physics::kinematic_character_movement_system(
        &state.velocity,
        dt_ms as u64,
    );
    let groups = crate::tile_systems::one_way_platform_collision_system(&state.velocity);
    proof {
        assert(state.velocity.x * state.velocity.x + state.velocity.y * state.velocity.y
            <= crate::physics::VEL_LIMIT * crate::physics::VEL_LIMIT) by (nonlinear_arith)
            requires
                -200_000 <= state.velocity.x <= 200_000,
                -(crate::physics::VEL_LIMIT - 190_000_000) <= state.velocity.y
                    <= crate::physics::VEL_LIMIT - 10_000_000_000,
                crate::physics::VEL_LIMIT == 1_000_000_000_000,
        ;
    }
    (translation, groups)
}

/// The second half of a tick, after the engine's move: both damage
/// handlers read the same snapshot of the collision events gathered at
/// tick start, terrain damage before combat damage; a player invincible
/// at tick entry is immune to both. The invincibility timer ticks on
/// the entry state (a fresh grant takes effect next tick), the position
/// clamp pins the player to the map, and the armed game-over timer
/// advances, firing the transition when it completes. Death is detected
/// on the change of health, not polled: only a tick whose damage brings
/// health to zero arms the timer, so a player who merely stays dead
/// never re-arms it.
pub fn player_resolve_collisions(
    state: &mut PlayerState,
    ctx: &LevelContext,
    tile_contacts: &Vec<DamageContact>,
    combat_events: &Vec<CombatEvent>,
    dt_ms: u32,
) -> (outcome: (Option<GameState>, Vec<u64>))
    requires
        old(state).wf(),
        ctx.wf(),
        forall|i: int| 0 <= i < tile_contacts@.len() ==> tile_contacts@[i].wf(),
    ensures
        final(state).wf(),
        final(state).double_jump == old(state).double_jump,
        final(state).mass == old(state).mass,
        final(state).health.max == old(state).health.max,
        ({
            let immune = (old(state).invincibility) is Some;
            let tile_amounts = tile_contacts@.map_values(|c: DamageContact| c.damage_amount as int);
            let combat_amounts = spec_combat_amounts(combat_events@);
            &&& (immune ==> final(state).health == old(state).health && final(state).velocity
                == old(state).velocity && outcome.1@ == Seq::<u64>::empty())
            &&& (!immune ==> {
                &&& final(state).health.current == spec_damage_seq(
                    spec_damage_seq(old(state).health.current as int, tile_amounts),
                    combat_amounts,
                )
                &&& ({
                    let (rx, ry) = spec_velocity_after_contacts(
                        old(state).velocity.x as int,
                        old(state).velocity.y as int,
                        tile_contacts@,
                    );
                    final(state).velocity.x == rx && final(state).velocity.y == ry
                })
                &&& outcome.1@ == spec_combat_despawns(combat_events@)
            })
            &&& (!immune && combat_amounts.len() > 0 ==> final(state).invincibility == Some(
                Invincibility { remaining_ms: COMBAT_INVINCIBILITY_MS },
            ))
            &&& (!immune && combat_amounts.len() == 0 && tile_contacts@.len() > 0
                ==> final(state).invincibility == Some(
                Invincibility { remaining_ms: TILE_INVINCIBILITY_MS },
            ))
            &&& (!immune && combat_amounts.len() == 0 && tile_contacts@.len() == 0
                ==> (final(state).invincibility) is None)
            &&& (immune ==> ((*old(state)).invincibility matches Some(i) ==> {
                &&& i.remaining_ms > dt_ms ==> final(state).invincibility == Some(
                    Invincibility { remaining_ms: (i.remaining_ms - dt_ms) as u32 },
                )
                &&& i.remaining_ms <= dt_ms ==> (final(state).invincibility) is None
            }))
        }),
        final(state).x_milli == spec_clamped_x(
            *ctx,
            old(state).x_milli as int,
        ),
        ({
            let died = final(state).health.current != old(state).health.current
                && final(state).health.current == 0;
            &&& ((*old(state)).game_over is None ==> {
                &&& outcome.0 is None
                &&& final(state).game_over == (if died {
                    Some(GameOverTimer { remaining_ms: GAME_OVER_DELAY_MS })
                } else {
                    None::<GameOverTimer>
                })
            })
            &&& ((*old(state)).game_over matches Some(t) ==> {
                &&& t.remaining_ms > dt_ms ==> final(state).game_over == Some(
                    GameOverTimer { remaining_ms: (t.remaining_ms - dt_ms) as u32 },
                ) && outcome.0 is None
                &&& t.remaining_ms <= dt_ms ==> outcome.0 == Some(GameState::GameOver)
                    && final(state).game_over == (if died {
                    Some(GameOverTimer { remaining_ms: GAME_OVER_DELAY_MS })
                } else {
                    None::<GameOverTimer>
                })
            })
        }),
{
    let entry_invincibility = state.invincibility;
    let entry_hit_points = state.health.current;
    let immune = state.invincibility.is_some();

    // Terrain damage first, then combat damage, on the same snapshot.
    crate::tile_systems::damage_platforms_system(
        &mut state.health,
        &mut state.velocity,
        &mut state.invincibility,
        tile_contacts,
    );
    let ghost inv_after_tiles = state.invincibility;
    let (combat_grant, despawns) = crate::enemies::enemy_damage_system(
        &mut state.health,
        immune,
        combat_events,
    );

    // A grant from either handler lands as the new immunity; an
    // untouched immunity ticks down on the entry state.
    match combat_grant {
        Some(grant) => {
            state.invincibility = Some(grant);
        },
        None => {
            if state.invincibility == entry_invincibility {
                crate::player::invincibility_system(&mut state.invincibility, dt_ms);
            }
        },
    }

    // The hard position clamp, leaving velocity untouched.
    proof {
        assert(0 <= (ctx.map_width_tiles as int) * (ctx.tile_size as int) * 500
            <= 600_000_000_000int) by (nonlinear_arith)
            requires
                0 <= ctx.map_width_tiles <= 1_000_000,
                0 <= ctx.tile_size <= 1_024,
        ;
    }
    crate::player::player_bounds_system(ctx, &mut state.x_milli);

    // The armed timer advances before death can arm a fresh one, so the
    // game-over transition always trails death by the full delay. The
    // death check runs only when this tick changed the player's health,
    // mirroring change-notification rather than polling.
    let transition = crate::player::handle_gameover_timer(&mut state.game_over, dt_ms);
    if state.health.current != entry_hit_points {
        crate::player::check_player_death(&state.health, &mut state.game_over);
    }
    (transition, despawns)
}

} // verus!
