//! The player controller: health and invincibility, the double-jump
//! budget, input-to-velocity mapping, world-bounds clamping and the
//! death/game-over sequencing.

use vstd::prelude::*;
use crate::game_state::GameState;
use crate::level::LevelContext;
use crate::physics::Velocity;

verus! {

/// Upward velocity set on a jump, in milliunits per second.
pub const JUMP_FORCE_MILLI: i64 = 500_000;

/// Horizontal speed while a direction key is held, in milliunits per second.
pub const HORIZONTAL_FORCE_MILLI: i64 = 200_000;

/// How long combat damage makes the player invincible, in milliseconds.
pub const COMBAT_INVINCIBILITY_MS: u32 = 1_500;

/// How long damage-tile contact makes the player invincible, in milliseconds.
pub const TILE_INVINCIBILITY_MS: u32 = 1_900;

/// How long the game waits after death before announcing game over.
pub const GAME_OVER_DELAY_MS: u32 = 2_000;

/// Distance kept between the player and the map edge, in milliunits.
pub const PLAYER_MARGIN_MILLI: i64 = 16_000;

/// Marker for the player entity.
pub struct PlayerCharacter;

/// Hit points; `current` never exceeds `max` and saturates at zero.
#[derive(Clone, Copy, PartialEq, Eq, Structural, Debug)]
pub struct Health {
    pub current: u32,
    pub max: u32,
}

impl Health {
    /// Well-formedness: current hit points never exceed the maximum.
    pub open spec fn wf(self) -> bool {
        self.current <= self.max
    }
}

impl Default for Health {
    /// The player starts with six of six hit points.
    fn default() -> (r: Self)
        ensures
            r.current == 6 && r.max == 6,
            r.wf(),
    {
        Health { current: 6, max: 6 }
    }
}

/// One application of damage: hit points drop by `amount`, saturating at
/// zero.
pub open spec fn spec_damage(current: int, amount: int) -> int {
    if amount >= current {
        0
    } else {
        current - amount
    }
}

/// Hit points after a whole sequence of damage events, applied in order.
pub open spec fn spec_damage_seq(current: int, amounts: Seq<int>) -> int
    decreases amounts.len(),
{
    if amounts.len() == 0 {
        current
    } else {
        spec_damage_seq(spec_damage(current, amounts[0]), amounts.drop_first())
    }
}

/// Subtracts `amount` hit points, saturating at zero; the maximum is
/// untouched.
pub fn apply_damage(h: &mut Health, amount: u32)
    requires
        old(h).wf(),
    ensures
        final(h).max == old(h).max,
        final(h).current == spec_damage(old(h).current as int, amount as int),
        final(h).wf(),
{
    if amount >= h.current {
        h.current = 0;
    } else {
        h.current = h.current - amount;
    }
}

/// No sequence of damage events can drive hit points below zero or above
/// the maximum.
pub proof fn lemma_health_saturates(start: Health, amounts: Seq<int>)
    requires
        start.wf(),
        forall|i: int| 0 <= i < amounts.len() ==> amounts[i] >= 0,
    ensures
        0 <= spec_damage_seq(start.current as int, amounts) <= start.max,
    decreases amounts.len(),
{
    if amounts.len() > 0 {
        let once = spec_damage(start.current as int, amounts[0]);
        assert(0 <= once <= start.current);
        let next = Health { current: once as u32, max: start.max };
        lemma_health_saturates(next, amounts.drop_first());
    }
}

/// Damage events fold from the front, so one more event at the back is
/// one more application of damage to the folded result.
pub proof fn lemma_damage_seq_push(current: int, amounts: Seq<int>, amount: int)
    ensures
        spec_damage_seq(current, amounts.push(amount)) == spec_damage(
            spec_damage_seq(current, amounts),
            amount,
        ),
    decreases amounts.len(),
{
    if amounts.len() == 0 {
        assert(amounts.push(amount)[0] == amount);
        assert(amounts.push(amount).drop_first() =~= Seq::<int>::empty());
        assert(spec_damage_seq(current, amounts.push(amount)) == spec_damage(current, amount)) by {
            reveal_with_fuel(spec_damage_seq, 2);
        }
    } else {
        assert(amounts.push(amount)[0] == amounts[0]);
        assert(amounts.push(amount).drop_first() =~= amounts.drop_first().push(amount));
        lemma_damage_seq_push(spec_damage(current, amounts[0]), amounts.drop_first(), amount);
    }
}

/// Transient damage immunity; the component is removed when the timer
/// runs out.
#[derive(Clone, Copy, PartialEq, Eq, Structural, Debug)]
pub struct Invincibility {
    pub remaining_ms: u32,
}

impl Invincibility {
    /// Fresh immunity for the given duration.
    pub fn new(duration_ms: u32) -> (r: Self)
        ensures
            r.remaining_ms == duration_ms,
    {
        Invincibility { remaining_ms: duration_ms }
    }
}

/// Ticks the invincibility timer down and removes the component once it
/// expires; it never survives past its duration.
pub fn invincibility_system(inv: &mut Option<Invincibility>, dt_ms: u32)
    ensures
        (*old(inv)) is None ==> (*final(inv)) is None,
        (*old(inv)) matches Some(i) ==> {
            &&& i.remaining_ms > dt_ms ==> *final(inv) == Some(
                Invincibility { remaining_ms: (i.remaining_ms - dt_ms) as u32 },
            )
            &&& i.remaining_ms <= dt_ms ==> (*final(inv)) is None
        },
{
    match inv {
        Some(i) => {
            if i.remaining_ms > dt_ms {
                i.remaining_ms = i.remaining_ms - dt_ms;
            } else {
                *inv = None;
            }
        },
        None => {},
    }
}

/// The double-jump budget: how many jumps are left and the value the
/// budget resets to while grounded.
#[derive(Clone, Copy, PartialEq, Eq, Structural, Debug)]
pub struct DoubleJump {
    pub jumps_remaining: u8,
    pub max_jumps: u8,
}

impl Default for DoubleJump {
    /// The player can jump twice before landing again.
    fn default() -> (r: Self)
        ensures
            r.jumps_remaining == 2 && r.max_jumps == 2,
    {
        DoubleJump { jumps_remaining: 2, max_jumps: 2 }
    }
}

/// The held and just-pressed keys that matter to the controller; the jump
/// flag is the rising edge only, not the held state.
#[derive(Clone, Copy, PartialEq, Eq, Structural, Debug)]
pub struct PlayerInput {
    pub left: bool,
    pub right: bool,
    pub jump_pressed: bool,
}

/// The horizontal velocity the held keys map to: left and right cancel,
/// neither yields zero.
pub open spec fn spec_horizontal_velocity(input: PlayerInput) -> int {
    if input.left && !input.right {
        -HORIZONTAL_FORCE_MILLI as int
    } else if input.right && !input.left {
        HORIZONTAL_FORCE_MILLI as int
    } else {
        0
    }
}

/// Whether a jump executes this tick: the jump key's rising edge while
/// grounded or with budget left.
pub open spec fn spec_jump_fires(input: PlayerInput, grounded: bool, dj: DoubleJump) -> bool {
    input.jump_pressed && (grounded || dj.jumps_remaining > 0)
}

/// Maps held keys to velocity: the horizontal axis is set directly each
/// tick, and a jump (rising edge, grounded or with budget left) sets the
/// vertical axis and spends exactly one jump.
///
/// While grounded the budget is never empty, because the grounded reset
/// runs every tick; a grounded jump with an empty budget is therefore
/// outside the controller's domain.
pub fn player_input_system(
    velocity: &mut Velocity,
    grounded: bool,
    dj: &mut DoubleJump,
    input: PlayerInput,
)
    requires
        grounded ==> old(dj).jumps_remaining > 0,
    ensures
        final(velocity).x == spec_horizontal_velocity(input),
        spec_jump_fires(input, grounded, *old(dj)) ==> {
            &&& final(velocity).y == JUMP_FORCE_MILLI
            &&& final(dj).jumps_remaining == old(dj).jumps_remaining - 1
        },
        !spec_jump_fires(input, grounded, *old(dj)) ==> {
            &&& final(velocity).y == old(velocity).y
            &&& final(dj).jumps_remaining == old(dj).jumps_remaining
        },
        final(dj).max_jumps == old(dj).max_jumps,
{
    let mut horizontal: i64 = 0;
    if input.left {
        horizontal = horizontal - HORIZONTAL_FORCE_MILLI;
    }
    if input.right {
        horizontal = horizontal + HORIZONTAL_FORCE_MILLI;
    }
    velocity.x = horizontal;

    if input.jump_pressed {
        if grounded || dj.jumps_remaining > 0 {
            velocity.y = JUMP_FORCE_MILLI;
            dj.jumps_remaining = dj.jumps_remaining - 1;
        }
    }
}

/// Refills the jump budget to its maximum on any grounded tick, no matter
/// how much of it was spent.
pub fn reset_jumps(dj: &mut DoubleJump, grounded: bool)
    ensures
        grounded ==> final(dj).jumps_remaining == old(dj).max_jumps,
        !grounded ==> *final(dj) == *old(dj),
        final(dj).max_jumps == old(dj).max_jumps,
{
    if grounded {
        dj.jumps_remaining = dj.max_jumps;
    }
}

/// The horizontal clamp applied to the player every tick: position is
/// forced into `[map left + margin, map right - margin]`, velocity is left
/// alone.
pub open spec fn spec_clamped_x(ctx: LevelContext, x: int) -> int {
    let lo = ctx.map_left_milli() + PLAYER_MARGIN_MILLI;
    let hi = ctx.map_right_milli() - PLAYER_MARGIN_MILLI;
    if x < lo {
        lo
    } else if x > hi {
        hi
    } else {
        x
    }
}

/// Clamps the player's horizontal world position to the map, leaving a
/// fixed margin at either edge. A hard position clamp: the caller's
/// velocity is untouched even while pushing against the boundary.
pub fn player_bounds_system(ctx: &LevelContext, x_milli: &mut i64)
    requires
        ctx.wf(),
    ensures
        *final(x_milli) == spec_clamped_x(*ctx, *old(x_milli) as int),
{
    let lo = ctx.map_left_milli_exec() + PLAYER_MARGIN_MILLI;
    let hi = ctx.map_right_milli_exec() - PLAYER_MARGIN_MILLI;
    if *x_milli < lo {
        *x_milli = lo;
    } else if *x_milli > hi {
        *x_milli = hi;
    }
}

/// Clamping is idempotent: on any map at least two margins wide, a second
/// clamp never moves a position the first clamp produced; in particular an
/// already-in-bounds position is unchanged.
pub proof fn lemma_bounds_clamp_idempotent(ctx: LevelContext, x: int)
    requires
        ctx.wf(),
        ctx.map_left_milli() + PLAYER_MARGIN_MILLI <= ctx.map_right_milli() - PLAYER_MARGIN_MILLI,
    ensures
        spec_clamped_x(ctx, spec_clamped_x(ctx, x)) == spec_clamped_x(ctx, x),
        ctx.map_left_milli() + PLAYER_MARGIN_MILLI <= x <= ctx.map_right_milli() - PLAYER_MARGIN_MILLI
            ==> spec_clamped_x(ctx, x) == x,
{
}

/// The one-shot delay between the player's death and the game-over
/// transition.
#[derive(Clone, Copy, PartialEq, Eq, Structural, Debug)]
pub struct GameOverTimer {
    pub remaining_ms: u32,
}

/// Arms the game-over timer when hit points reach exactly zero, unless one
/// is already running; the trigger is idempotent.
pub fn check_player_death(health: &Health, timer: &mut Option<GameOverTimer>)
    ensures
        health.current == 0 && (*old(timer)) is None
            ==> *final(timer) == Some(GameOverTimer { remaining_ms: GAME_OVER_DELAY_MS }),
        health.current != 0 || (*old(timer)) is Some ==> *final(timer) == *old(timer),
{
    if health.current == 0 {
        if timer.is_none() {
            *timer = Some(GameOverTimer { remaining_ms: GAME_OVER_DELAY_MS });
        }
    }
}

/// Ticks the armed game-over timer; when it completes the timer is
/// cleared and the game-over transition is announced, exactly once.
pub fn handle_gameover_timer(timer: &mut Option<GameOverTimer>, dt_ms: u32) -> (transition: Option<
    GameState,
>)
    ensures
        (*old(timer)) is None ==> (*final(timer)) is None && transition is None,
        (*old(timer)) matches Some(t) ==> {
            &&& t.remaining_ms > dt_ms ==> *final(timer) == Some(
                GameOverTimer { remaining_ms: (t.remaining_ms - dt_ms) as u32 },
            ) && transition is None
            &&& t.remaining_ms <= dt_ms ==> (*final(timer)) is None && transition == Some(
                GameState::GameOver,
            )
        },
{
    match timer {
        Some(t) => {
            if t.remaining_ms > dt_ms {
                t.remaining_ms = t.remaining_ms - dt_ms;
                None
            } else {
                *timer = None;
                Some(GameState::GameOver)
            }
        },
        None => None,
    }
}

/// Which of the three character sprites is visible.
#[derive(Clone, Copy, PartialEq, Eq, Structural, Debug)]
pub enum SpriteChoice {
    Left,
    Right,
    Idle,
}

/// Picks the sprite for the held direction keys: a single held direction
/// shows that side's walking sprite; none or both show the idle sprite.
pub fn character_input_handling(left: bool, right: bool) -> (c: SpriteChoice)
    ensures
        left && !right ==> c == SpriteChoice::Left,
        right && !left ==> c == SpriteChoice::Right,
        left == right ==> c == SpriteChoice::Idle,
{
    if left && !right {
        SpriteChoice::Left
    } else if right && !left {
        SpriteChoice::Right
    } else {
        SpriteChoice::Idle
    }
}

} // verus!
