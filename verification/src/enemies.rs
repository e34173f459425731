//! The enemy AI controller: archetypes and the behaviour records they
//! spawn with, patrol/chase movement, ranged-attack and teleport timers,
//! and the routing of contact and projectile damage to the player.

use vstd::prelude::*;
use vstd::string::StringSliceAdditionalSpecFns;
use crate::physics::Velocity;
use crate::player::{spec_damage_seq, Health, Invincibility, COMBAT_INVINCIBILITY_MS};
use crate::tiles::str_eq;
use crate::tile_systems::POS_LIMIT;
use crate::timer::TimerMs;

verus! {

/// Marker for an enemy entity.
pub struct EnemyCharacter;

/// The enemy kinds a level can name.
#[derive(Clone, Copy, PartialEq, Eq, Structural, Debug, Hash)]
pub enum EnemyType {
    Catcifer,
    Dummy,
    Fufi,
    KiddCat,
    Maximiliano,
    Willie,
}

/// The enemy kind a level's name denotes, if any; the spelling is the
/// variant name itself.
pub open spec fn spec_enemy_type_for_name(n: Seq<u8>) -> Option<EnemyType> {
    if n =~= "Catcifer".spec_bytes() {
        Some(EnemyType::Catcifer)
    } else if n =~= "Dummy".spec_bytes() {
        Some(EnemyType::Dummy)
    } else if n =~= "Fufi".spec_bytes() {
        Some(EnemyType::Fufi)
    } else if n =~= "KiddCat".spec_bytes() {
        Some(EnemyType::KiddCat)
    } else if n =~= "Maximiliano".spec_bytes() {
        Some(EnemyType::Maximiliano)
    } else if n =~= "Willie".spec_bytes() {
        Some(EnemyType::Willie)
    } else {
        None
    }
}

impl EnemyType {
    /// Parses an enemy kind from its name in the level data.
    pub fn from_name(name: &str) -> (r: Option<EnemyType>)
        ensures
            r == spec_enemy_type_for_name(name.spec_bytes()),
    {
        if str_eq(name, "Catcifer") {
            Some(EnemyType::Catcifer)
        } else if str_eq(name, "Dummy") {
            Some(EnemyType::Dummy)
        } else if str_eq(name, "Fufi") {
            Some(EnemyType::Fufi)
        } else if str_eq(name, "KiddCat") {
            Some(EnemyType::KiddCat)
        } else if str_eq(name, "Maximiliano") {
            Some(EnemyType::Maximiliano)
        } else if str_eq(name, "Willie") {
            Some(EnemyType::Willie)
        } else {
            None
        }
    }

    /// The kind's name, as spelled in the level data.
    pub fn name(&self) -> (r: &'static str)
        ensures
            *self == EnemyType::Catcifer ==> r@ == "Catcifer"@,
            *self == EnemyType::Dummy ==> r@ == "Dummy"@,
            *self == EnemyType::Fufi ==> r@ == "Fufi"@,
            *self == EnemyType::KiddCat ==> r@ == "KiddCat"@,
            *self == EnemyType::Maximiliano ==> r@ == "Maximiliano"@,
            *self == EnemyType::Willie ==> r@ == "Willie"@,
    {
        match self {
            EnemyType::Catcifer => "Catcifer",
            EnemyType::Dummy => "Dummy",
            EnemyType::Fufi => "Fufi",
            EnemyType::KiddCat => "KiddCat",
            EnemyType::Maximiliano => "Maximiliano",
            EnemyType::Willie => "Willie",
        }
    }
}

/// The state of an enemy's brain this tick.
#[derive(Clone, Copy, PartialEq, Eq, Structural, Debug)]
pub enum EnemyState {
    Idle,
    Patrolling,
    Chasing,
    Attacking,
    Fleeing,
}

/// Walks a constant horizontal speed in a direction of plus or minus
/// one; the owner flips the direction at patrol boundaries.
#[derive(Clone, Copy, PartialEq, Eq, Structural, Debug)]
pub struct Patrol {
    pub speed_milli: i64,
    pub direction: i32,
}

/// Runs toward the player at a fixed speed while the player is within
/// range.
#[derive(Clone, Copy, PartialEq, Eq, Structural, Debug)]
pub struct Chase {
    pub speed_milli: i64,
    pub range_milli: i64,
}

/// How a ranged attacker shoots.
#[derive(Clone, Copy, PartialEq, Eq, Structural, Debug)]
pub enum RangedAttackType {
    SingleShot,
    FanShot,
}

/// Fires projectiles on a repeating timer while the player is within
/// range.
#[derive(Clone, Copy, PartialEq, Eq, Structural, Debug)]
pub struct RangedAttack {
    pub attack_type: RangedAttackType,
    pub range_milli: i64,
    pub timer: TimerMs,
}

/// Escapes to higher ground on a repeating timer while fleeing.
#[derive(Clone, Copy, PartialEq, Eq, Structural, Debug)]
pub struct Teleport {
    pub trigger_distance_milli: i64,
    pub timer: TimerMs,
}

/// Hurts the player on touch.
#[derive(Clone, Copy, PartialEq, Eq, Structural, Debug)]
pub struct ContactDamage {
    pub amount: u32,
}

/// Marker for a projectile an enemy fired.
pub struct EnemyProjectile;

/// The behaviour records an enemy spawns with; the bundle is fixed at
/// spawn time by the enemy's kind.
#[derive(Clone, Copy, PartialEq, Eq, Structural, Debug)]
pub struct EnemyBehaviors {
    pub state: EnemyState,
    pub patrol: Option<Patrol>,
    pub chase: Option<Chase>,
    pub ranged_attack: Option<RangedAttack>,
    pub teleport: Option<Teleport>,
    pub contact_damage: Option<ContactDamage>,
}

/// A bundle with no behaviours in the given state.
pub open spec fn spec_bare_behaviors(state: EnemyState) -> EnemyBehaviors {
    EnemyBehaviors {
        state,
        patrol: None,
        chase: None,
        ranged_attack: None,
        teleport: None,
        contact_damage: None,
    }
}

/// The single place that wires an archetype to its behaviours: a dummy
/// patrols and hurts on touch; Fufi chases and snipes; Catcifer lobs fan
/// shots and teleports away; every other kind, and an unrecognized one,
/// falls back to standing idle with no special behaviours.
pub fn spawn_enemies_characters(enemy_type: Option<EnemyType>) -> (b: EnemyBehaviors)
    ensures
        enemy_type == Some(EnemyType::Dummy) ==> b == (EnemyBehaviors {
            state: EnemyState::Patrolling,
            patrol: Some(Patrol { speed_milli: 50_000, direction: 1 }),
            contact_damage: Some(ContactDamage { amount: 1 }),
            ..spec_bare_behaviors(EnemyState::Patrolling)
        }),
        enemy_type == Some(EnemyType::Fufi) ==> b == (EnemyBehaviors {
            state: EnemyState::Chasing,
            chase: Some(Chase { speed_milli: 80_000, range_milli: 400_000 }),
            ranged_attack: Some(
                RangedAttack {
                    attack_type: RangedAttackType::SingleShot,
                    range_milli: 350_000,
                    timer: TimerMs { elapsed_ms: 0, duration_ms: 2_000 },
                },
            ),
            ..spec_bare_behaviors(EnemyState::Chasing)
        }),
        enemy_type == Some(EnemyType::Catcifer) ==> b == (EnemyBehaviors {
            state: EnemyState::Idle,
            ranged_attack: Some(
                RangedAttack {
                    attack_type: RangedAttackType::FanShot,
                    range_milli: 300_000,
                    timer: TimerMs { elapsed_ms: 0, duration_ms: 3_000 },
                },
            ),
            teleport: Some(
                Teleport {
                    trigger_distance_milli: 100_000,
                    timer: TimerMs { elapsed_ms: 0, duration_ms: 5_000 },
                },
            ),
            ..spec_bare_behaviors(EnemyState::Idle)
        }),
        match enemy_type {
            Some(EnemyType::Dummy) | Some(EnemyType::Fufi) | Some(EnemyType::Catcifer) => true,
            _ => b == spec_bare_behaviors(EnemyState::Idle),
        },
{
    match enemy_type {
        Some(EnemyType::Dummy) => EnemyBehaviors {
            state: EnemyState::Patrolling,
            patrol: Some(Patrol { speed_milli: 50_000, direction: 1 }),
            chase: None,
            ranged_attack: None,
            teleport: None,
            contact_damage: Some(ContactDamage { amount: 1 }),
        },
        Some(EnemyType::Fufi) => EnemyBehaviors {
            state: EnemyState::Chasing,
            patrol: None,
            chase: Some(Chase { speed_milli: 80_000, range_milli: 400_000 }),
            ranged_attack: Some(
                RangedAttack {
                    attack_type: RangedAttackType::SingleShot,
                    range_milli: 350_000,
                    timer: TimerMs::new(2_000),
                },
            ),
            teleport: None,
            contact_damage: None,
        },
        Some(EnemyType::Catcifer) => EnemyBehaviors {
            state: EnemyState::Idle,
            patrol: None,
            chase: None,
            ranged_attack: Some(
                RangedAttack {
                    attack_type: RangedAttackType::FanShot,
                    range_milli: 300_000,
                    timer: TimerMs::new(3_000),
                },
            ),
            teleport: Some(
                Teleport { trigger_distance_milli: 100_000, timer: TimerMs::new(5_000) },
            ),
            contact_damage: None,
        },
        _ => EnemyBehaviors {
            state: EnemyState::Idle,
            patrol: None,
            chase: None,
            ranged_attack: None,
            teleport: None,
            contact_damage: None,
        },
    }
}

/// The horizontal velocity a patroller walks at: its speed, signed by
/// its direction.
pub fn patrol_velocity(patrol: &Patrol) -> (vx: i64)
    requires
        patrol.direction == 1 || patrol.direction == -1,
        0 <= patrol.speed_milli <= crate::physics::VEL_LIMIT,
    ensures
        vx == patrol.direction * patrol.speed_milli,
{
    if patrol.direction >= 0 {
        patrol.speed_milli
    } else {
        -patrol.speed_milli
    }
}

/// The horizontal velocity a chaser moves at: toward the player at its
/// chase speed while the player is within range, else at rest.
pub open spec fn spec_chase_velocity(chase: Chase, self_x: int, player_x: int) -> int {
    let dx = player_x - self_x;
    if -chase.range_milli <= dx <= chase.range_milli {
        if dx >= 0 {
            chase.speed_milli as int
        } else {
            -chase.speed_milli as int
        }
    } else {
        0
    }
}

/// Decides a chaser's horizontal velocity from the two positions.
pub fn chase_velocity(chase: &Chase, self_x_milli: i64, player_x_milli: i64) -> (vx: i64)
    requires
        0 <= chase.speed_milli <= crate::physics::VEL_LIMIT,
        0 <= chase.range_milli,
        -POS_LIMIT <= self_x_milli <= POS_LIMIT,
        -POS_LIMIT <= player_x_milli <= POS_LIMIT,
    ensures
        vx == spec_chase_velocity(*chase, self_x_milli as int, player_x_milli as int),
{
    let dx = player_x_milli - self_x_milli;
    if -chase.range_milli <= dx && dx <= chase.range_milli {
        if dx >= 0 {
            chase.speed_milli
        } else {
            -chase.speed_milli
        }
    } else {
        0
    }
}

/// How many times faster than its firing direction an enemy projectile
/// flies: the direction vector is scaled directly, so a unit direction
/// yields four hundred units per second.
pub const ENEMY_PROJECTILE_FACTOR: i64 = 400;

/// Builds an enemy projectile's velocity: the raw firing direction
/// multiplied by the projectile factor, without normalization.
pub fn spawn_projectile(direction_x_milli: i64, direction_y_milli: i64) -> (v: Velocity)
    requires
        -(crate::physics::VEL_LIMIT / ENEMY_PROJECTILE_FACTOR) <= direction_x_milli
            <= crate::physics::VEL_LIMIT / ENEMY_PROJECTILE_FACTOR,
        -(crate::physics::VEL_LIMIT / ENEMY_PROJECTILE_FACTOR) <= direction_y_milli
            <= crate::physics::VEL_LIMIT / ENEMY_PROJECTILE_FACTOR,
    ensures
        v.x == ENEMY_PROJECTILE_FACTOR * direction_x_milli,
        v.y == ENEMY_PROJECTILE_FACTOR * direction_y_milli,
        v.in_bounds(),
{
    Velocity {
        x: ENEMY_PROJECTILE_FACTOR * direction_x_milli,
        y: ENEMY_PROJECTILE_FACTOR * direction_y_milli,
    }
}

/// Ticks a ranged attacker: on each completion of the repeating timer
/// the timer starts over, and a volley of the attacker's type is fired
/// if and only if the player is within attack range.
pub fn ranged_attack_system(attack: &mut RangedAttack, distance_milli: i64, dt_ms: u32) -> (fire:
    Option<RangedAttackType>)
    requires
        old(attack).timer.wf(),
        0 <= distance_milli,
    ensures
        final(attack).attack_type == old(attack).attack_type,
        final(attack).range_milli == old(attack).range_milli,
        final(attack).timer.wf(),
        old(attack).timer.spec_just_finishes(dt_ms as int) ==> final(attack).timer.elapsed_ms == 0
            && final(attack).timer.duration_ms == old(attack).timer.duration_ms,
        !old(attack).timer.spec_just_finishes(dt_ms as int) ==> final(attack).timer == old(
            attack,
        ).timer.spec_ticked(dt_ms as int),
        fire == if old(attack).timer.spec_just_finishes(dt_ms as int) && distance_milli <= old(
            attack,
        ).range_milli {
            Some(old(attack).attack_type)
        } else {
            None::<RangedAttackType>
        },
{
    let just_finished = attack.timer.tick(dt_ms);
    if just_finished {
        attack.timer.reset();
        if distance_milli <= attack.range_milli {
            Some(attack.attack_type)
        } else {
            None
        }
    } else {
        None
    }
}

/// One collision event involving the player, classified by what the
/// other entity carries: a contact-damage record, the enemy-projectile
/// marker, or both.
#[derive(Clone, Copy, PartialEq, Eq, Structural, Debug)]
pub struct CombatEvent {
    pub other: u64,
    pub contact_damage: Option<u32>,
    pub is_projectile: bool,
}

/// The damage amounts one event contributes, contact damage first: a
/// projectile always deals one hit point. An entity that is both a
/// contact-damage source and a projectile deals both — the known
/// double-damage edge case, preserved rather than deduplicated.
pub open spec fn spec_event_amounts(e: CombatEvent) -> Seq<int> {
    let contact = if e.contact_damage is Some {
        seq![e.contact_damage->0 as int]
    } else {
        Seq::<int>::empty()
    };
    let shot = if e.is_projectile {
        seq![1int]
    } else {
        Seq::<int>::empty()
    };
    contact + shot
}

/// All damage amounts a tick's combat events contribute, in order.
pub open spec fn spec_combat_amounts(events: Seq<CombatEvent>) -> Seq<int>
    decreases events.len(),
{
    if events.len() == 0 {
        Seq::empty()
    } else {
        spec_combat_amounts(events.drop_last()) + spec_event_amounts(events.last())
    }
}

/// The projectiles a tick's combat events consume, in order.
pub open spec fn spec_combat_despawns(events: Seq<CombatEvent>) -> Seq<u64>
    decreases events.len(),
{
    if events.len() == 0 {
        Seq::empty()
    } else {
        let init = spec_combat_despawns(events.drop_last());
        if events.last().is_projectile {
            init.push(events.last().other)
        } else {
            init
        }
    }
}

/// Routes one tick's combat collisions to the player's health. An
/// invincible player takes nothing and grants nothing. Otherwise each
/// event's contact damage and projectile damage land in order,
/// saturating at zero; every consumed projectile is reported for
/// removal, and any damage at all leaves the player invincible for the
/// combat duration.
pub fn enemy_damage_system(health: &mut Health, invincible: bool, events: &Vec<CombatEvent>) -> (out:
    (Option<Invincibility>, Vec<u64>))
    requires
        old(health).wf(),
    ensures
        final(health).wf(),
        final(health).max == old(health).max,
        invincible ==> *final(health) == *old(health) && out.0 is None && out.1@ == Seq::<
            u64,
        >::empty(),
        !invincible ==> {
            &&& final(health).current == spec_damage_seq(
                old(health).current as int,
                spec_combat_amounts(events@),
            )
            &&& out.1@ == spec_combat_despawns(events@)
            &&& spec_combat_amounts(events@).len() > 0 ==> out.0 == Some(
                Invincibility { remaining_ms: COMBAT_INVINCIBILITY_MS },
            )
            &&& spec_combat_amounts(events@).len() == 0 ==> out.0 is None
        },
{
    let mut despawns: Vec<u64> = Vec::new();
    if invincible {
        return (None, despawns);
    }
    let mut hit = false;
    let n = events.len();
    let mut i: usize = 0;
    while i < n
        invariant
            i <= n,
            n == events@.len(),
            health.wf(),
            health.max == old(health).max,
            health.current == spec_damage_seq(
                old(health).current as int,
                spec_combat_amounts(events@.subrange(0, i as int)),
            ),
            despawns@ == spec_combat_despawns(events@.subrange(0, i as int)),
            hit == (spec_combat_amounts(events@.subrange(0, i as int)).len() > 0),
        decreases n - i,
    {
        let e = events[i];
        let ghost done = events@.subrange(0, i as int);
        let ghost amounts_done = spec_combat_amounts(done);
        match e.contact_damage {
            Some(amount) => {
                crate::player::apply_damage(health, amount);
                hit = true;
            },
            None => {},
        }
        if e.is_projectile {
            crate::player::apply_damage(health, 1);
            despawns.push(e.other);
            hit = true;
        }
        proof {
            assert(events@.subrange(0, i as int + 1).drop_last() =~= done);
            assert(events@.subrange(0, i as int + 1).last() == e);
            if e.contact_damage is Some {
                crate::player::lemma_damage_seq_push(
                    old(health).current as int,
                    amounts_done,
                    e.contact_damage->0 as int,
                );
                if e.is_projectile {
                    crate::player::lemma_damage_seq_push(
                        old(health).current as int,
                        amounts_done.push(e.contact_damage->0 as int),
                        1int,
                    );
                    assert(amounts_done + spec_event_amounts(e) =~= amounts_done.push(
                        e.contact_damage->0 as int,
                    ).push(1int));
                } else {
                    assert(amounts_done + spec_event_amounts(e) =~= amounts_done.push(
                        e.contact_damage->0 as int,
                    ));
                }
            } else {
                if e.is_projectile {
                    crate::player::lemma_damage_seq_push(
                        old(health).current as int,
                        amounts_done,
                        1int,
                    );
                    assert(amounts_done + spec_event_amounts(e) =~= amounts_done.push(1int));
                } else {
                    assert(amounts_done + spec_event_amounts(e) =~= amounts_done);
                }
            }
        }
        i = i + 1;
    }
    proof {
        assert(events@.subrange(0, n as int) =~= events@);
    }
    let grant = if hit {
        Some(Invincibility::new(COMBAT_INVINCIBILITY_MS))
    } else {
        None
    };
    (grant, despawns)
}

/// Relies on `rand::Rng::gen_range` over an inclusive integer range: a
/// value drawn between the two bounds; the function panics only on an
/// empty range, which the precondition rules out.
#[verifier::external_body]
fn random_in_range(lo: i64, hi: i64) -> (r: i64)
    requires
        lo <= hi,
    ensures
        lo <= r <= hi,
{
    let mut rng = rand::thread_rng();
    rand::Rng::gen_range(&mut rng, lo..=hi)
}

/// How far a teleport may move an enemy sideways, in milliunits.
pub const TELEPORT_SIDE_MILLI: i64 = 200_000;

/// The least and greatest upward teleport hop, in milliunits.
pub const TELEPORT_UP_MIN_MILLI: i64 = 50_000;

/// The greatest upward teleport hop, in milliunits.
pub const TELEPORT_UP_MAX_MILLI: i64 = 150_000;

/// Ticks a fleeing enemy's teleport: when the repeating timer completes
/// while the enemy is fleeing, the enemy hops a bounded random distance
/// sideways and always upward — an escape to higher ground, not
/// pathfinding — and the timer starts over. In any other state the
/// position is untouched.
pub fn teleport_system(
    x_milli: &mut i64,
    y_milli: &mut i64,
    teleport: &mut Teleport,
    state: &EnemyState,
    dt_ms: u32,
)
    requires
        old(teleport).timer.wf(),
        -POS_LIMIT <= *old(x_milli) <= POS_LIMIT,
        -POS_LIMIT <= *old(y_milli) <= POS_LIMIT,
    ensures
        final(teleport).trigger_distance_milli == old(teleport).trigger_distance_milli,
        final(teleport).timer.wf(),
        ({
            let fires = *state == EnemyState::Fleeing && old(teleport).timer.spec_just_finishes(
                dt_ms as int,
            );
            &&& fires ==> {
                &&& final(teleport).timer.elapsed_ms == 0
                &&& final(teleport).timer.duration_ms == old(teleport).timer.duration_ms
                &&& *old(x_milli) - TELEPORT_SIDE_MILLI <= *final(x_milli) <= *old(x_milli)
                    + TELEPORT_SIDE_MILLI
                &&& *old(y_milli) + TELEPORT_UP_MIN_MILLI <= *final(y_milli) <= *old(y_milli)
                    + TELEPORT_UP_MAX_MILLI
            }
            &&& !fires ==> {
                &&& final(teleport).timer == old(teleport).timer.spec_ticked(dt_ms as int)
                &&& *final(x_milli) == *old(x_milli)
                &&& *final(y_milli) == *old(y_milli)
            }
        }),
{
    let just_finished = teleport.timer.tick(dt_ms);
    if *state == EnemyState::Fleeing && just_finished {
        let side = random_in_range(-TELEPORT_SIDE_MILLI, TELEPORT_SIDE_MILLI);
        let up = random_in_range(TELEPORT_UP_MIN_MILLI, TELEPORT_UP_MAX_MILLI);
        *x_milli = *x_milli + side;
        *y_milli = *y_milli + up;
        teleport.timer.reset();
    }
}

} // verus!
