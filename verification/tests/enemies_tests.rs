use platformer_core::enemies::{
    chase_velocity, enemy_damage_system, patrol_velocity, ranged_attack_system,
    spawn_enemies_characters, spawn_projectile, teleport_system, Chase, CombatEvent, EnemyState,
    EnemyType, Patrol, RangedAttack, RangedAttackType, Teleport,
};
use platformer_core::physics::Velocity;
use platformer_core::player::{Health, Invincibility};
use platformer_core::timer::TimerMs;

#[test]
fn enemy_names_parse_to_their_kinds() {
    assert_eq!(EnemyType::from_name("Fufi"), Some(EnemyType::Fufi));
    assert_eq!(EnemyType::from_name("Catcifer"), Some(EnemyType::Catcifer));
    assert_eq!(EnemyType::from_name("KiddCat"), Some(EnemyType::KiddCat));
    assert_eq!(EnemyType::from_name("fufi"), None);
    assert_eq!(EnemyType::from_name("Ghost"), None);
    assert_eq!(EnemyType::from_name(EnemyType::Maximiliano.name()), Some(EnemyType::Maximiliano));
}

#[test]
fn archetypes_fix_their_behaviour_bundles() {
    let dummy = spawn_enemies_characters(Some(EnemyType::Dummy));
    assert_eq!(dummy.state, EnemyState::Patrolling);
    assert_eq!(dummy.patrol, Some(Patrol { speed_milli: 50_000, direction: 1 }));
    assert_eq!(dummy.contact_damage.unwrap().amount, 1);
    assert!(dummy.chase.is_none() && dummy.ranged_attack.is_none() && dummy.teleport.is_none());

    let fufi = spawn_enemies_characters(Some(EnemyType::Fufi));
    assert_eq!(fufi.state, EnemyState::Chasing);
    assert_eq!(fufi.chase, Some(Chase { speed_milli: 80_000, range_milli: 400_000 }));
    let attack = fufi.ranged_attack.unwrap();
    assert_eq!(attack.attack_type, RangedAttackType::SingleShot);
    assert_eq!(attack.range_milli, 350_000);
    assert_eq!(attack.timer.duration_ms, 2_000);

    let catcifer = spawn_enemies_characters(Some(EnemyType::Catcifer));
    assert_eq!(catcifer.state, EnemyState::Idle);
    assert_eq!(catcifer.ranged_attack.unwrap().attack_type, RangedAttackType::FanShot);
    assert_eq!(catcifer.teleport.unwrap().timer.duration_ms, 5_000);

    // Every remaining kind, and an unrecognized one, idles harmlessly.
    let willie = spawn_enemies_characters(Some(EnemyType::Willie));
    assert_eq!(willie.state, EnemyState::Idle);
    assert!(willie.patrol.is_none() && willie.contact_damage.is_none());
    let unknown = spawn_enemies_characters(None);
    assert_eq!(unknown.state, EnemyState::Idle);
    assert!(unknown.ranged_attack.is_none() && unknown.teleport.is_none());
}

#[test]
fn patrol_walks_its_direction() {
    assert_eq!(patrol_velocity(&Patrol { speed_milli: 50_000, direction: 1 }), 50_000);
    assert_eq!(patrol_velocity(&Patrol { speed_milli: 50_000, direction: -1 }), -50_000);
}

#[test]
fn chase_moves_toward_the_player_only_in_range() {
    let chase = Chase { speed_milli: 80_000, range_milli: 400_000 };
    assert_eq!(chase_velocity(&chase, 0, 100_000), 80_000);
    assert_eq!(chase_velocity(&chase, 100_000, 0), -80_000);
    assert_eq!(chase_velocity(&chase, 0, 500_000), 0);
    assert_eq!(chase_velocity(&chase, 0, -500_000), 0);
}

#[test]
fn ranged_attack_fires_on_the_timer_within_range() {
    let mut attack = RangedAttack {
        attack_type: RangedAttackType::SingleShot,
        range_milli: 350_000,
        timer: TimerMs::new(2_000),
    };
    assert_eq!(ranged_attack_system(&mut attack, 100_000, 1_000), None);
    assert_eq!(ranged_attack_system(&mut attack, 100_000, 1_000), Some(RangedAttackType::SingleShot));
    // Firing restarts the repeating timer.
    assert_eq!(attack.timer.elapsed_ms, 0);
    // Out of range the volley is withheld but the timer still cycles.
    assert_eq!(ranged_attack_system(&mut attack, 500_000, 2_000), None);
    assert_eq!(attack.timer.elapsed_ms, 0);
}

#[test]
fn enemy_projectile_scales_the_raw_aim() {
    // The firing direction is multiplied directly, never normalized: a
    // unit aim flies at four hundred units per second, a longer aim
    // proportionally faster.
    assert_eq!(spawn_projectile(1_000, 0), Velocity { x: 400_000, y: 0 });
    assert_eq!(spawn_projectile(600, -800), Velocity { x: 240_000, y: -320_000 });
    assert_eq!(spawn_projectile(0, 0), Velocity { x: 0, y: 0 });
}

#[test]
fn teleport_hops_sideways_and_always_upward_while_fleeing() {
    let mut x: i64 = 10_000;
    let mut y: i64 = 20_000;
    let mut teleport = Teleport { trigger_distance_milli: 100_000, timer: TimerMs::new(5_000) };
    teleport_system(&mut x, &mut y, &mut teleport, &EnemyState::Fleeing, 5_000);
    assert!((10_000 - 200_000..=10_000 + 200_000).contains(&x));
    assert!((20_000 + 50_000..=20_000 + 150_000).contains(&y));
    assert_eq!(teleport.timer.elapsed_ms, 0);
}

#[test]
fn teleport_stays_put_outside_the_fleeing_state() {
    let mut x: i64 = 10_000;
    let mut y: i64 = 20_000;
    let mut teleport = Teleport { trigger_distance_milli: 100_000, timer: TimerMs::new(5_000) };
    teleport_system(&mut x, &mut y, &mut teleport, &EnemyState::Idle, 5_000);
    assert_eq!((x, y), (10_000, 20_000));
    teleport_system(&mut x, &mut y, &mut teleport, &EnemyState::Fleeing, 1_000);
    assert_eq!((x, y), (10_000, 20_000));
}

#[test]
fn contact_and_projectile_damage_route_to_the_player() {
    let mut health = Health { current: 6, max: 6 };
    let events = vec![
        CombatEvent { other: 11, contact_damage: Some(1), is_projectile: false },
        CombatEvent { other: 22, contact_damage: None, is_projectile: true },
    ];
    let (grant, despawns) = enemy_damage_system(&mut health, false, &events);
    assert_eq!(health.current, 4);
    assert_eq!(grant, Some(Invincibility { remaining_ms: 1_500 }));
    assert_eq!(despawns, vec![22]);
}

#[test]
fn invincible_player_takes_no_combat_damage() {
    let mut health = Health { current: 6, max: 6 };
    let events = vec![CombatEvent { other: 11, contact_damage: Some(3), is_projectile: true }];
    let (grant, despawns) = enemy_damage_system(&mut health, true, &events);
    assert_eq!(health.current, 6);
    assert_eq!(grant, None);
    assert!(despawns.is_empty());
}

#[test]
fn simultaneous_contact_and_projectile_both_land() {
    // The known double-damage edge case: one entity that is both a
    // contact-damage source and a projectile deals both amounts.
    let mut health = Health { current: 6, max: 6 };
    let events = vec![CombatEvent { other: 11, contact_damage: Some(2), is_projectile: true }];
    let (grant, despawns) = enemy_damage_system(&mut health, false, &events);
    assert_eq!(health.current, 3);
    assert_eq!(grant, Some(Invincibility { remaining_ms: 1_500 }));
    assert_eq!(despawns, vec![11]);
}

#[test]
fn quiet_tick_grants_no_immunity() {
    let mut health = Health { current: 6, max: 6 };
    let events: Vec<CombatEvent> = vec![];
    let (grant, despawns) = enemy_damage_system(&mut health, false, &events);
    assert_eq!(health.current, 6);
    assert_eq!(grant, None);
    assert!(despawns.is_empty());
}
