use platformer_core::physics::{
    gravity_system, kinematic_character_movement_system, step_fraction, Mass, Velocity,
};

#[test]
fn step_fraction_is_smoothed_and_clamped() {
    assert_eq!(step_fraction(0), 0);
    assert_eq!(step_fraction(16), 144);
    assert_eq!(step_fraction(1111), 9999);
    assert_eq!(step_fraction(1112), 10000);
    assert_eq!(step_fraction(2000), 10000);
}

#[test]
fn gravity_accumulates_while_airborne() {
    let mut v = Velocity { x: 7, y: 0 };
    let mass = Mass { kilograms: 100 };
    gravity_system(&mut v, &mass, false, 16);
    assert_eq!(v.x, 7);
    assert_eq!(v.y, -14_126);
    gravity_system(&mut v, &mass, false, 16);
    assert_eq!(v.y, -28_252);
}

#[test]
fn gravity_skips_grounded_entities() {
    let mut v = Velocity { x: 5, y: -3 };
    let mass = Mass { kilograms: 100 };
    gravity_system(&mut v, &mass, true, 16);
    assert_eq!(v, Velocity { x: 5, y: -3 });
}

#[test]
fn displacement_scales_velocity_by_the_step() {
    let v = Velocity { x: 200_000, y: -14_126 };
    let d = kinematic_character_movement_system(&v, 16);
    assert_eq!(d.x, 2_880);
    assert_eq!(d.y, -203);
}

#[test]
fn displacement_is_capped_at_the_full_velocity() {
    let v = Velocity { x: 123_456, y: -77 };
    let d = kinematic_character_movement_system(&v, 2_000);
    assert_eq!(d.x, 123_456);
    assert_eq!(d.y, -77);
}

#[test]
fn default_mass_and_velocity() {
    let m: Mass = Default::default();
    assert_eq!(m.kilograms, 100);
    let v: Velocity = Default::default();
    assert_eq!(v, Velocity { x: 0, y: 0 });
}
