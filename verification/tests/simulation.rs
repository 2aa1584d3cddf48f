use pi_blocks::body::{Body, Wall};
use pi_blocks::engine::{ConfigError, Simulation};
use pi_blocks::rational::Rat;

fn rat(n: i64, d: i64) -> Rat {
    Rat::new(n, d).unwrap()
}

fn pi_sim(digits: u32) -> Simulation {
    let mass = pi_blocks::engine::mass_ratio_for_digits(digits).unwrap();
    let light = Body::new(rat(10, 1), Rat::from_int(0), Rat::from_int(1), Rat::from_int(1));
    let heavy = Body::new(rat(20, 1), rat(-2, 1), Rat::from_int(mass), Rat::from_int(1));
    Simulation::new(light, heavy, Wall::new(Rat::from_int(0))).unwrap()
}

#[test]
fn pi_zero_digits_gives_three_collisions() {
    let mut sim = pi_sim(0);
    let mut ticks = 0;
    while !sim.has_settled() && ticks < 1000 {
        sim.tick().unwrap();
        ticks += 1;
    }
    assert!(sim.has_settled());
    assert_eq!(sim.collision_total(), 3);
}

#[test]
fn wall_reflection_negates_velocity_and_counts_once() {
    // The light block starts just above the wall moving toward it.
    let light = Body::new(rat(2, 1), rat(-3, 1), Rat::from_int(1), Rat::from_int(1));
    let heavy = Body::new(rat(100, 1), Rat::from_int(0), Rat::from_int(1), Rat::from_int(1));
    let mut sim = Simulation::new(light, heavy, Wall::new(Rat::from_int(0))).unwrap();
    let ev = sim.tick().unwrap();
    assert!(ev.wall_collision);
    assert!(!ev.block_collision);
    assert_eq!(sim.collision_total(), 1);
    // Speed preserved, direction reversed: velocity is now +3.
    assert!(sim.light_velocity().eq_value(&rat(3, 1)));
}

#[test]
fn no_collision_without_contact() {
    let mut sim = pi_sim(0);
    let ev = sim.tick().unwrap();
    assert!(!ev.wall_collision);
    assert!(!ev.block_collision);
    assert_eq!(sim.collision_total(), 0);
    assert!(sim.light_velocity().eq_value(&Rat::from_int(0)));
    assert!(sim.heavy_velocity().eq_value(&rat(-2, 1)));
}

#[test]
fn contact_registers_exactly_one_event_per_tick() {
    // Both blocks at rest and overlapping: the block detector fires once per
    // tick, never twice, and the wall detector stays quiet.
    let light = Body::new(rat(10, 1), Rat::from_int(0), Rat::from_int(1), Rat::from_int(1));
    let heavy = Body::new(rat(10, 1), Rat::from_int(0), Rat::from_int(1), Rat::from_int(1));
    let mut sim = Simulation::new(light, heavy, Wall::new(Rat::from_int(0))).unwrap();
    let ev = sim.tick().unwrap();
    assert!(ev.block_collision);
    assert!(!ev.wall_collision);
    assert_eq!(sim.collision_total(), 1);
    let ev2 = sim.tick().unwrap();
    assert!(ev2.block_collision);
    assert_eq!(sim.collision_total(), 2);
}

#[test]
fn non_positive_mass_is_rejected() {
    let good = Body::new(rat(10, 1), Rat::from_int(0), Rat::from_int(1), Rat::from_int(1));
    let bad = Body::new(rat(20, 1), Rat::from_int(0), Rat::from_int(0), Rat::from_int(1));
    let r = Simulation::new(good, bad, Wall::new(Rat::from_int(0)));
    assert_eq!(r.unwrap_err(), ConfigError::NonPositiveMass);
}

#[test]
fn mass_ratio_for_digits_is_a_checked_power_of_one_hundred() {
    assert_eq!(pi_blocks::engine::mass_ratio_for_digits(0).unwrap(), 1);
    assert_eq!(pi_blocks::engine::mass_ratio_for_digits(1).unwrap(), 100);
    assert_eq!(pi_blocks::engine::mass_ratio_for_digits(2).unwrap(), 10_000);
    assert_eq!(pi_blocks::engine::mass_ratio_for_digits(9).unwrap(), 1_000_000_000_000_000_000);
    assert_eq!(
        pi_blocks::engine::mass_ratio_for_digits(10).unwrap_err(),
        ConfigError::MassRatioOverflow
    );
}

#[test]
fn overflowing_tick_reports_error_and_leaves_state() {
    let light = Body::new(
        Rat::new(i64::MAX, 1).unwrap(),
        Rat::from_int(1),
        Rat::from_int(1),
        Rat::from_int(1),
    );
    let heavy = Body::new(rat(20, 1), Rat::from_int(0), Rat::from_int(1), Rat::from_int(1));
    let mut sim = Simulation::new(light, heavy, Wall::new(Rat::from_int(0))).unwrap();
    let r = sim.tick();
    assert_eq!(r.unwrap_err(), pi_blocks::engine::SimError::NumericOverflow);
    assert!(sim.light_position().eq_value(&Rat::new(i64::MAX, 1).unwrap()));
    assert_eq!(sim.collision_total(), 0);
}
