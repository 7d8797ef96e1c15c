use lane_defense::plant::Plant;
use lane_defense::plant_factory::PlantType;
use lane_defense::plant_factory::create_plant;
use lane_defense::zombie::Zombie;
use lane_defense::zombie::ZombieState;
use lane_defense::zombie_factory::ZombieType;
use lane_defense::zombie_factory::create_zombie;

fn no_plants() -> Vec<Plant> {
    Vec::new()
}

#[test]
fn spawn_stats_per_variant() {
    let b = create_zombie(ZombieType::Basic, 130_000);
    assert_eq!((b.health(), b.speed, b.has_pole), (100, 20, false));
    let c = create_zombie(ZombieType::Conehead, 130_000);
    assert_eq!((c.health(), c.speed, c.has_pole), (200, 20, false));
    let k = create_zombie(ZombieType::Buckethead, 130_000);
    assert_eq!((k.health(), k.speed, k.has_pole), (350, 20, false));
    let p = create_zombie(ZombieType::PoleZombie, 130_000);
    assert_eq!((p.health(), p.speed, p.has_pole), (100, 30, true));
    assert_eq!(b.x(), 900_000);
    assert_eq!(b.state, ZombieState::Walking);
}

#[test]
fn walking_advances_leftward() {
    let mut z = create_zombie(ZombieType::Basic, 130_000);
    let mut plants = no_plants();
    // 20 px/s for 1 s = 20 px = 20_000 milli-pixels.
    z.update(1_000, 0, &mut plants);
    assert_eq!(z.x(), 880_000);
    assert_eq!(z.state, ZombieState::Walking);
}

#[test]
fn slow_halves_speed_at_once_and_expires_exactly_once() {
    let mut z = create_zombie(ZombieType::Basic, 130_000);
    z.apply_slow(2_500);
    assert_eq!(z.speed_multiplier_percent(), 50);
    let mut plants = no_plants();
    // Four frames of 625 ms sum exactly to the slow duration.
    z.update(625, 0, &mut plants);
    assert_eq!(z.speed_multiplier_percent(), 50);
    z.update(625, 0, &mut plants);
    z.update(625, 0, &mut plants);
    assert_eq!(z.speed_multiplier_percent(), 50);
    z.update(625, 0, &mut plants);
    // The tick that drains the timer restores the full multiplier...
    assert_eq!(z.speed_multiplier_percent(), 100);
    assert_eq!(z.slow_timer, 0);
    // ...and later ticks leave it alone: no oscillation.
    z.update(625, 0, &mut plants);
    assert_eq!(z.speed_multiplier_percent(), 100);
}

#[test]
fn slowed_walk_covers_half_the_ground() {
    let mut z = create_zombie(ZombieType::Basic, 130_000);
    z.apply_slow(5_000);
    let mut plants = no_plants();
    z.update(1_000, 0, &mut plants);
    assert_eq!(z.x(), 900_000 - 10_000);
}

#[test]
fn zombie_attacks_blocking_plant_with_rate_limit() {
    let mut z = create_zombie(ZombieType::Basic, 130_000);
    z.x = 160_000;
    let mut plants = vec![create_plant(PlantType::Wallnut, 150_000, 130_000)];
    // First contact at time 1500 ms: cooldown (1 s since time 0) elapsed,
    // so a damage tick lands.
    z.update(16, 1_500, &mut plants);
    assert_eq!(z.state, ZombieState::Attacking);
    assert_eq!(plants[0].health(), 480);
    assert_eq!(z.x(), 160_000);
    // 300 ms later the cooldown has not elapsed: attacking, no tick.
    z.update(16, 1_800, &mut plants);
    assert_eq!(plants[0].health(), 480);
    // A full second after the last tick, the next one lands.
    z.update(16, 2_500, &mut plants);
    assert_eq!(plants[0].health(), 460);
}

#[test]
fn zombie_resumes_walking_when_the_plant_dies() {
    let mut z = create_zombie(ZombieType::Basic, 130_000);
    z.x = 160_000;
    let mut plants = vec![create_plant(PlantType::Wallnut, 150_000, 130_000)];
    z.update(16, 1_000, &mut plants);
    assert_eq!(z.state, ZombieState::Attacking);
    plants.clear();
    z.update(1_000, 2_000, &mut plants);
    assert_eq!(z.state, ZombieState::Walking);
    assert_eq!(z.x(), 140_000);
}

#[test]
fn health_zero_turns_state_dead_on_that_frame() {
    let mut z = create_zombie(ZombieType::Basic, 130_000);
    z.take_damage(60);
    assert!(!z.is_dead());
    z.take_damage(40);
    assert_eq!(z.health(), 0);
    // The state flips on the update step that sees exhausted health.
    let mut plants = no_plants();
    let x_before = z.x();
    z.update(1_000, 0, &mut plants);
    assert_eq!(z.state, ZombieState::Dead);
    // A dead zombie neither moves nor attacks on later steps.
    z.update(1_000, 5_000, &mut plants);
    assert_eq!(z.x(), x_before - 20_000);
}

#[test]
fn pole_zombie_vaults_the_first_blocker() {
    let mut z = create_zombie(ZombieType::PoleZombie, 130_000);
    z.x = 160_000;
    let mut plants = vec![create_plant(PlantType::Wallnut, 150_000, 130_000)];
    z.update(16, 1_000, &mut plants);
    assert_eq!(z.state, ZombieState::Jumping);
    assert_eq!(z.jump_start_x, 160_000);
    assert_eq!(z.jump_target_x, 160_000 - 80_000);
    assert_eq!(plants[0].health(), 500);
    // Mid-arc: progress 0.5 after 250 ms (progress runs at double time),
    // x halfway, y lifted by the full 60 px peak.
    z.update(250, 1_000, &mut plants);
    assert_eq!(z.jump_progress, 500);
    assert_eq!(z.x(), 120_000);
    assert_eq!(z.y(), 130_000 - 60_000);
    // Landing: pole consumed, walking on at the landed speed.
    z.update(250, 1_000, &mut plants);
    assert_eq!(z.state, ZombieState::Walking);
    assert_eq!(z.x(), 80_000);
    assert_eq!(z.y(), 130_000);
    assert!(!z.has_pole);
    assert_eq!(z.speed, 20);
}

#[test]
fn landed_pole_zombie_attacks_instead_of_vaulting() {
    let mut z = create_zombie(ZombieType::PoleZombie, 130_000);
    z.x = 160_000;
    z.has_pole = false;
    let mut plants = vec![create_plant(PlantType::Wallnut, 150_000, 130_000)];
    z.update(16, 1_000, &mut plants);
    assert_eq!(z.state, ZombieState::Attacking);
    assert_eq!(plants[0].health(), 480);
}

#[test]
fn damage_floors_at_the_type_minimum() {
    let mut z = create_zombie(ZombieType::Basic, 130_000);
    z.take_damage(i32::MAX);
    z.take_damage(i32::MAX);
    assert_eq!(z.health(), i32::MIN);
}

#[test]
fn area_hit_zeroes_health_outright() {
    let mut z = create_zombie(ZombieType::Buckethead, 130_000);
    z.is_instakill(lane_defense::projectile::Instakill::Low);
    assert_eq!(z.health(), 0);
}
