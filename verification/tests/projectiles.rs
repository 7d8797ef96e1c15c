use lane_defense::projectile::Instakill;
use lane_defense::projectile_factory::ProjectileFactory;
use lane_defense::projectile_factory::ProjectileKind;
use lane_defense::zombie::Zombie;
use lane_defense::zombie::ZombieState;
use lane_defense::zombie_factory::ZombieType;
use lane_defense::zombie_factory::create_zombie;

fn zombie_at(x: i64, y: i64) -> Zombie {
    let mut z = create_zombie(ZombieType::Basic, y);
    z.x = x;
    z
}

#[test]
fn pea_hits_first_zombie_for_exact_damage() {
    // Scenario: a pea at a zombie's exact row, within the hit box. One
    // update: health drops by exactly the pea's damage, the pea dies.
    let mut pea = ProjectileFactory::create(ProjectileKind::Normal, 380_001, 130_000);
    let mut zombies = vec![zombie_at(400_000, 130_000)];
    pea.update(0, &mut zombies);
    assert_eq!(zombies[0].health(), 80);
    assert!(!pea.is_active());
    // Speed multiplier untouched by a plain pea.
    assert_eq!(zombies[0].speed_multiplier_percent(), 100);
}

#[test]
fn pea_moves_with_elapsed_time() {
    let mut pea = ProjectileFactory::create(ProjectileKind::Normal, 100_000, 130_000);
    let mut zombies: Vec<Zombie> = Vec::new();
    // 300 px/s for 100 ms = 30 px = 30_000 milli-pixels.
    pea.update(100, &mut zombies);
    assert_eq!(pea.x, 130_000);
    assert!(pea.is_active());
}

#[test]
fn pea_respects_row_and_hitbox() {
    // Wrong row: exactly half a tile off.
    let mut pea = ProjectileFactory::create(ProjectileKind::Normal, 400_000, 130_000);
    let mut off_row = vec![zombie_at(400_000, 180_000)];
    pea.update(0, &mut off_row);
    assert_eq!(off_row[0].health(), 100);
    assert!(pea.is_active());
    // Right row, but outside the 20 px hit box.
    let mut pea2 = ProjectileFactory::create(ProjectileKind::Normal, 400_000, 130_000);
    let mut far = vec![zombie_at(420_000, 130_000)];
    pea2.update(0, &mut far);
    assert_eq!(far[0].health(), 100);
    assert!(pea2.is_active());
}

#[test]
fn pea_stops_at_first_match_only() {
    let mut pea = ProjectileFactory::create(ProjectileKind::Normal, 400_000, 130_000);
    let mut zombies = vec![zombie_at(405_000, 130_000), zombie_at(410_000, 130_000)];
    pea.update(0, &mut zombies);
    assert_eq!(zombies[0].health(), 80);
    assert_eq!(zombies[1].health(), 100);
    assert!(!pea.is_active());
}

#[test]
fn pea_deactivates_off_screen_without_hitting() {
    let mut pea = ProjectileFactory::create(ProjectileKind::Normal, 899_000, 130_000);
    let mut zombies = vec![zombie_at(899_500, 130_000)];
    // Travels 3 px per 10 ms; 10 s pushes it far past the right edge.
    pea.update(10_000, &mut zombies);
    assert!(!pea.is_active());
    assert_eq!(zombies[0].health(), 100);
}

#[test]
fn slow_pea_applies_the_slow_status() {
    let mut pea = ProjectileFactory::create(ProjectileKind::Slow, 400_000, 130_000);
    let mut zombies = vec![zombie_at(400_000, 130_000)];
    pea.update(0, &mut zombies);
    assert_eq!(zombies[0].health(), 90);
    assert_eq!(zombies[0].speed_multiplier_percent(), 50);
    assert_eq!(zombies[0].slow_timer, 2_500);
    assert!(!pea.is_active());
}

#[test]
fn blast_kills_everything_in_radius() {
    let kind = ProjectileKind::Instakill { radius: 150_000, tier: Instakill::Low };
    let mut blast = ProjectileFactory::create(kind, 450_000, 330_000);
    let mut zombies = vec![
        zombie_at(500_000, 330_000),  // inside
        zombie_at(450_000 + 150_000, 330_000),  // exactly at the radius: inside
        zombie_at(450_000 + 150_001, 330_000),  // just outside
        zombie_at(450_000, 330_000 - 50_000),  // inside, above
    ];
    blast.update(100, &mut zombies);
    assert_eq!(zombies[0].health(), 0);
    assert_eq!(zombies[1].health(), 0);
    assert_eq!(zombies[2].health(), 100);
    assert_eq!(zombies[3].health(), 0);
    assert!(blast.is_active());
    assert_eq!(blast.remaining_lifetime(), 500);
}

#[test]
fn blast_expires_after_its_lifetime() {
    // Lifetime 0.6 s: once accumulated steps reach it, the charge is
    // gone whether or not it ever hit anything.
    let kind = ProjectileKind::Instakill { radius: 180_000, tier: Instakill::Medium };
    let mut blast = ProjectileFactory::create(kind, 450_000, 330_000);
    let mut zombies: Vec<Zombie> = Vec::new();
    blast.update(200, &mut zombies);
    assert!(blast.is_active());
    blast.update(200, &mut zombies);
    assert!(blast.is_active());
    blast.update(200, &mut zombies);
    assert!(!blast.is_active());
    assert_eq!(blast.remaining_lifetime(), 0);
}

#[test]
fn blast_spares_the_already_dead() {
    let kind = ProjectileKind::Instakill { radius: 150_000, tier: Instakill::High };
    let mut blast = ProjectileFactory::create(kind, 450_000, 330_000);
    let mut dead = zombie_at(460_000, 330_000);
    dead.take_damage(250);
    dead.update(16, 0, &mut Vec::new());
    assert_eq!(dead.state, ZombieState::Dead);
    let before = dead.health();
    let mut zombies = vec![dead];
    blast.update(100, &mut zombies);
    assert_eq!(zombies[0].health(), before);
}

#[test]
fn resistance_fractions_are_data_only() {
    assert_eq!(Instakill::Low.hp_fraction(), 100);
    assert_eq!(Instakill::Medium.hp_fraction(), 250);
    assert_eq!(Instakill::High.hp_fraction(), 500);
}

#[test]
fn created_projectiles_carry_their_stats() {
    let n = ProjectileFactory::create(ProjectileKind::Normal, 100_000, 130_000);
    assert_eq!((n.speed, n.damage, n.lifetime, n.active), (300, 20, 0, true));
    let s = ProjectileFactory::create(ProjectileKind::Slow, 100_000, 130_000);
    assert_eq!((s.speed, s.damage, s.lifetime, s.active), (300, 10, 0, true));
    let kind = ProjectileKind::Instakill { radius: 150_000, tier: Instakill::Low };
    let b = ProjectileFactory::create(kind, 100_000, 130_000);
    assert_eq!((b.speed, b.damage, b.lifetime, b.active), (0, 0, 600, true));
}
