use lane_defense::plant::MUZZLE_OFFSET;
use lane_defense::plant::PlantAction;
use lane_defense::plant_factory::PlantType;
use lane_defense::plant_factory::create_plant;
use lane_defense::projectile::Instakill;
use lane_defense::projectile_factory::ProjectileKind;
use lane_defense::zombie::Zombie;
use lane_defense::zombie_factory::ZombieType;
use lane_defense::zombie_factory::create_zombie;

fn zombie_at(x: i64, y: i64) -> Zombie {
    let mut z = create_zombie(ZombieType::Basic, y);
    z.x = x;
    z
}

#[test]
fn costs_and_cooldowns() {
    assert_eq!(PlantType::Peashooter.cost(), 100);
    assert_eq!(PlantType::Sunflower.cost(), 50);
    assert_eq!(PlantType::SlowPeashooter.cost(), 125);
    assert_eq!(PlantType::PotatoMine.cost(), 25);
    assert_eq!(PlantType::Wallnut.cost(), 50);
    assert_eq!(PlantType::CherryBomb.cost(), 150);
    assert_eq!(PlantType::Peashooter.cooldown_time(), 5_000);
    assert_eq!(PlantType::Sunflower.cooldown_time(), 7_500);
    assert_eq!(PlantType::SlowPeashooter.cooldown_time(), 7_500);
    assert_eq!(PlantType::PotatoMine.cooldown_time(), 25_000);
    assert_eq!(PlantType::Wallnut.cooldown_time(), 30_000);
    assert_eq!(PlantType::CherryBomb.cooldown_time(), 30_000);
}

#[test]
fn roster_lists_every_type_once() {
    let all = PlantType::all();
    assert_eq!(all.len(), 6);
    assert!(all.contains(&PlantType::Sunflower));
    assert!(all.contains(&PlantType::Peashooter));
    assert!(all.contains(&PlantType::SlowPeashooter));
    assert!(all.contains(&PlantType::PotatoMine));
    assert!(all.contains(&PlantType::Wallnut));
    assert!(all.contains(&PlantType::CherryBomb));
}

#[test]
fn fresh_plant_stats() {
    let p = create_plant(PlantType::Peashooter, 150_000, 130_000);
    assert_eq!(p.health(), 100);
    assert_eq!(p.timer, 0);
    let s = create_plant(PlantType::Sunflower, 150_000, 130_000);
    assert_eq!(s.health(), 80);
    assert_eq!(s.timer, 2_000);
    let w = create_plant(PlantType::Wallnut, 150_000, 130_000);
    assert_eq!(w.health(), 500);
    assert!(!w.is_tall());
}

#[test]
fn row_boundary_is_exclusive() {
    // A zombie offset exactly half a tile (50 px) is no target; one
    // milli-pixel inside is.
    let mut charged = create_plant(PlantType::Peashooter, 150_000, 130_000);
    let at_boundary = vec![zombie_at(400_000, 130_000 + 50_000)];
    assert_eq!(charged.update(16, &at_boundary), None);

    let mut charged2 = create_plant(PlantType::Peashooter, 150_000, 130_000);
    let inside = vec![zombie_at(400_000, 130_000 + 49_999)];
    match charged2.update(16, &inside) {
        Some(PlantAction::Shoot { kind, x, y }) => {
            assert_eq!(kind, ProjectileKind::Normal);
            assert_eq!(x, 150_000 + MUZZLE_OFFSET);
            assert_eq!(y, 130_000);
        },
        other => panic!("expected a shot, got {:?}", other),
    }

    let mut charged3 = create_plant(PlantType::Peashooter, 150_000, 130_000);
    let below_boundary = vec![zombie_at(400_000, 130_000 - 50_000)];
    assert_eq!(charged3.update(16, &below_boundary), None);
}

#[test]
fn target_must_stand_ahead_and_in_range() {
    let mut p = create_plant(PlantType::Peashooter, 150_000, 130_000);
    let behind = vec![zombie_at(149_000, 130_000)];
    assert_eq!(p.update(16, &behind), None);

    let mut p2 = create_plant(PlantType::Peashooter, 50_000, 130_000);
    let beyond_range = vec![zombie_at(50_000 + 800_001, 130_000)];
    assert_eq!(p2.update(16, &beyond_range), None);

    let mut p3 = create_plant(PlantType::Peashooter, 50_000, 130_000);
    let at_range = vec![zombie_at(50_000 + 800_000, 130_000)];
    assert!(p3.update(16, &at_range).is_some());
}

#[test]
fn dead_zombies_are_no_targets() {
    let mut p = create_plant(PlantType::Peashooter, 150_000, 130_000);
    let mut z = zombie_at(400_000, 130_000);
    z.take_damage(100);
    z.update(16, 0, &mut Vec::new());
    assert!(z.is_dead());
    assert_eq!(p.update(16, &vec![z]), None);
}

#[test]
fn shooter_cooldown_gates_the_shot() {
    let mut p = create_plant(PlantType::Peashooter, 150_000, 130_000);
    p.timer = 1_000;
    let zombies = vec![zombie_at(400_000, 130_000)];
    // Timer still positive after the tick: no action, timer burns down.
    assert_eq!(p.update(400, &zombies), None);
    assert_eq!(p.timer, 600);
    // The tick that drains the timer fires exactly once and resets it.
    let action = p.update(600, &zombies);
    assert!(matches!(action, Some(PlantAction::Shoot { .. })));
    assert_eq!(p.timer, 1_500);
    // Immediately after, the fresh cadence gates again.
    assert_eq!(p.update(16, &zombies), None);
}

#[test]
fn shooter_precharges_without_target() {
    let mut p = create_plant(PlantType::Peashooter, 150_000, 130_000);
    p.timer = 1_500;
    let empty: Vec<Zombie> = Vec::new();
    assert_eq!(p.update(5_000, &empty), None);
    assert_eq!(p.timer, 0);
    // The moment a target appears the charged shooter fires.
    let zombies = vec![zombie_at(400_000, 130_000)];
    assert!(p.update(0, &zombies).is_some());
}

#[test]
fn sunflower_produces_on_cadence_regardless_of_zombies() {
    let mut s = create_plant(PlantType::Sunflower, 250_000, 230_000);
    let empty: Vec<Zombie> = Vec::new();
    assert_eq!(s.update(1_999, &empty), None);
    assert_eq!(s.update(1, &empty), Some(PlantAction::ProduceSun { x: 250_000, y: 230_000 }));
    assert_eq!(s.timer, 5_000);
}

#[test]
fn potato_mine_arms_then_blows_itself_up() {
    let mut m = create_plant(PlantType::PotatoMine, 150_000, 130_000);
    let zombies = vec![zombie_at(160_000, 130_000)];
    // Not armed yet: the arming delay still runs.
    assert_eq!(m.update(13_999, &zombies), None);
    assert!(!m.is_dead());
    // Armed and stepped on: blast action, mine spent.
    match m.update(1, &zombies) {
        Some(PlantAction::Shoot { kind, x, y }) => {
            assert_eq!(kind, ProjectileKind::Instakill { radius: 150_000, tier: Instakill::Low });
            assert_eq!(x, 150_000);
            assert_eq!(y, 130_000);
        },
        other => panic!("expected a blast, got {:?}", other),
    }
    assert!(m.is_dead());
}

#[test]
fn armed_mine_waits_for_a_zombie() {
    let mut m = create_plant(PlantType::PotatoMine, 150_000, 130_000);
    let empty: Vec<Zombie> = Vec::new();
    assert_eq!(m.update(20_000, &empty), None);
    assert!(!m.is_dead());
    // A zombie outside the half-tile trigger range does not set it off.
    let far = vec![zombie_at(150_000 + 50_001, 130_000)];
    assert_eq!(m.update(16, &far), None);
}

#[test]
fn cherry_bomb_explodes_on_fuse_expiry() {
    let mut c = create_plant(PlantType::CherryBomb, 450_000, 330_000);
    let empty: Vec<Zombie> = Vec::new();
    assert_eq!(c.update(1_499, &empty), None);
    match c.update(1, &empty) {
        Some(PlantAction::Shoot { kind, x, y }) => {
            assert_eq!(
                kind,
                ProjectileKind::Instakill { radius: 180_000, tier: Instakill::Medium }
            );
            assert_eq!(x, 450_000);
            assert_eq!(y, 330_000);
        },
        other => panic!("expected a blast, got {:?}", other),
    }
    assert!(c.is_dead());
}

#[test]
fn wallnut_only_soaks_damage() {
    let mut w = create_plant(PlantType::Wallnut, 150_000, 130_000);
    let zombies = vec![zombie_at(160_000, 130_000)];
    assert_eq!(w.update(60_000, &zombies), None);
    w.take_damage(499);
    assert!(!w.is_dead());
    w.take_damage(1);
    assert!(w.is_dead());
}
