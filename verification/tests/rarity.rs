use lane_defense::zombie_factory::Rarity;
use lane_defense::zombie_factory::ZombieType;
use lane_defense::zombie_factory::get_scaled_rarity_weights;
use lane_defense::zombie_factory::pick_rarity;
use lane_defense::zombie_factory::resolve_rarity;
use lane_defense::zombie_factory::spawn_random_zombie;
use lane_defense::zombie_factory::zombies_by_rarity;

fn total(count: u32) -> u64 {
    get_scaled_rarity_weights(count)
        .iter()
        .map(|(_, w)| *w as u64)
        .sum()
}

#[test]
fn base_weights_at_zero_difficulty() {
    let w = get_scaled_rarity_weights(0);
    assert_eq!(w.len(), 5);
    assert_eq!(w[0], (Rarity::Common, 4_000_000));
    assert_eq!(w[1], (Rarity::Uncommon, 775_000));
    assert_eq!(w[2], (Rarity::Rare, 200_000));
    assert_eq!(w[3], (Rarity::Epic, 24_500));
    assert_eq!(w[4], (Rarity::Boss, 500));
}

#[test]
fn weights_renormalize_at_every_difficulty() {
    for count in [0u32, 1, 5, 10, 25, 49, 50, 51, 100, 1000] {
        assert_eq!(total(count), 5_000_000 - 24_445 * u64::from(count.min(50)));
    }
}

#[test]
fn weights_freeze_past_fifty() {
    assert_eq!(get_scaled_rarity_weights(50), get_scaled_rarity_weights(51));
    assert_eq!(get_scaled_rarity_weights(50), get_scaled_rarity_weights(10_000));
}

#[test]
fn difficulty_shifts_probability_from_common_to_boss() {
    // Cross-multiplied probabilities: Common strictly falls and Boss
    // strictly rises as the spawn count climbs toward 50.
    let counts = [0u32, 10, 20, 30, 40, 50];
    for pair in counts.windows(2) {
        let (a, b) = (pair[0], pair[1]);
        let wa = get_scaled_rarity_weights(a);
        let wb = get_scaled_rarity_weights(b);
        let (ta, tb) = (total(a), total(b));
        assert!(u64::from(wa[0].1) * tb > u64::from(wb[0].1) * ta);
        assert!(u64::from(wa[4].1) * tb < u64::from(wb[4].1) * ta);
    }
}

#[test]
fn roll_walk_hits_each_tier_in_order() {
    assert_eq!(resolve_rarity(0, 0), Rarity::Common);
    assert_eq!(resolve_rarity(0, 3_999_999), Rarity::Common);
    assert_eq!(resolve_rarity(0, 4_000_000), Rarity::Uncommon);
    assert_eq!(resolve_rarity(0, 4_774_999), Rarity::Uncommon);
    assert_eq!(resolve_rarity(0, 4_775_000), Rarity::Rare);
    assert_eq!(resolve_rarity(0, 4_975_000), Rarity::Epic);
    assert_eq!(resolve_rarity(0, 4_999_499), Rarity::Epic);
    assert_eq!(resolve_rarity(0, 4_999_500), Rarity::Boss);
    assert_eq!(resolve_rarity(0, 4_999_999), Rarity::Boss);
}

#[test]
fn roll_past_total_falls_back_to_common() {
    assert_eq!(resolve_rarity(0, 5_000_000), Rarity::Common);
    assert_eq!(resolve_rarity(0, u32::MAX), Rarity::Common);
    assert_eq!(resolve_rarity(50, 3_777_750), Rarity::Common);
}

#[test]
fn variant_pools_per_tier() {
    assert_eq!(zombies_by_rarity(Rarity::Common), vec![ZombieType::Basic]);
    assert_eq!(
        zombies_by_rarity(Rarity::Uncommon),
        vec![ZombieType::Conehead, ZombieType::PoleZombie]
    );
    assert_eq!(zombies_by_rarity(Rarity::Rare), vec![ZombieType::Conehead]);
    assert_eq!(zombies_by_rarity(Rarity::Epic), vec![ZombieType::Buckethead]);
    assert_eq!(zombies_by_rarity(Rarity::Boss), vec![ZombieType::Buckethead]);
}

#[test]
fn random_spawn_builds_a_fresh_zombie() {
    macroquad::rand::srand(7);
    for count in 0..40u32 {
        let z = spawn_random_zombie(330_000, count);
        assert_eq!(z.x, 900_000);
        assert_eq!(z.base_y, 330_000);
        assert!(z.health > 0);
        assert!(!z.is_dead());
    }
}

#[test]
fn rarity_draws_vary_between_calls() {
    // The roll really is drawn anew each time: with a fixed seed, 200
    // draws at high difficulty cannot all land on one tier.
    macroquad::rand::srand(42);
    let mut seen_non_common = false;
    let mut seen_common = false;
    for _ in 0..200 {
        match pick_rarity(50) {
            Rarity::Common => seen_common = true,
            _ => seen_non_common = true,
        }
    }
    assert!(seen_common);
    assert!(seen_non_common);
}
