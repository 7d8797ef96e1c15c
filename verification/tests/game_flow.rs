use lane_defense::game::Game;
use lane_defense::grid::Tile;
use lane_defense::plant_factory::PlantType;
use lane_defense::sun::Sun;
use lane_defense::sun::SunSource;
use lane_defense::zombie_factory::ZombieType;
use lane_defense::zombie_factory::create_zombie;

fn fresh_game(types: Vec<PlantType>) -> Game {
    macroquad::rand::srand(99);
    Game::new(types)
}

/// Pointer position that selects bar slot 0 (slots start at x = 130 px).
const SLOT0_X: i64 = 140_000;
const SLOT0_Y: i64 = 20_000;

/// Pointer position on the tile at row 0, column 0.
const TILE00_X: i64 = 50_000;
const TILE00_Y: i64 = 130_000;

#[test]
fn fresh_battle_state() {
    let g = fresh_game(vec![PlantType::Peashooter, PlantType::Sunflower]);
    assert_eq!(g.sun_points, 50);
    assert_eq!(g.plants.len(), 0);
    assert_eq!(g.zombies.len(), 0);
    assert_eq!(g.projectiles.len(), 0);
    assert_eq!(g.suns.len(), 0);
    assert_eq!(g.zombie_count, 0);
    assert_eq!(g.plant_bar.slots.len(), 2);
    assert!(g.plant_bar.selected.is_none());
    assert!((7_000..=10_000).contains(&g.next_natural_sun_time));
    assert!((5_000..=10_000).contains(&g.next_zombie_time));
}

#[test]
fn grid_maps_pointer_to_tiles() {
    let g = fresh_game(vec![]);
    assert_eq!(
        g.grid.get_tile_at(0, 80_000),
        Some(Tile { row: 0, col: 0, x: 0, y: 80_000 })
    );
    assert_eq!(
        g.grid.get_tile_at(899_999, 579_999),
        Some(Tile { row: 4, col: 8, x: 800_000, y: 480_000 })
    );
    // On the bar, above the grid: no tile.
    assert_eq!(g.grid.get_tile_at(450_000, 79_999), None);
    // Below the last row.
    assert_eq!(g.grid.get_tile_at(450_000, 580_000), None);
}

#[test]
fn bar_click_selects_a_slot() {
    let mut g = fresh_game(vec![PlantType::Peashooter, PlantType::Sunflower]);
    g.plant_bar.handle_click(SLOT0_X, SLOT0_Y);
    assert_eq!(g.plant_bar.selected, Some(PlantType::Peashooter));
    assert!(g.plant_bar.slots[0].selected);
    assert!(!g.plant_bar.slots[1].selected);
    // A click off the bar changes nothing.
    g.plant_bar.handle_click(450_000, 300_000);
    assert_eq!(g.plant_bar.selected, Some(PlantType::Peashooter));
}

#[test]
fn placement_rejected_when_unaffordable() {
    // Scenario: empty board, 50 sun; a type costing 100 is selected.
    let mut g = fresh_game(vec![PlantType::Peashooter]);
    g.plant_bar.handle_click(SLOT0_X, SLOT0_Y);
    g.try_place(TILE00_X, TILE00_Y);
    assert_eq!(g.plants.len(), 0);
    assert_eq!(g.sun_points, 50);
    // The attempt is atomic: selection and cooldowns are untouched too.
    assert_eq!(g.plant_bar.selected, Some(PlantType::Peashooter));
    assert_eq!(g.plant_bar.slots[0].cooldown, 0);
}

#[test]
fn placement_commits_when_every_condition_holds() {
    let mut g = fresh_game(vec![PlantType::Sunflower]);
    g.plant_bar.handle_click(SLOT0_X, SLOT0_Y);
    g.try_place(TILE00_X, TILE00_Y);
    assert_eq!(g.plants.len(), 1);
    assert_eq!(g.plants[0].plant_type, PlantType::Sunflower);
    assert_eq!(g.plants[0].x, 50_000);
    assert_eq!(g.plants[0].y, 130_000);
    assert_eq!(g.sun_points, 0);
    assert_eq!(g.plant_bar.slots[0].cooldown, 7_500);
    assert!(g.plant_bar.selected.is_none());
}

#[test]
fn placement_rejected_on_occupied_tile() {
    let mut g = fresh_game(vec![PlantType::PotatoMine]);
    g.sun_points = 100;
    g.plant_bar.handle_click(SLOT0_X, SLOT0_Y);
    g.try_place(TILE00_X, TILE00_Y);
    assert_eq!(g.plants.len(), 1);
    assert_eq!(g.sun_points, 75);
    // Cooldown ready again, same tile: still occupied, nothing changes.
    g.plant_bar.tick_cooldowns(25_000);
    g.plant_bar.handle_click(SLOT0_X, SLOT0_Y);
    g.try_place(TILE00_X + 9_000, TILE00_Y + 9_000);
    assert_eq!(g.plants.len(), 1);
    assert_eq!(g.sun_points, 75);
}

#[test]
fn placement_rejected_while_cooldown_runs() {
    let mut g = fresh_game(vec![PlantType::PotatoMine]);
    g.sun_points = 100;
    g.plant_bar.handle_click(SLOT0_X, SLOT0_Y);
    g.try_place(TILE00_X, TILE00_Y);
    assert_eq!(g.plants.len(), 1);
    // Second tile, cooldown still running: rejected.
    g.plant_bar.handle_click(SLOT0_X, SLOT0_Y);
    g.try_place(TILE00_X + 100_000, TILE00_Y);
    assert_eq!(g.plants.len(), 1);
    assert_eq!(g.sun_points, 75);
}

#[test]
fn placement_rejected_without_selection_or_tile() {
    let mut g = fresh_game(vec![PlantType::Sunflower]);
    // Nothing selected.
    g.try_place(TILE00_X, TILE00_Y);
    assert_eq!(g.plants.len(), 0);
    // Selected, but the pointer is on the bar, not a tile.
    g.plant_bar.handle_click(SLOT0_X, SLOT0_Y);
    g.try_place(SLOT0_X, SLOT0_Y);
    assert_eq!(g.plants.len(), 0);
    assert_eq!(g.sun_points, 50);
}

#[test]
fn producer_drops_a_sun_after_its_cadence() {
    // Scenario: a resource producer placed on row 0; advancing time by
    // its production delay yields exactly one sun at its position with
    // the configured value.
    let mut g = fresh_game(vec![PlantType::Sunflower]);
    g.plant_bar.handle_click(SLOT0_X, SLOT0_Y);
    g.try_place(TILE00_X, TILE00_Y);
    g.update_plants(1_999);
    assert_eq!(g.suns.len(), 0);
    g.update_plants(1);
    assert_eq!(g.suns.len(), 1);
    let s = &g.suns[0];
    assert!(s.x == 50_000 - 20_000 || s.x == 50_000 + 20_000);
    assert_eq!(s.y, 130_000);
    assert_eq!(s.target_y, 180_000);
    assert_eq!(s.value, 25);
    assert_eq!(s.source, SunSource::Plant);
}

#[test]
fn pointer_over_a_sun_collects_it() {
    let mut g = fresh_game(vec![]);
    g.suns.push(Sun {
        x: 300_000,
        y: 250_000,
        target_y: 250_000,
        speed: 60,
        collected: false,
        value: 25,
        source: SunSource::Natural,
    });
    // Pointer exactly at the hover boundary: not collected.
    g.collect_suns(300_000 + 20_000, 250_000);
    assert_eq!(g.sun_points, 50);
    assert!(!g.suns[0].collected);
    // Strictly inside: collected and credited once.
    g.collect_suns(300_000 + 19_999, 250_000);
    assert_eq!(g.sun_points, 75);
    assert!(g.suns[0].collected);
    // A collected sun cannot be collected again.
    g.collect_suns(300_000, 250_000);
    assert_eq!(g.sun_points, 75);
    // The sweep removes it.
    g.update_suns(16);
    assert_eq!(g.suns.len(), 0);
}

#[test]
fn suns_fall_to_their_resting_height() {
    let mut g = fresh_game(vec![]);
    g.suns.push(Sun {
        x: 300_000,
        y: 0,
        target_y: 250_000,
        speed: 60,
        collected: false,
        value: 25,
        source: SunSource::Natural,
    });
    g.update_suns(1_000);
    assert_eq!(g.suns[0].y, 60_000);
    g.update_suns(10_000);
    assert_eq!(g.suns[0].y, 250_000);
}

#[test]
fn kinetic_hit_through_the_full_frame() {
    // Scenario: one pea in the zombie's row within the hit box; after
    // the projectile phase the zombie lost exactly the pea's damage and
    // the spent pea is swept out.
    let mut g = fresh_game(vec![]);
    let mut z = create_zombie(ZombieType::Basic, 130_000);
    z.x = 400_000;
    g.zombies.push(z);
    g.projectiles.push(
        lane_defense::projectile_factory::ProjectileFactory::create(
            lane_defense::projectile_factory::ProjectileKind::Normal,
            399_000,
            130_000,
        ),
    );
    g.update_projectiles(0);
    assert_eq!(g.zombies[0].health(), 80);
    assert_eq!(g.projectiles.len(), 0);
}

#[test]
fn dead_zombie_leaves_the_live_set_after_the_sweep() {
    // Scenario: health driven to exactly zero turns the state Dead on
    // that frame, and the prune phase drops the zombie from the set.
    let mut g = fresh_game(vec![]);
    let mut z = create_zombie(ZombieType::Basic, 130_000);
    z.take_damage(100);
    assert_eq!(z.health(), 0);
    g.zombies.push(z);
    g.update_zombies(16, 0);
    assert_eq!(g.zombies.len(), 0);
}

#[test]
fn dead_plants_are_pruned() {
    let mut g = fresh_game(vec![PlantType::Sunflower]);
    g.plant_bar.handle_click(SLOT0_X, SLOT0_Y);
    g.try_place(TILE00_X, TILE00_Y);
    g.plants[0].take_damage(80);
    g.prune_dead_plants();
    assert_eq!(g.plants.len(), 0);
}

#[test]
fn natural_sun_timer_drops_a_sun_on_expiry() {
    let mut g = fresh_game(vec![]);
    let wait = g.next_natural_sun_time;
    g.tick_natural_sun(wait - 1);
    assert_eq!(g.suns.len(), 0);
    assert_eq!(g.natural_sun_timer, wait - 1);
    g.tick_natural_sun(1);
    assert_eq!(g.suns.len(), 1);
    assert_eq!(g.natural_sun_timer, 0);
    assert!((7_000..=10_000).contains(&g.next_natural_sun_time));
    let s = &g.suns[0];
    assert!((50_000..=850_000).contains(&s.x));
    assert_eq!(s.y, 0);
    assert!((200_000..=530_000).contains(&s.target_y));
    assert_eq!(s.source, SunSource::Natural);
}

#[test]
fn zombie_wave_spawns_on_timer_expiry() {
    let mut g = fresh_game(vec![]);
    let wait = g.next_zombie_time;
    g.tick_zombie_spawn(wait - 1);
    assert_eq!(g.zombies.len(), 0);
    g.tick_zombie_spawn(1);
    let n = g.zombies.len();
    // The first wave's cap is min(0 / 5 + 1, 4) = 1.
    assert_eq!(n, 1);
    // The rerolled threshold comes from the narrowed interval
    // [max(2000, 5000 - 20), max(4000, 10000 - 20)].
    assert!((4_980..=9_980).contains(&g.next_zombie_time));
    assert_eq!(g.zombie_count as usize, n);
    assert_eq!(g.zombie_timer, 0);
    assert!((2_000..=10_000).contains(&g.next_zombie_time));
    for z in &g.zombies {
        assert_eq!(z.x(), 900_000);
        assert!(!z.is_dead());
        // Lane centers only.
        let lane = (z.base_y - 80_000 - 50_000) / 100_000;
        assert!((0..5).contains(&lane));
        assert_eq!(z.base_y, lane * 100_000 + 50_000 + 80_000);
    }
}

#[test]
fn battle_is_lost_when_a_zombie_crosses_the_edge() {
    let mut g = fresh_game(vec![]);
    assert!(!g.is_lost());
    let mut z = create_zombie(ZombieType::Basic, 130_000);
    z.x = 0;
    g.zombies.push(z);
    assert!(!g.is_lost());
    g.zombies[0].x = -1;
    assert!(g.is_lost());
}

#[test]
fn full_frame_keeps_the_battle_consistent() {
    let mut g = fresh_game(vec![PlantType::Sunflower, PlantType::Peashooter]);
    for _ in 0..700 {
        g.update(16, 0, 450_000, 300_000, false);
    }
    // Eleven simulated seconds: the spawn timers must have fired.
    assert!(g.zombie_count >= 1);
    assert!(!g.suns.is_empty() || g.sun_points > 50);
    for z in &g.zombies {
        assert!(!z.is_dead());
        assert!(z.x() <= 900_000);
    }
}

#[test]
fn frame_rejects_unaffordable_placement() {
    // One whole frame: a press on a valid empty tile with a selected
    // type the player cannot afford changes nothing at all.
    let mut g = fresh_game(vec![PlantType::Peashooter]);
    g.plant_bar.handle_click(SLOT0_X, SLOT0_Y);
    g.update(16, 0, TILE00_X, TILE00_Y, true);
    assert_eq!(g.plants.len(), 0);
    assert_eq!(g.sun_points, 50);
    assert_eq!(g.plant_bar.selected, Some(PlantType::Peashooter));
    assert_eq!(g.plant_bar.slots[0].cooldown, 0);
}

#[test]
fn frame_commits_affordable_placement() {
    let mut g = fresh_game(vec![PlantType::Sunflower]);
    g.plant_bar.handle_click(SLOT0_X, SLOT0_Y);
    g.update(16, 0, TILE00_X, TILE00_Y, true);
    assert_eq!(g.plants.len(), 1);
    assert_eq!(g.plants[0].plant_type, PlantType::Sunflower);
    assert_eq!(g.plants[0].x, 50_000);
    assert_eq!(g.plants[0].y, 130_000);
    assert_eq!(g.sun_points, 0);
    assert_eq!(g.plant_bar.slots[0].cooldown, 7_500);
    assert!(g.plant_bar.selected.is_none());
}

#[test]
fn frame_excludes_dead_zombie_from_live_set() {
    // A zombie entering the frame with exhausted health is gone from the
    // live set when the frame ends.
    let mut g = fresh_game(vec![]);
    let mut z = create_zombie(ZombieType::Basic, 130_000);
    z.take_damage(100);
    g.zombies.push(z);
    g.update(16, 0, 450_000, 300_000, false);
    assert_eq!(g.zombies.len(), 0);
}

#[test]
fn frame_removes_collected_sun() {
    // A sun collected this frame is credited once and leaves the set by
    // the frame's end.
    let mut g = fresh_game(vec![]);
    g.suns.push(Sun {
        x: 300_000,
        y: 250_000,
        target_y: 250_000,
        speed: 60,
        collected: false,
        value: 25,
        source: SunSource::Natural,
    });
    g.update(16, 0, 300_000, 250_000, false);
    assert_eq!(g.sun_points, 75);
    assert_eq!(g.suns.len(), 0);
}
