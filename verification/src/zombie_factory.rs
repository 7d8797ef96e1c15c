//! Weighted random zombie spawning.
//!
//! Every spawn resolves a rarity tier from a difficulty-scaled weight table
//! and then picks a variant out of that tier's pool. The weights are exact
//! integers: each base weight (in 1/10000) is multiplied by a difficulty
//! factor (500 +/- c * d) / 500 with d = min(total spawned, 50), so a tier's
//! scaled weight is `base * (500 +/- c * d)` out of a total that the roll is
//! drawn from.

use vstd::prelude::*;

use crate::config::SCREEN_HEIGHT;
use crate::config::SCREEN_WIDTH;
use crate::zombie::POLE_CARRY_OFFSET;
use crate::zombie::Zombie;
use crate::zombie::ZombieState;

verus! {

/// Rarity tiers, in the fixed order the roll walks them.
#[derive(Copy, Clone, Debug, PartialEq, Eq, Hash, Structural)]
pub enum Rarity {
    Common,
    Uncommon,
    Rare,
    Epic,
    Boss,
}

/// The zombie variants a spawn can produce.
#[derive(Copy, Clone, Debug, PartialEq, Eq, Hash, Structural)]
pub enum ZombieType {
    Basic,
    Conehead,
    Buckethead,
    PoleZombie,
}

/// Difficulty input to the weight table: the spawn count, saturating at 50.
pub open spec fn difficulty(count: u32) -> int {
    if count > 50 {
        50
    } else {
        count as int
    }
}

/// Scaled weight of one tier. Base weights (per 10000) are Common 8000,
/// Uncommon 1550, Rare 400, Epic 49, Boss 1; the difficulty multipliers are
/// 1 - 0.4d, 1 + 0.3d, 1 + 0.6d, 1 + d and 1 + 1.5d with d = difficulty/50,
/// written as exact fractions over 500.
pub open spec fn scaled_weight(tier: Rarity, count: u32) -> int {
    let d = difficulty(count);
    match tier {
        Rarity::Common => 8000 * (500 - 4 * d),
        Rarity::Uncommon => 1550 * (500 + 3 * d),
        Rarity::Rare => 400 * (500 + 6 * d),
        Rarity::Epic => 49 * (500 + 10 * d),
        Rarity::Boss => 1 * (500 + 15 * d),
    }
}

/// The range the rarity roll is drawn from.
pub open spec fn total_weight(count: u32) -> int {
    5_000_000 - 24_445 * difficulty(count)
}

/// The tier a given roll resolves to: the first tier whose cumulative
/// scaled weight exceeds the roll. A roll at or past the total falls back
/// to Common rather than failing the spawn.
pub open spec fn rarity_of_roll(count: u32, roll: int) -> Rarity {
    let c1 = scaled_weight(Rarity::Common, count);
    let c2 = c1 + scaled_weight(Rarity::Uncommon, count);
    let c3 = c2 + scaled_weight(Rarity::Rare, count);
    let c4 = c3 + scaled_weight(Rarity::Epic, count);
    let c5 = c4 + scaled_weight(Rarity::Boss, count);
    if roll < c1 {
        Rarity::Common
    } else if roll < c2 {
        Rarity::Uncommon
    } else if roll < c3 {
        Rarity::Rare
    } else if roll < c4 {
        Rarity::Epic
    } else if roll < c5 {
        Rarity::Boss
    } else {
        Rarity::Common
    }
}

/// The five scaled weights always renormalize exactly: they sum to the
/// total the roll is drawn from, and that total is positive, so the
/// cumulative walk over the five tiers covers the whole roll range.
pub proof fn lemma_rarity_weights_normalized(count: u32)
    ensures
        scaled_weight(Rarity::Common, count) + scaled_weight(Rarity::Uncommon, count)
            + scaled_weight(Rarity::Rare, count) + scaled_weight(Rarity::Epic, count)
            + scaled_weight(Rarity::Boss, count) == total_weight(count),
        total_weight(count) > 0,
{
}

/// Difficulty is monotone: while the spawn count climbs toward 50 the
/// probability of a Common spawn strictly falls and the probability of a
/// Boss spawn strictly rises; past 50 the distribution is frozen. The
/// probabilities are compared as cross-multiplied fractions
/// weight / total_weight.
pub proof fn lemma_difficulty_monotonic(t1: u32, t2: u32)
    requires
        t1 < t2,
    ensures
        t1 < 50 ==> scaled_weight(Rarity::Common, t1) * total_weight(t2) > scaled_weight(
            Rarity::Common,
            t2,
        ) * total_weight(t1),
        t1 < 50 ==> scaled_weight(Rarity::Boss, t1) * total_weight(t2) < scaled_weight(
            Rarity::Boss,
            t2,
        ) * total_weight(t1),
        t1 >= 50 ==> scaled_weight(Rarity::Common, t1) == scaled_weight(Rarity::Common, t2)
            && scaled_weight(Rarity::Boss, t1) == scaled_weight(Rarity::Boss, t2)
            && total_weight(t1) == total_weight(t2),
{
    let d1 = difficulty(t1);
    let d2 = difficulty(t2);
    assert(0 <= d1 <= 50);
    assert(0 <= d2 <= 50);
    assert(t1 < 50 ==> d1 < d2);
    assert(d1 < d2 ==> (8000 * (500 - 4 * d1)) * (5_000_000 - 24_445 * d2) > (8000 * (500 - 4
        * d2)) * (5_000_000 - 24_445 * d1)) by (nonlinear_arith)
        requires
            0 <= d1 <= 50,
            0 <= d2 <= 50,
    ;
    assert(d1 < d2 ==> (1 * (500 + 15 * d1)) * (5_000_000 - 24_445 * d2) < (1 * (500 + 15 * d2)) * (
    5_000_000 - 24_445 * d1)) by (nonlinear_arith)
        requires
            0 <= d1 <= 50,
            0 <= d2 <= 50,
    ;
}

/// The difficulty-scaled weight table, one entry per tier in roll order.
pub fn get_scaled_rarity_weights(count: u32) -> (weights: Vec<(Rarity, u32)>)
    ensures
        weights@.len() == 5,
        weights@[0] == (Rarity::Common, scaled_weight(Rarity::Common, count) as u32),
        weights@[1] == (Rarity::Uncommon, scaled_weight(Rarity::Uncommon, count) as u32),
        weights@[2] == (Rarity::Rare, scaled_weight(Rarity::Rare, count) as u32),
        weights@[3] == (Rarity::Epic, scaled_weight(Rarity::Epic, count) as u32),
        weights@[4] == (Rarity::Boss, scaled_weight(Rarity::Boss, count) as u32),
        forall|k: int| 0 <= k < 5 ==> #[trigger] (weights@[k].1 as int) == scaled_weight(
            weights@[k].0,
            count,
        ),
{
    let d: u32 = if count > 50 {
        50
    } else {
        count
    };
    let mut weights: Vec<(Rarity, u32)> = Vec::new();
    weights.push((Rarity::Common, 8000 * (500 - 4 * d)));
    weights.push((Rarity::Uncommon, 1550 * (500 + 3 * d)));
    weights.push((Rarity::Rare, 400 * (500 + 6 * d)));
    weights.push((Rarity::Epic, 49 * (500 + 10 * d)));
    weights.push((Rarity::Boss, 1 * (500 + 15 * d)));
    weights
}

/// Resolves a roll against the weight table: the walk over the tiers in
/// order returns the first tier whose cumulative weight exceeds the roll,
/// and falls back to Common if the roll is at or past the total.
pub fn resolve_rarity(count: u32, roll: u32) -> (tier: Rarity)
    ensures
        tier == rarity_of_roll(count, roll as int),
{
    proof {
        lemma_rarity_weights_normalized(count);
    }
    let weights = get_scaled_rarity_weights(count);
    let mut acc: u32 = 0;
    if roll < acc + weights[0].1 {
        return Rarity::Common;
    }
    acc = acc + weights[0].1;
    if roll < acc + weights[1].1 {
        return Rarity::Uncommon;
    }
    acc = acc + weights[1].1;
    if roll < acc + weights[2].1 {
        return Rarity::Rare;
    }
    acc = acc + weights[2].1;
    if roll < acc + weights[3].1 {
        return Rarity::Epic;
    }
    acc = acc + weights[3].1;
    if roll < acc + weights[4].1 {
        return Rarity::Boss;
    }
    Rarity::Common
}

/// Draws the rarity of the next spawn from the difficulty-scaled
/// distribution: a uniform roll over the total weight, resolved by the
/// cumulative walk.
pub fn pick_rarity(count: u32) -> (tier: Rarity)
    ensures
        exists|roll: int|
            0 <= roll <= total_weight(count) && tier == #[trigger] rarity_of_roll(count, roll),
{
    proof {
        lemma_rarity_weights_normalized(count);
    }
    let d: u32 = if count > 50 {
        50
    } else {
        count
    };
    let total: u32 = 5_000_000 - 24_445 * d;
    let roll = crate::rng::rand_in(0, total);
    resolve_rarity(count, roll)
}

/// The variant pool of one rarity tier. The Boss tier currently aliases
/// the strongest implemented variant.
pub fn zombies_by_rarity(rarity: Rarity) -> (pool: Vec<ZombieType>)
    ensures
        pool@ == pool_of(rarity),
        pool@.len() >= 1,
{
    let mut pool: Vec<ZombieType> = Vec::new();
    match rarity {
        Rarity::Common => {
            pool.push(ZombieType::Basic);
        },
        Rarity::Uncommon => {
            pool.push(ZombieType::Conehead);
            pool.push(ZombieType::PoleZombie);
        },
        Rarity::Rare => {
            pool.push(ZombieType::Conehead);
        },
        Rarity::Epic => {
            pool.push(ZombieType::Buckethead);
        },
        Rarity::Boss => {
            pool.push(ZombieType::Buckethead);
        },
    }
    proof {
        assert(pool@ =~= pool_of(rarity));
    }
    pool
}

/// The variants eligible for each tier.
pub open spec fn pool_of(rarity: Rarity) -> Seq<ZombieType> {
    match rarity {
        Rarity::Common => seq![ZombieType::Basic],
        Rarity::Uncommon => seq![ZombieType::Conehead, ZombieType::PoleZombie],
        Rarity::Rare => seq![ZombieType::Conehead],
        Rarity::Epic => seq![ZombieType::Buckethead],
        Rarity::Boss => seq![ZombieType::Buckethead],
    }
}

/// The zombie a spawn of the given variant yields, entering at the right
/// screen edge in the lane at row `y`. Stats per variant: a conehead has
/// 200 health, a buckethead 350, the others 100; the pole carrier walks
/// at 30 px/s until its vault, everything else at 20.
pub open spec fn new_zombie(zombie_type: ZombieType, y: int) -> Zombie {
    Zombie {
        zombie_type,
        x: SCREEN_WIDTH,
        y: y as i64,
        base_y: y as i64,
        health: match zombie_type {
            ZombieType::Basic => 100,
            ZombieType::Conehead => 200,
            ZombieType::Buckethead => 350,
            ZombieType::PoleZombie => 100,
        },
        speed: match zombie_type {
            ZombieType::PoleZombie => 30,
            _ => 20,
        },
        state: ZombieState::Walking,
        attack_damage: 20,
        attack_cooldown: 1_000,
        last_attack_time: 0,
        slow_timer: 0,
        slowed: false,
        has_pole: zombie_type == ZombieType::PoleZombie,
        jump_start_x: 0,
        jump_target_x: 0,
        jump_progress: 0,
        pole_x: (SCREEN_WIDTH + POLE_CARRY_OFFSET) as i64,
    }
}

/// Builds a fresh zombie of the given variant in the lane at row `y`.
pub fn create_zombie(zombie_type: ZombieType, y: i64) -> (z: Zombie)
    requires
        0 <= y <= SCREEN_HEIGHT,
    ensures
        z == new_zombie(zombie_type, y as int),
        z.wf(),
{
    let health: i32 = match zombie_type {
        ZombieType::Basic => 100,
        ZombieType::Conehead => 200,
        ZombieType::Buckethead => 350,
        ZombieType::PoleZombie => 100,
    };
    let speed: i64 = match zombie_type {
        ZombieType::PoleZombie => 30,
        _ => 20,
    };
    let has_pole = match zombie_type {
        ZombieType::PoleZombie => true,
        _ => false,
    };
    Zombie {
        zombie_type,
        x: SCREEN_WIDTH,
        y,
        base_y: y,
        health,
        speed,
        state: ZombieState::Walking,
        attack_damage: 20,
        attack_cooldown: 1_000,
        last_attack_time: 0,
        slow_timer: 0,
        slowed: false,
        has_pole,
        jump_start_x: 0,
        jump_target_x: 0,
        jump_progress: 0,
        pole_x: SCREEN_WIDTH + POLE_CARRY_OFFSET,
    }
}

/// Spawns one zombie in the lane at row `y`: the rarity is drawn from the
/// difficulty-scaled distribution for the given spawn count, then a
/// variant is drawn uniformly from that tier's pool.
pub fn spawn_random_zombie(y: i64, count: u32) -> (z: Zombie)
    requires
        0 <= y <= SCREEN_HEIGHT,
    ensures
        exists|zt: ZombieType| z == #[trigger] new_zombie(zt, y as int),
        z.wf(),
        !z.spec_is_dead(),
        z.x == SCREEN_WIDTH,
        z.base_y == y,
{
    let rarity = pick_rarity(count);
    let pool = zombies_by_rarity(rarity);
    let raw = crate::rng::rand_in(0, pool.len() as u32) as usize;
    let idx = if raw >= pool.len() {
        pool.len() - 1
    } else {
        raw
    };
    let zombie_type = pool[idx];
    let z = create_zombie(zombie_type, y);
    proof {
        assert(z == new_zombie(pool@[idx as int], y as int));
    }
    z
}

} // verus!
