//! The plant roster: per-type stats and construction.

use vstd::prelude::*;

use crate::config::SCREEN_HEIGHT;
use crate::config::SCREEN_WIDTH;
use crate::config::TILE_SIZE;
use crate::plant::Plant;

verus! {

/// The plant types a player can field.
#[derive(Copy, Clone, Debug, PartialEq, Eq, Hash, Structural)]
pub enum PlantType {
    Sunflower,
    Peashooter,
    SlowPeashooter,
    PotatoMine,
    Wallnut,
    CherryBomb,
}

impl PlantType {
    /// Sun cost of placing this type.
    pub open spec fn spec_cost(self) -> int {
        match self {
            PlantType::Peashooter => 100,
            PlantType::Sunflower => 50,
            PlantType::SlowPeashooter => 125,
            PlantType::PotatoMine => 25,
            PlantType::Wallnut => 50,
            PlantType::CherryBomb => 150,
        }
    }

    /// Sun cost of placing this type.
    pub fn cost(&self) -> (c: i32)
        ensures
            c == self.spec_cost(),
    {
        match self {
            PlantType::Peashooter => 100,
            PlantType::Sunflower => 50,
            PlantType::SlowPeashooter => 125,
            PlantType::PotatoMine => 25,
            PlantType::Wallnut => 50,
            PlantType::CherryBomb => 150,
        }
    }

    /// Placement cooldown of this type, in milliseconds.
    pub open spec fn spec_cooldown_time(self) -> int {
        match self {
            PlantType::Peashooter => 5_000,
            PlantType::Sunflower => 7_500,
            PlantType::SlowPeashooter => 7_500,
            PlantType::PotatoMine => 25_000,
            PlantType::Wallnut => 30_000,
            PlantType::CherryBomb => 30_000,
        }
    }

    /// Placement cooldown of this type, in milliseconds.
    pub fn cooldown_time(&self) -> (c: i64)
        ensures
            c == self.spec_cooldown_time(),
    {
        match self {
            PlantType::Peashooter => 5_000,
            PlantType::Sunflower => 7_500,
            PlantType::SlowPeashooter => 7_500,
            PlantType::PotatoMine => 25_000,
            PlantType::Wallnut => 30_000,
            PlantType::CherryBomb => 30_000,
        }
    }

    /// One line of flavor text for the selection screen.
    pub fn description(&self) -> &'static str {
        match self {
            PlantType::Peashooter => "Shoots peas at zombies.",
            PlantType::Sunflower => "Produces sun over time.",
            PlantType::SlowPeashooter => "Shoots peas that slow down zombies.",
            PlantType::PotatoMine => "Explodes when a zombie steps on it when fully grown.",
            PlantType::Wallnut => "A sturdy wall that blocks zombies.",
            PlantType::CherryBomb => "A cherry that explodes and damages all zombies in an area.",
        }
    }

    /// Every plant type, in roster order.
    pub fn all() -> (types: Vec<PlantType>)
        ensures
            types@ == seq![
                PlantType::Sunflower,
                PlantType::Peashooter,
                PlantType::SlowPeashooter,
                PlantType::PotatoMine,
                PlantType::Wallnut,
                PlantType::CherryBomb,
            ],
    {
        let mut types: Vec<PlantType> = Vec::new();
        types.push(PlantType::Sunflower);
        types.push(PlantType::Peashooter);
        types.push(PlantType::SlowPeashooter);
        types.push(PlantType::PotatoMine);
        types.push(PlantType::Wallnut);
        types.push(PlantType::CherryBomb);
        proof {
            assert(types@ =~= seq![
                PlantType::Sunflower,
                PlantType::Peashooter,
                PlantType::SlowPeashooter,
                PlantType::PotatoMine,
                PlantType::Wallnut,
                PlantType::CherryBomb,
            ]);
        }
        types
    }

    /// Health a fresh plant of this type starts with.
    pub open spec fn initial_health(self) -> int {
        match self {
            PlantType::Peashooter => 100,
            PlantType::Sunflower => 80,
            PlantType::SlowPeashooter => 100,
            PlantType::PotatoMine => 100,
            PlantType::Wallnut => 500,
            PlantType::CherryBomb => 100,
        }
    }

    /// Value the internal action timer of a fresh plant starts at, in
    /// milliseconds: a shooter starts charged, a sunflower two seconds
    /// from its first sun, a mine at its full arming delay, a cherry bomb
    /// at its fuse.
    pub open spec fn initial_timer(self) -> int {
        match self {
            PlantType::Peashooter => 0,
            PlantType::Sunflower => 2_000,
            PlantType::SlowPeashooter => 0,
            PlantType::PotatoMine => 14_000,
            PlantType::Wallnut => 0,
            PlantType::CherryBomb => 1_500,
        }
    }

    /// Cadence the action timer resets to when this type acts, in
    /// milliseconds.
    pub open spec fn cadence(self) -> int {
        match self {
            PlantType::Peashooter => 1_500,
            PlantType::Sunflower => 5_000,
            PlantType::SlowPeashooter => 1_500,
            PlantType::PotatoMine => 14_000,
            PlantType::Wallnut => 0,
            PlantType::CherryBomb => 0,
        }
    }

    /// How far ahead (milli-pixels) a shooter or mine looks for a target.
    pub open spec fn attack_range(self) -> int {
        match self {
            PlantType::Peashooter => 800_000,
            PlantType::SlowPeashooter => 800_000,
            PlantType::PotatoMine => TILE_SIZE / 2,
            _ => 0,
        }
    }
}

/// The plant a placement at (x, y) yields.
pub open spec fn new_plant(plant_type: PlantType, x: int, y: int) -> Plant {
    Plant {
        plant_type,
        x: x as i64,
        y: y as i64,
        timer: plant_type.initial_timer() as i64,
        health: plant_type.initial_health() as i32,
    }
}

/// Builds a fresh plant of the given type at a tile center.
pub fn create_plant(plant_type: PlantType, x: i64, y: i64) -> (p: Plant)
    requires
        0 <= x <= SCREEN_WIDTH - TILE_SIZE / 2,
        0 <= y <= SCREEN_HEIGHT,
    ensures
        p == new_plant(plant_type, x as int, y as int),
        p.wf(),
{
    let timer: i64 = match plant_type {
        PlantType::Peashooter => 0,
        PlantType::Sunflower => 2_000,
        PlantType::SlowPeashooter => 0,
        PlantType::PotatoMine => 14_000,
        PlantType::Wallnut => 0,
        PlantType::CherryBomb => 1_500,
    };
    let health: i32 = match plant_type {
        PlantType::Peashooter => 100,
        PlantType::Sunflower => 80,
        PlantType::SlowPeashooter => 100,
        PlantType::PotatoMine => 100,
        PlantType::Wallnut => 500,
        PlantType::CherryBomb => 100,
    };
    Plant { plant_type, x, y, timer, health }
}

} // verus!
