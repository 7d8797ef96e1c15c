//! Plants: the defending entities.
//!
//! A plant never moves; each frame its update decrements an internal
//! action timer and may emit one action — shoot a projectile, produce a
//! sun, or blow itself up. The exact transition is written out by
//! [`plant_step`] and [`plant_action`].

use vstd::prelude::*;

use crate::config::MAX_FRAME_MS;
use crate::config::SCREEN_HEIGHT;
use crate::config::SCREEN_WIDTH;
use crate::config::TILE_HEIGHT;
use crate::config::TILE_SIZE;
use crate::plant_factory::PlantType;
use crate::projectile::Instakill;
use crate::projectile_factory::ProjectileKind;
use crate::zombie::Zombie;

verus! {

/// Milli-pixels in front of a shooter where its projectile appears.
pub const MUZZLE_OFFSET: i64 = 25_000;

/// Blast radius of a triggered potato mine, in milli-pixels.
pub const MINE_BLAST_RADIUS: i64 = 150_000;

/// Blast radius of a cherry bomb, in milli-pixels.
pub const CHERRY_BLAST_RADIUS: i64 = 180_000;

/// The side effect a plant's update asks the orchestrator to perform.
#[derive(Copy, Clone, Debug, PartialEq, Eq, Structural)]
pub enum PlantAction {
    Shoot { kind: ProjectileKind, x: i64, y: i64 },
    ProduceSun { x: i64, y: i64 },
}

/// A plant, rooted at a tile center. Positions are milli-pixels, the
/// timer milliseconds.
#[derive(Copy, Clone, Debug)]
pub struct Plant {
    pub plant_type: PlantType,
    pub x: i64,
    pub y: i64,
    /// Counts down to the plant's next action; never negative.
    pub timer: i64,
    pub health: i32,
}

/// A countdown timer after `dt` elapsed: it sinks to zero and stays there.
pub open spec fn ticked_timer(timer: int, dt: int) -> int {
    if timer - dt < 0 {
        0
    } else {
        timer - dt
    }
}

/// Whether a zombie is a valid target for this plant: alive, strictly
/// within half a tile of the plant's row (the boundary itself is
/// excluded), strictly ahead of the plant, and no farther than the
/// plant's attack range.
pub open spec fn is_valid_target(p: Plant, z: Zombie) -> bool {
    &&& !z.spec_is_dead()
    &&& -(TILE_HEIGHT / 2) < z.y - p.y < TILE_HEIGHT / 2
    &&& z.x > p.x
    &&& z.x - p.x <= p.plant_type.attack_range()
}

/// Whether any zombie in the set is a valid target for this plant.
pub open spec fn spec_has_target(p: Plant, zombies: Seq<Zombie>) -> bool {
    exists|i: int| 0 <= i < zombies.len() && is_valid_target(p, zombies[i])
}

/// The plant after one update step.
pub open spec fn plant_step(p: Plant, dt: int, zombies: Seq<Zombie>) -> Plant {
    let t = ticked_timer(p.timer as int, dt) as i64;
    match p.plant_type {
        PlantType::Peashooter | PlantType::SlowPeashooter => {
            if spec_has_target(p, zombies) && t == 0 {
                Plant { timer: p.plant_type.cadence() as i64, ..p }
            } else {
                Plant { timer: t, ..p }
            }
        },
        PlantType::Sunflower => {
            if t == 0 {
                Plant { timer: p.plant_type.cadence() as i64, ..p }
            } else {
                Plant { timer: t, ..p }
            }
        },
        PlantType::PotatoMine => {
            if spec_has_target(p, zombies) && t == 0 {
                Plant { timer: p.plant_type.cadence() as i64, health: 0, ..p }
            } else {
                Plant { timer: t, ..p }
            }
        },
        PlantType::Wallnut => Plant { timer: t, ..p },
        PlantType::CherryBomb => {
            if t == 0 {
                Plant { timer: t, health: 0, ..p }
            } else {
                Plant { timer: t, ..p }
            }
        },
    }
}

/// The action one update step emits, if any: a shooter with a ready timer
/// and a valid target fires its pea; a sunflower with a ready timer
/// produces a sun; a ready mine with a target and a burnt-down cherry
/// fuse emit their blasts.
pub open spec fn plant_action(p: Plant, dt: int, zombies: Seq<Zombie>) -> Option<PlantAction> {
    let t = ticked_timer(p.timer as int, dt);
    match p.plant_type {
        PlantType::Peashooter => {
            if spec_has_target(p, zombies) && t == 0 {
                Some(
                    PlantAction::Shoot {
                        kind: ProjectileKind::Normal,
                        x: (p.x + MUZZLE_OFFSET) as i64,
                        y: p.y,
                    },
                )
            } else {
                None
            }
        },
        PlantType::SlowPeashooter => {
            if spec_has_target(p, zombies) && t == 0 {
                Some(
                    PlantAction::Shoot {
                        kind: ProjectileKind::Slow,
                        x: (p.x + MUZZLE_OFFSET) as i64,
                        y: p.y,
                    },
                )
            } else {
                None
            }
        },
        PlantType::Sunflower => {
            if t == 0 {
                Some(PlantAction::ProduceSun { x: p.x, y: p.y })
            } else {
                None
            }
        },
        PlantType::PotatoMine => {
            if spec_has_target(p, zombies) && t == 0 {
                Some(
                    PlantAction::Shoot {
                        kind: ProjectileKind::Instakill {
                            radius: MINE_BLAST_RADIUS,
                            tier: Instakill::Low,
                        },
                        x: p.x,
                        y: p.y,
                    },
                )
            } else {
                None
            }
        },
        PlantType::Wallnut => None,
        PlantType::CherryBomb => {
            if t == 0 {
                Some(
                    PlantAction::Shoot {
                        kind: ProjectileKind::Instakill {
                            radius: CHERRY_BLAST_RADIUS,
                            tier: Instakill::Medium,
                        },
                        x: p.x,
                        y: p.y,
                    },
                )
            } else {
                None
            }
        },
    }
}

/// The targeting boundary is exclusive: a zombie whose row offset is
/// exactly half a tile is no target; one strictly inside the tolerance
/// that also stands ahead, within range and alive, is.
pub proof fn lemma_targeting_boundary(p: Plant, z: Zombie)
    ensures
        (z.y - p.y == TILE_HEIGHT / 2 || z.y - p.y == -(TILE_HEIGHT / 2)) ==> !is_valid_target(
            p,
            z,
        ),
        (!z.spec_is_dead() && -(TILE_HEIGHT / 2) < z.y - p.y < TILE_HEIGHT / 2 && z.x > p.x && z.x
            - p.x <= p.plant_type.attack_range()) ==> is_valid_target(p, z),
{
}

/// Cooldown gating for a shooter with a valid target: while time is left
/// on the timer no action comes out and the timer just burns down; the
/// step the timer reaches zero emits exactly one shoot action and resets
/// the timer to the configured cadence.
pub proof fn lemma_cooldown_gating(p: Plant, dt: int, zombies: Seq<Zombie>)
    requires
        p.plant_type == PlantType::Peashooter || p.plant_type == PlantType::SlowPeashooter,
        spec_has_target(p, zombies),
        0 <= dt,
    ensures
        p.timer - dt > 0 ==> plant_action(p, dt, zombies) is None && plant_step(
            p,
            dt,
            zombies,
        ).timer == p.timer - dt,
        p.timer - dt <= 0 ==> plant_action(p, dt, zombies) == Some(
            PlantAction::Shoot {
                kind: if p.plant_type == PlantType::Peashooter {
                    ProjectileKind::Normal
                } else {
                    ProjectileKind::Slow
                },
                x: (p.x + MUZZLE_OFFSET) as i64,
                y: p.y,
            },
        ) && plant_step(p, dt, zombies).timer == p.plant_type.cadence(),
{
}

/// Any action a well-formed plant emits is well-formed itself: the
/// requested projectile kind is valid and the muzzle or drop position is
/// on the board.
pub proof fn lemma_plant_action_bounds(p: Plant, dt: int, zombies: Seq<Zombie>)
    requires
        p.wf(),
    ensures
        match plant_action(p, dt, zombies) {
            Some(PlantAction::Shoot { kind, x, y }) => kind.wf() && 0 <= x <= SCREEN_WIDTH && 0
                <= y <= SCREEN_HEIGHT,
            Some(PlantAction::ProduceSun { x, y }) => 0 <= x <= SCREEN_WIDTH - TILE_SIZE / 2 && 0
                <= y <= SCREEN_HEIGHT,
            None => true,
        },
{
}

impl Plant {
    /// Well-formedness: rooted at a tile center on the board (so a muzzle
    /// offset stays on the board), timer nonnegative.
    pub open spec fn wf(self) -> bool {
        &&& 0 <= self.x <= SCREEN_WIDTH - TILE_SIZE / 2
        &&& 0 <= self.y <= SCREEN_HEIGHT
        &&& 0 <= self.timer
    }

    pub open spec fn spec_is_dead(self) -> bool {
        self.health <= 0
    }

    pub fn x(&self) -> (r: i64)
        ensures
            r == self.x,
    {
        self.x
    }

    pub fn y(&self) -> (r: i64)
        ensures
            r == self.y,
    {
        self.y
    }

    pub fn health(&self) -> (r: i32)
        ensures
            r == self.health,
    {
        self.health
    }

    pub fn is_dead(&self) -> (r: bool)
        ensures
            r == self.spec_is_dead(),
    {
        self.health <= 0
    }

    /// Whether this plant stands too tall to be vaulted over. Every type
    /// in the current roster is short; the flag is what the vault logic
    /// consumes.
    pub open spec fn spec_is_tall(self) -> bool {
        false
    }

    /// Whether this plant stands too tall to be vaulted over.
    pub fn is_tall(&self) -> (r: bool)
        ensures
            r == self.spec_is_tall(),
    {
        false
    }

    /// Health after a hit of `amount`, floored at the type's minimum.
    pub open spec fn spec_damaged(health: int, amount: int) -> int {
        if health - amount < i32::MIN {
            i32::MIN as int
        } else {
            health - amount
        }
    }

    /// Take a bite: health drops by `amount`.
    pub fn take_damage(&mut self, amount: i32)
        requires
            0 <= amount,
        ensures
            *final(self) == (Plant { health: final(self).health, ..*old(self) }),
            final(self).health == Self::spec_damaged(old(self).health as int, amount as int),
    {
        let h: i64 = (self.health as i64) - (amount as i64);
        self.health = if h < (i32::MIN as i64) {
            i32::MIN
        } else {
            h as i32
        };
    }

    /// Whether any zombie in the set is a valid target for this plant.
    pub fn has_target(&self, zombies: &Vec<Zombie>) -> (found: bool)
        requires
            self.wf(),
            forall|i: int| 0 <= i < zombies@.len() ==> (#[trigger] zombies@[i]).wf(),
        ensures
            found == spec_has_target(*self, zombies@),
    {
        let range: i64 = match self.plant_type {
            PlantType::Peashooter => 800_000,
            PlantType::SlowPeashooter => 800_000,
            PlantType::PotatoMine => TILE_SIZE / 2,
            _ => 0,
        };
        let mut i: usize = 0;
        while i < zombies.len()
            invariant
                0 <= i <= zombies@.len(),
                self.wf(),
                forall|j: int| 0 <= j < zombies@.len() ==> (#[trigger] zombies@[j]).wf(),
                range == self.plant_type.attack_range(),
                forall|j: int| 0 <= j < i ==> !is_valid_target(*self, zombies@[j]),
            decreases zombies@.len() - i,
        {
            let z = &zombies[i];
            let dy: i64 = z.y - self.y;
            if -(TILE_HEIGHT / 2) < dy && dy < TILE_HEIGHT / 2 && z.x > self.x && z.x - self.x
                <= range && !z.is_dead() {
                return true;
            }
            i = i + 1;
        }
        false
    }

    /// One update step: the action timer burns down by `dt` and the
    /// type's behavior decides whether an action comes out. A shooter
    /// without a target keeps its timer at zero (charged); a triggered
    /// mine and a burnt-down cherry bomb zero their own health.
    pub fn update(&mut self, dt: i64, zombies: &Vec<Zombie>) -> (action: Option<PlantAction>)
        requires
            old(self).wf(),
            0 <= dt <= MAX_FRAME_MS,
            forall|i: int| 0 <= i < zombies@.len() ==> (#[trigger] zombies@[i]).wf(),
        ensures
            *final(self) == plant_step(*old(self), dt as int, zombies@),
            action == plant_action(*old(self), dt as int, zombies@),
            final(self).wf(),
    {
        let t: i64 = if self.timer - dt < 0 {
            0
        } else {
            self.timer - dt
        };
        match self.plant_type {
            PlantType::Peashooter => {
                if self.has_target(zombies) && t == 0 {
                    self.timer = 1_500;
                    Some(
                        PlantAction::Shoot {
                            kind: ProjectileKind::Normal,
                            x: self.x + MUZZLE_OFFSET,
                            y: self.y,
                        },
                    )
                } else {
                    self.timer = t;
                    None
                }
            },
            PlantType::SlowPeashooter => {
                if self.has_target(zombies) && t == 0 {
                    self.timer = 1_500;
                    Some(
                        PlantAction::Shoot {
                            kind: ProjectileKind::Slow,
                            x: self.x + MUZZLE_OFFSET,
                            y: self.y,
                        },
                    )
                } else {
                    self.timer = t;
                    None
                }
            },
            PlantType::Sunflower => {
                if t == 0 {
                    self.timer = 5_000;
                    Some(PlantAction::ProduceSun { x: self.x, y: self.y })
                } else {
                    self.timer = t;
                    None
                }
            },
            PlantType::PotatoMine => {
                if self.has_target(zombies) && t == 0 {
                    self.timer = 14_000;
                    self.health = 0;
                    Some(
                        PlantAction::Shoot {
                            kind: ProjectileKind::Instakill {
                                radius: MINE_BLAST_RADIUS,
                                tier: Instakill::Low,
                            },
                            x: self.x,
                            y: self.y,
                        },
                    )
                } else {
                    self.timer = t;
                    None
                }
            },
            PlantType::Wallnut => {
                self.timer = t;
                None
            },
            PlantType::CherryBomb => {
                self.timer = t;
                if t == 0 {
                    self.health = 0;
                    Some(
                        PlantAction::Shoot {
                            kind: ProjectileKind::Instakill {
                                radius: CHERRY_BLAST_RADIUS,
                                tier: Instakill::Medium,
                            },
                            x: self.x,
                            y: self.y,
                        },
                    )
                } else {
                    None
                }
            },
        }
    }
}

} // verus!
