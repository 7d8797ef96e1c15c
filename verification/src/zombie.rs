//! Zombies: the advancing attackers.
//!
//! A zombie walks its lane leftward, bites the first plant it runs into,
//! and dies when its health is gone. One variant carries a pole and vaults
//! over the first plant it meets instead of attacking it. All behavior sits
//! in [`Zombie::update`]; the transition it implements is written out by
//! [`zombie_step`] and [`zombie_step_plants`].

use vstd::prelude::*;

use crate::config::MAX_FRAME_MS;
use crate::config::SCREEN_HEIGHT;
use crate::config::SCREEN_WIDTH;
use crate::config::X_FLOOR;
use crate::plant::Plant;
use crate::projectile::Instakill;
use crate::zombie_factory::ZombieType;

verus! {

/// The discrete state of a zombie. Dead is terminal; Jumping is only
/// entered by the pole-carrying variant.
#[derive(Copy, Clone, Debug, PartialEq, Eq, Hash, Structural)]
pub enum ZombieState {
    Walking,
    Attacking,
    Jumping,
    Dead,
}

/// Milliseconds a slow effect lasts once applied.
pub const SLOW_DURATION: i64 = 2_500;

/// Milli-pixels of row offset and of advance distance within which a
/// zombie engages a plant.
pub const BITE_RANGE: i64 = 40_000;

/// Peak height of a pole vault, in milli-pixels.
pub const JUMP_PEAK: i64 = 60_000;

/// Horizontal distance a successful vault clears, in milli-pixels.
pub const JUMP_CLEARANCE: i64 = 80_000;

/// A zombie. Positions are milli-pixels, timers milliseconds; `speed` is
/// pixels per second, so `speed * dt_ms` is an exact milli-pixel advance.
#[derive(Copy, Clone, Debug)]
pub struct Zombie {
    pub zombie_type: ZombieType,
    pub x: i64,
    pub y: i64,
    /// The fixed lane row; `y` leaves it only mid-vault.
    pub base_y: i64,
    pub health: i32,
    pub speed: i64,
    pub state: ZombieState,
    pub attack_damage: i32,
    pub attack_cooldown: i64,
    pub last_attack_time: i64,
    pub slow_timer: i64,
    /// True while the slow effect halves the speed.
    pub slowed: bool,
    pub has_pole: bool,
    pub jump_start_x: i64,
    pub jump_target_x: i64,
    /// Vault progress in 1/1000 of the arc.
    pub jump_progress: i64,
    pub pole_x: i64,
}

/// Milli-pixels behind itself a walking pole carrier trails its pole.
pub const POLE_CARRY_OFFSET: i64 = 15_000;

/// Milli-pixels in front of a vault where the pole is left planted.
pub const POLE_PLANT_OFFSET: i64 = 30_000;

/// Pixels per second a pole carrier walks after its vault.
pub const LANDED_SPEED: i64 = 20;

/// Whether plant `p` stands in the zombie's way: strictly within the bite
/// range of the zombie's position on both axes.
pub open spec fn blocks(z: Zombie, p: Plant) -> bool {
    &&& -BITE_RANGE < p.y - z.y < BITE_RANGE
    &&& -BITE_RANGE < p.x - z.x < BITE_RANGE
}

/// Index of the first plant at or after `i` that blocks the zombie, or
/// the set's length if none does.
pub open spec fn first_block_from(plants: Seq<Plant>, z: Zombie, i: int) -> int
    decreases plants.len() - i,
{
    if i < 0 || i >= plants.len() {
        plants.len() as int
    } else if blocks(z, plants[i]) {
        i
    } else {
        first_block_from(plants, z, i + 1)
    }
}

/// If no plant before `i` blocks, the first block overall is the first
/// block at or after `i`.
pub proof fn lemma_first_block_prefix(plants: Seq<Plant>, z: Zombie, i: int)
    requires
        0 <= i <= plants.len(),
        forall|j: int| 0 <= j < i ==> !blocks(z, plants[j]),
    ensures
        first_block_from(plants, z, 0) == first_block_from(plants, z, i),
    decreases i,
{
    if i > 0 {
        lemma_first_block_prefix(plants, z, i - 1);
    }
}

/// The zombie after its slow status ticked down by `dt`: the timer sinks
/// toward zero and the speed multiplier snaps back to full exactly when
/// it gets there.
pub open spec fn slow_ticked(z: Zombie, dt: int) -> Zombie {
    if z.slow_timer > 0 {
        let t = crate::plant::ticked_timer(z.slow_timer as int, dt) as i64;
        Zombie {
            slow_timer: t,
            slowed: if t == 0 {
                false
            } else {
                z.slowed
            },
            ..z
        }
    } else {
        z
    }
}

/// Advance speed in pixels per second: halved while slowed (exact, since
/// well-formed speeds are even).
pub open spec fn effective_speed(z: Zombie) -> int {
    if z.slowed {
        z.speed as int / 2
    } else {
        z.speed as int
    }
}

/// The zombie after walking for `dt`: it advances leftward by
/// `effective_speed * dt` milli-pixels, clamped at the western floor, and
/// trails its pole behind itself.
pub open spec fn walked(z: Zombie, dt: int) -> Zombie {
    let nx = z.x - effective_speed(z) * dt;
    let cx = if nx < X_FLOOR {
        X_FLOOR as int
    } else {
        nx
    };
    Zombie {
        state: ZombieState::Walking,
        x: cx as i64,
        pole_x: (cx + POLE_CARRY_OFFSET) as i64,
        ..z
    }
}

/// The zombie at the moment it starts a vault: the arc runs from its
/// position to one clearance behind the obstacle — or nowhere, if the
/// obstacle is too tall — and the pole stays planted in front of it.
pub open spec fn start_jump(z: Zombie, tall: bool) -> Zombie {
    Zombie {
        state: ZombieState::Jumping,
        jump_start_x: z.x,
        jump_target_x: if tall {
            z.x
        } else {
            (z.x - JUMP_CLEARANCE) as i64
        },
        jump_progress: 0,
        pole_x: (z.x - POLE_PLANT_OFFSET) as i64,
        ..z
    }
}

/// One step of a vault in flight. Progress runs in 1/1000 of the arc at
/// double real time; at completion the zombie lands on the target, loses
/// the pole and slows to the landed walking speed. In flight, x moves
/// linearly from start to target while y follows the parabola
/// `(1 - (2t - 1)^2) * peak` over normalized progress t.
pub open spec fn jump_step(z: Zombie, dt: int) -> Zombie {
    let p = z.jump_progress + 2 * dt;
    if p >= 1000 {
        Zombie {
            x: z.jump_target_x,
            y: z.base_y,
            state: ZombieState::Walking,
            has_pole: false,
            speed: LANDED_SPEED,
            jump_progress: p as i64,
            ..z
        }
    } else {
        let d = z.jump_start_x - z.jump_target_x;
        let sq = (2 * p - 1000) * (2 * p - 1000);
        Zombie {
            x: (z.jump_start_x - d * p / 1000) as i64,
            y: (z.base_y - (1_000_000 - sq) * JUMP_PEAK / 1_000_000) as i64,
            jump_progress: p as i64,
            ..z
        }
    }
}

/// The zombie while it gnaws on a plant: damage ticks are rate-limited
/// by the attack cooldown against the absolute clock, so the timestamp
/// advances exactly when a damage tick lands.
pub open spec fn attack_tick(z: Zombie, now: int) -> Zombie {
    Zombie {
        state: ZombieState::Attacking,
        last_attack_time: if now - z.last_attack_time >= z.attack_cooldown {
            now as i64
        } else {
            z.last_attack_time
        },
        ..z
    }
}

/// Death is terminal: a Dead zombie's update step changes nothing — it
/// never moves, attacks, or re-enters Walking.
pub proof fn lemma_death_is_terminal(z: Zombie, dt: int, now: int, plants: Seq<Plant>)
    requires
        z.state == ZombieState::Dead,
    ensures
        zombie_step(z, dt, now, plants) == z,
        zombie_step_plants(z, dt, now, plants) == plants,
{
}

/// While walking, a zombie's x never increases: the advance is leftward,
/// down to the western floor.
pub proof fn lemma_walking_advances_monotonically(z: Zombie, dt: int)
    requires
        z.wf(),
        0 <= dt,
    ensures
        walked(z, dt).x <= z.x,
        walked(z, dt).x >= X_FLOOR,
{
    assert(effective_speed(z) * dt >= 0) by (nonlinear_arith)
        requires
            effective_speed(z) >= 0,
            dt >= 0,
    ;
}

/// The slow status over the model: applying it halves the advance speed
/// at once; the tick on which the timer runs out restores the full speed
/// and clears the flag; and a zombie whose slow already ended is left
/// untouched by further ticks, so the multiplier returns to full exactly
/// once and never oscillates.
pub proof fn lemma_slow_effect(z: Zombie, dt: int, duration: int)
    requires
        z.wf(),
        0 <= dt,
        0 < duration,
    ensures
        effective_speed(Zombie { slow_timer: duration as i64, slowed: true, ..z }) == z.speed
            / 2,
        (z.slowed && 0 < z.slow_timer <= dt) ==> !slow_ticked(z, dt).slowed && slow_ticked(
            z,
            dt,
        ).slow_timer == 0 && effective_speed(slow_ticked(z, dt)) == z.speed,
        (z.slowed && z.slow_timer > dt) ==> slow_ticked(z, dt).slowed && effective_speed(
            slow_ticked(z, dt),
        ) == z.speed / 2,
        (z.slow_timer == 0) ==> slow_ticked(z, dt) == z && effective_speed(slow_ticked(z, dt))
            == z.speed,
{
}

/// Death check after a step: health at or below zero is terminal.
pub open spec fn mark_dead(z: Zombie) -> Zombie {
    if z.health <= 0 {
        Zombie { state: ZombieState::Dead, ..z }
    } else {
        z
    }
}

/// The zombie after one full update step: nothing if already dead; else
/// the slow status ticks, then a vault in flight advances, or the first
/// blocking plant is vaulted (with pole) or attacked (without), or the
/// zombie walks; finally exhausted health turns the state Dead.
pub open spec fn zombie_step(z: Zombie, dt: int, now: int, plants: Seq<Plant>) -> Zombie {
    if z.state == ZombieState::Dead {
        z
    } else {
        let z1 = slow_ticked(z, dt);
        let z2 = if z1.state == ZombieState::Jumping {
            jump_step(z1, dt)
        } else {
            let zb = Zombie { y: z1.base_y, ..z1 };
            let i = first_block_from(plants, zb, 0);
            if i < plants.len() {
                if zb.has_pole {
                    start_jump(zb, plants[i].spec_is_tall())
                } else {
                    attack_tick(zb, now)
                }
            } else {
                walked(zb, dt)
            }
        };
        mark_dead(z2)
    }
}

/// The plant set after one update step of the zombie: the first blocking
/// plant loses `attack_damage` health exactly when a poleless zombie's
/// attack cooldown has elapsed; no other case touches a plant.
pub open spec fn zombie_step_plants(z: Zombie, dt: int, now: int, plants: Seq<Plant>) -> Seq<
    Plant,
> {
    if z.state == ZombieState::Dead {
        plants
    } else {
        let z1 = slow_ticked(z, dt);
        if z1.state == ZombieState::Jumping {
            plants
        } else {
            let zb = Zombie { y: z1.base_y, ..z1 };
            let i = first_block_from(plants, zb, 0);
            if i < plants.len() && !zb.has_pole && now - zb.last_attack_time
                >= zb.attack_cooldown {
                plants.update(
                    i,
                    Plant {
                        health: Plant::spec_damaged(
                            plants[i].health as int,
                            zb.attack_damage as int,
                        ) as i32,
                        ..plants[i]
                    },
                )
            } else {
                plants
            }
        }
    }
}

impl Zombie {
    /// Well-formedness: positions bounded, timers nonnegative, the slow
    /// flag never outlives its timer, the speed even (so halving it is
    /// exact) and a vault's endpoints ordered and on the board.
    pub open spec fn wf(self) -> bool {
        &&& X_FLOOR <= self.x <= SCREEN_WIDTH
        &&& 0 <= self.base_y <= SCREEN_HEIGHT
        &&& self.base_y - JUMP_PEAK <= self.y <= self.base_y
        &&& 0 <= self.slow_timer
        &&& (self.slow_timer == 0 ==> !self.slowed)
        &&& 0 <= self.last_attack_time
        &&& 0 <= self.speed <= 1000
        &&& self.speed % 2 == 0
        &&& 0 <= self.attack_damage
        &&& 0 < self.attack_cooldown
        &&& (self.state == ZombieState::Jumping ==> {
            &&& 0 <= self.jump_progress < 1000
            &&& X_FLOOR <= self.jump_target_x <= self.jump_start_x <= SCREEN_WIDTH
        })
    }

    /// A dead zombie: removed from the live set at the next sweep.
    pub open spec fn spec_is_dead(self) -> bool {
        self.state == ZombieState::Dead
    }

    pub fn x(&self) -> (r: i64)
        ensures
            r == self.x,
    {
        self.x
    }

    pub fn y(&self) -> (r: i64)
        ensures
            r == self.y,
    {
        self.y
    }

    pub fn health(&self) -> (r: i32)
        ensures
            r == self.health,
    {
        self.health
    }

    pub fn is_dead(&self) -> (r: bool)
        ensures
            r == self.spec_is_dead(),
    {
        match self.state {
            ZombieState::Dead => true,
            _ => false,
        }
    }

    /// Speed multiplier from the slow status, in percent: 50 while slowed,
    /// 100 otherwise.
    pub fn speed_multiplier_percent(&self) -> (r: u32)
        ensures
            r == (if self.slowed {
                50u32
            } else {
                100u32
            }),
    {
        if self.slowed {
            50
        } else {
            100
        }
    }

    /// Health after a hit of `amount`, floored at the type's minimum.
    pub open spec fn spec_damaged(health: int, amount: int) -> int {
        if health - amount < i32::MIN {
            i32::MIN as int
        } else {
            health - amount
        }
    }

    /// Take a hit: health drops by `amount`.
    pub fn take_damage(&mut self, amount: i32)
        requires
            0 <= amount,
        ensures
            *final(self) == (Zombie { health: final(self).health, ..*old(self) }),
            final(self).health == Self::spec_damaged(old(self).health as int, amount as int),
    {
        let h: i64 = (self.health as i64) - (amount as i64);
        self.health = if h < (i32::MIN as i64) {
            i32::MIN
        } else {
            h as i32
        };
    }

    /// Apply the slow status: the speed multiplier drops to 50% at once
    /// and stays there until the timer runs out.
    pub fn apply_slow(&mut self, duration: i64)
        requires
            0 < duration,
        ensures
            *final(self) == (Zombie { slow_timer: duration, slowed: true, ..*old(self) }),
    {
        self.slow_timer = duration;
        self.slowed = true;
    }

    /// One full update step against the live plant set; implements
    /// exactly the transition of [`zombie_step`] and [`zombie_step_plants`].
    pub fn update(&mut self, dt: i64, now: i64, plants: &mut Vec<Plant>)
        requires
            old(self).wf(),
            0 <= dt <= MAX_FRAME_MS,
            0 <= now,
            forall|i: int| 0 <= i < old(plants)@.len() ==> (#[trigger] old(plants)@[i]).wf(),
        ensures
            *final(self) == zombie_step(*old(self), dt as int, now as int, old(plants)@),
            final(plants)@ == zombie_step_plants(*old(self), dt as int, now as int, old(plants)@),
            final(self).wf(),
            final(plants)@.len() == old(plants)@.len(),
            forall|i: int| 0 <= i < final(plants)@.len() ==> (#[trigger] final(plants)@[i]).wf(),
    {
        if self.state == ZombieState::Dead {
            return;
        }
        if self.slow_timer > 0 {
            let t: i64 = if self.slow_timer - dt < 0 {
                0
            } else {
                self.slow_timer - dt
            };
            self.slow_timer = t;
            if t == 0 {
                self.slowed = false;
            }
        }
        proof {
            assert(*self == slow_ticked(*old(self), dt as int));
        }
        let z1: Ghost<Zombie> = Ghost(*self);
        if self.state == ZombieState::Jumping {
            self.jump_progress = self.jump_progress + 2 * dt;
            if self.jump_progress >= 1000 {
                self.x = self.jump_target_x;
                self.y = self.base_y;
                self.state = ZombieState::Walking;
                self.has_pole = false;
                self.speed = LANDED_SPEED;
            } else {
                let t = self.jump_progress;
                let d = self.jump_start_x - self.jump_target_x;
                proof {
                    assert(0 <= t < 1000);
                    assert(0 <= d <= SCREEN_WIDTH - X_FLOOR);
                    assert(0 <= d * t <= d * 1000) by (nonlinear_arith)
                        requires
                            0 <= t < 1000,
                            0 <= d,
                    ;
                    assert((2 * t - 1000) * (2 * t - 1000) <= 1_000_000 && (2 * t - 1000) * (2 * t
                        - 1000) >= 0) by (nonlinear_arith)
                        requires
                            0 <= t < 1000,
                    ;
                }
                let sq = (2 * t - 1000) * (2 * t - 1000);
                self.x = self.jump_start_x - d * t / 1000;
                self.y = self.base_y - (1_000_000 - sq) * JUMP_PEAK / 1_000_000;
                proof {
                    assert(d * t / 1000 <= d) by (nonlinear_arith)
                        requires
                            0 <= t < 1000,
                            0 <= d,
                    ;
                    assert(0 <= (1_000_000 - sq) * JUMP_PEAK / 1_000_000 <= JUMP_PEAK)
                        by (nonlinear_arith)
                        requires
                            0 <= sq <= 1_000_000,
                            JUMP_PEAK == 60_000,
                    ;
                }
            }
        } else {
            self.y = self.base_y;
            let zb: Ghost<Zombie> = Ghost(*self);
            let mut i: usize = 0;
            let n = plants.len();
            let mut found: bool = false;
            while i < n && !found
                invariant
                    0 <= i <= n,
                    n == plants@.len(),
                    *self == zb@,
                    self.wf(),
                    plants@ == old(plants)@,
                    forall|j: int| 0 <= j < plants@.len() ==> (#[trigger] plants@[j]).wf(),
                    forall|j: int| 0 <= j < i ==> !blocks(zb@, plants@[j]),
                    found ==> i < n && blocks(zb@, plants@[i as int]),
                decreases n - i + (if found {
                    0int
                } else {
                    1int
                }),
            {
                let px = plants[i].x;
                let py = plants[i].y;
                let dy: i64 = py - self.y;
                let dx: i64 = px - self.x;
                if -BITE_RANGE < dy && dy < BITE_RANGE && -BITE_RANGE < dx && dx < BITE_RANGE {
                    found = true;
                } else {
                    i = i + 1;
                }
            }
            proof {
                lemma_first_block_prefix(plants@, zb@, i as int);
                if found {
                    assert(first_block_from(plants@, zb@, 0) == i);
                } else {
                    assert(first_block_from(plants@, zb@, 0) == plants@.len());
                }
            }
            if found {
                if self.has_pole {
                    self.state = ZombieState::Jumping;
                    self.jump_start_x = self.x;
                    if plants[i].is_tall() {
                        self.jump_target_x = self.x;
                    } else {
                        self.jump_target_x = self.x - JUMP_CLEARANCE;
                    }
                    self.jump_progress = 0;
                    self.pole_x = self.x - POLE_PLANT_OFFSET;
                } else {
                    self.state = ZombieState::Attacking;
                    if now - self.last_attack_time >= self.attack_cooldown {
                        self.last_attack_time = now;
                        let dmg = self.attack_damage;
                        plants[i].take_damage(dmg);
                    }
                }
            } else {
                self.state = ZombieState::Walking;
                let eff: i64 = if self.slowed {
                    self.speed / 2
                } else {
                    self.speed
                };
                proof {
                    assert(0 <= eff * dt <= 1000 * MAX_FRAME_MS) by (nonlinear_arith)
                        requires
                            0 <= eff <= 1000,
                            0 <= dt <= MAX_FRAME_MS,
                    ;
                }
                let nx = self.x - eff * dt;
                self.x = if nx < X_FLOOR {
                    X_FLOOR
                } else {
                    nx
                };
                self.pole_x = self.x + POLE_CARRY_OFFSET;
            }
        }
        if self.health <= 0 {
            self.state = ZombieState::Dead;
        }
    }

    /// An area-effect hit: health is forced to zero outright. A partial
    /// resistance policy exists as data (`Instakill::hp_fraction`)
    /// but is not wired in; every tier kills.
    pub fn is_instakill(&mut self, tier: Instakill)
        ensures
            *final(self) == (Zombie { health: 0, ..*old(self) }),
    {
        let _ = tier;
        self.health = 0;
    }
}

} // verus!
