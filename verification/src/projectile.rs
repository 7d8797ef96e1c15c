//! Projectiles: what plants fire.
//!
//! A kinetic projectile (pea) flies rightward and damages the first zombie
//! it touches; an area-effect projectile sits still for a short lifetime
//! and forces every zombie in its radius to zero health.

use vstd::prelude::*;

use crate::config::MAX_FRAME_MS;
use crate::config::SCREEN_HEIGHT;
use crate::config::SCREEN_WIDTH;
use crate::config::TILE_HEIGHT;
use crate::config::TILE_SIZE;
use crate::config::X_FLOOR;
use crate::projectile_factory::ProjectileKind;
use crate::zombie::SLOW_DURATION;
use crate::zombie::Zombie;

verus! {

/// Potency tiers of an area-effect projectile.
#[derive(Copy, Clone, Debug, PartialEq, Eq, Structural)]
pub enum Instakill {
    Low,
    Medium,
    High,
}

impl Instakill {
    /// The fraction of its maximum health (in 1/1000) a zombie that
    /// resists an area-effect hit would lose instead. Defined as data only:
    /// no execution path consults it, an area-effect hit always kills.
    pub fn hp_fraction(&self) -> (r: u32)
        ensures
            r == (match *self {
                Instakill::Low => 100u32,
                Instakill::Medium => 250u32,
                Instakill::High => 500u32,
            }),
    {
        match self {
            Instakill::Low => 100,
            Instakill::Medium => 250,
            Instakill::High => 500,
        }
    }
}

/// Pixel radius (milli-pixels) within which a kinetic projectile hits.
pub const HIT_RADIUS: i64 = 20_000;

/// Speed of a kinetic projectile, in pixels per second.
pub const PEA_SPEED: i64 = 300;

/// Lifetime of an area-effect projectile, in milliseconds.
pub const EXPLOSION_LIFETIME: i64 = 600;

/// A projectile. Positions are milli-pixels, the lifetime milliseconds;
/// `speed` is pixels per second, so `speed * dt_ms` is an exact
/// milli-pixel advance.
#[derive(Copy, Clone, Debug)]
pub struct Projectile {
    pub projectile_type: ProjectileKind,
    pub x: i64,
    pub y: i64,
    pub speed: i64,
    pub damage: i32,
    pub lifetime: i64,
    pub active: bool,
}

/// Whether a pea at the position of `pr` touches zombie `z`: the zombie is
/// alive, strictly within half a tile of the pea's row, and strictly
/// within the hit radius along the lane.
pub open spec fn kinetic_hits(pr: Projectile, z: Zombie) -> bool {
    &&& !z.spec_is_dead()
    &&& -(TILE_HEIGHT / 2) < z.y - pr.y < TILE_HEIGHT / 2
    &&& -HIT_RADIUS < z.x - pr.x < HIT_RADIUS
}

/// Index of the first zombie at or after `i` that the pea touches, or the
/// set's length if none does.
pub open spec fn first_hit_from(zombies: Seq<Zombie>, pr: Projectile, i: int) -> int
    decreases zombies.len() - i,
{
    if i < 0 || i >= zombies.len() {
        zombies.len() as int
    } else if kinetic_hits(pr, zombies[i]) {
        i
    } else {
        first_hit_from(zombies, pr, i + 1)
    }
}

/// If no zombie before `i` is touched, the first hit overall is the first
/// hit at or after `i`.
pub proof fn lemma_first_hit_prefix(zombies: Seq<Zombie>, pr: Projectile, i: int)
    requires
        0 <= i <= zombies.len(),
        forall|j: int| 0 <= j < i ==> !kinetic_hits(pr, zombies[j]),
    ensures
        first_hit_from(zombies, pr, 0) == first_hit_from(zombies, pr, i),
    decreases i,
{
    if i > 0 {
        lemma_first_hit_prefix(zombies, pr, i - 1);
    }
}

/// A zombie after a pea hit: damaged, and slowed if the pea slows.
pub open spec fn pea_hit_effect(z: Zombie, damage: int, slow: bool) -> Zombie {
    let zd = Zombie { health: Zombie::spec_damaged(z.health as int, damage) as i32, ..z };
    if slow {
        Zombie { slow_timer: SLOW_DURATION, slowed: true, ..zd }
    } else {
        zd
    }
}

/// A zombie after one step of an area-effect charge: forced to zero
/// health if alive and within the blast radius, untouched otherwise.
pub open spec fn blast_effect(z: Zombie, pr: Projectile, radius: int) -> Zombie {
    if !z.spec_is_dead() && (z.x - pr.x) * (z.x - pr.x) + (z.y - pr.y) * (z.y - pr.y) <= radius
        * radius {
        Zombie { health: 0, ..z }
    } else {
        z
    }
}

/// The projectile after one update step.
pub open spec fn proj_step(pr: Projectile, dt: int, zombies: Seq<Zombie>) -> Projectile {
    match pr.projectile_type {
        ProjectileKind::Normal | ProjectileKind::Slow => {
            let x = (pr.x + pr.speed * dt) as i64;
            if x > SCREEN_WIDTH {
                Projectile { x, active: false, ..pr }
            } else {
                let moved = Projectile { x, ..pr };
                if first_hit_from(zombies, moved, 0) < zombies.len() {
                    Projectile { active: false, ..moved }
                } else {
                    moved
                }
            }
        },
        ProjectileKind::Instakill { radius, tier } => {
            let l = if pr.lifetime - dt < 0 {
                0
            } else {
                pr.lifetime - dt
            };
            Projectile {
                lifetime: l as i64,
                active: if l == 0 {
                    false
                } else {
                    pr.active
                },
                ..pr
            }
        },
    }
}

/// The zombie set after one update step of the projectile.
pub open spec fn proj_step_zombies(pr: Projectile, dt: int, zombies: Seq<Zombie>) -> Seq<Zombie> {
    match pr.projectile_type {
        ProjectileKind::Normal | ProjectileKind::Slow => {
            let x = (pr.x + pr.speed * dt) as i64;
            if x > SCREEN_WIDTH {
                zombies
            } else {
                let moved = Projectile { x, ..pr };
                let i = first_hit_from(zombies, moved, 0);
                if i < zombies.len() {
                    zombies.update(
                        i,
                        pea_hit_effect(
                            zombies[i],
                            pr.damage as int,
                            pr.projectile_type == ProjectileKind::Slow,
                        ),
                    )
                } else {
                    zombies
                }
            }
        },
        ProjectileKind::Instakill { radius, tier } => Seq::new(
            zombies.len(),
            |i: int| blast_effect(zombies[i], pr, radius as int),
        ),
    }
}

impl Projectile {
    /// Well-formedness: stats pinned per kind, position on the board (an
    /// inactive pea may rest up to one frame's travel past the right edge).
    pub open spec fn wf(self) -> bool {
        &&& 0 <= self.y <= SCREEN_HEIGHT
        &&& 0 <= self.lifetime
        &&& match self.projectile_type {
            ProjectileKind::Normal => {
                &&& self.speed == PEA_SPEED
                &&& self.damage == 20
                &&& X_FLOOR <= self.x <= SCREEN_WIDTH + PEA_SPEED * MAX_FRAME_MS
                &&& (self.active ==> self.x <= SCREEN_WIDTH)
            },
            ProjectileKind::Slow => {
                &&& self.speed == PEA_SPEED
                &&& self.damage == 10
                &&& X_FLOOR <= self.x <= SCREEN_WIDTH + PEA_SPEED * MAX_FRAME_MS
                &&& (self.active ==> self.x <= SCREEN_WIDTH)
            },
            ProjectileKind::Instakill { radius, tier } => {
                &&& self.speed == 0
                &&& self.damage == 0
                &&& 0 <= self.x <= SCREEN_WIDTH
                &&& 0 <= radius <= 2 * TILE_SIZE
            },
        }
    }

    /// One update step. A pea advances `speed * dt` milli-pixels, dies
    /// when it leaves the right edge, and otherwise damages (and, for the
    /// slow kind, slows) the first zombie in collection order that it
    /// touches, deactivating itself on the hit. An area-effect charge
    /// burns its lifetime down, kills every live zombie in its radius
    /// each step, and deactivates once the lifetime is gone.
    pub fn update(&mut self, dt: i64, zombies: &mut Vec<Zombie>)
        requires
            old(self).wf(),
            old(self).active,
            0 <= dt <= MAX_FRAME_MS,
            forall|i: int|
                0 <= i < old(zombies)@.len() ==> (#[trigger] old(zombies)@[i]).wf(),
        ensures
            *final(self) == proj_step(*old(self), dt as int, old(zombies)@),
            final(zombies)@ == proj_step_zombies(*old(self), dt as int, old(zombies)@),
            final(self).wf(),
            final(zombies)@.len() == old(zombies)@.len(),
            forall|i: int|
                0 <= i < final(zombies)@.len() ==> (#[trigger] final(zombies)@[i]).wf(),
    {
        match self.projectile_type {
            ProjectileKind::Normal | ProjectileKind::Slow => {
                let slow = match self.projectile_type {
                    ProjectileKind::Slow => true,
                    _ => false,
                };
                proof {
                    assert(self.speed == PEA_SPEED);
                    assert(self.speed * dt <= PEA_SPEED * MAX_FRAME_MS) by (nonlinear_arith)
                        requires
                            self.speed == PEA_SPEED,
                            0 <= dt <= MAX_FRAME_MS,
                    ;
                    assert(self.speed * dt >= 0) by (nonlinear_arith)
                        requires
                            self.speed >= 0,
                            dt >= 0,
                    ;
                }
                self.x = self.x + self.speed * dt;
                if self.x > SCREEN_WIDTH {
                    self.active = false;
                    return;
                }
                let moved: Ghost<Projectile> = Ghost(*self);
                let mut i: usize = 0;
                while i < zombies.len()
                    invariant
                        0 <= i <= zombies@.len(),
                        *self == moved@,
                        moved@ == (Projectile {
                            x: (old(self).x + old(self).speed * dt) as i64,
                            ..*old(self)
                        }),
                        moved@.x <= SCREEN_WIDTH,
                        slow == (old(self).projectile_type == ProjectileKind::Slow),
                        old(self).projectile_type == ProjectileKind::Normal || old(
                            self,
                        ).projectile_type == ProjectileKind::Slow,
                        self.wf(),
                        self.active,
                        zombies@ == old(zombies)@,
                        forall|j: int|
                            0 <= j < zombies@.len() ==> (#[trigger] zombies@[j]).wf(),
                        forall|j: int| 0 <= j < i ==> !kinetic_hits(moved@, zombies@[j]),
                    decreases zombies@.len() - i,
                {
                    let zx = zombies[i].x;
                    let zy = zombies[i].y;
                    let dead = zombies[i].is_dead();
                    let dy: i64 = zy - self.y;
                    let dx: i64 = zx - self.x;
                    if !dead && -(TILE_HEIGHT / 2) < dy && dy < TILE_HEIGHT / 2 && -HIT_RADIUS < dx
                        && dx < HIT_RADIUS {
                        let dmg = self.damage;
                        zombies[i].take_damage(dmg);
                        if slow {
                            zombies[i].apply_slow(SLOW_DURATION);
                        }
                        self.active = false;
                        proof {
                            lemma_first_hit_prefix(old(zombies)@, moved@, i as int);
                            assert(first_hit_from(old(zombies)@, moved@, 0) == i);
                            assert(slow == (old(self).projectile_type == ProjectileKind::Slow));
                            assert(zombies@ =~= old(zombies)@.update(
                                i as int,
                                pea_hit_effect(old(zombies)@[i as int], old(self).damage as int, slow),
                            ));
                        }
                        return;
                    }
                    i = i + 1;
                }
                proof {
                    lemma_first_hit_prefix(old(zombies)@, moved@, zombies@.len() as int);
                }
            },
            ProjectileKind::Instakill { radius, tier } => {
                self.lifetime = if self.lifetime - dt < 0 {
                    0
                } else {
                    self.lifetime - dt
                };
                let mut i: usize = 0;
                while i < zombies.len()
                    invariant
                        0 <= i <= zombies@.len(),
                        *self == (Projectile { lifetime: self.lifetime, ..*old(self) }),
                        self.lifetime == crate::plant::ticked_timer(old(self).lifetime as int, dt as int),
                        self.wf(),
                        0 <= radius <= 2 * TILE_SIZE,
                        old(self).projectile_type == (ProjectileKind::Instakill { radius, tier }),
                        0 <= dt <= MAX_FRAME_MS,
                        zombies@.len() == old(zombies)@.len(),
                        forall|j: int|
                            0 <= j < zombies@.len() ==> (#[trigger] zombies@[j]).wf(),
                        forall|j: int|
                            i <= j < zombies@.len() ==> zombies@[j] == old(zombies)@[j],
                        forall|j: int|
                            0 <= j < i ==> zombies@[j] == blast_effect(
                                old(zombies)@[j],
                                *old(self),
                                radius as int,
                            ),
                    decreases zombies@.len() - i,
                {
                    let zx = zombies[i].x;
                    let zy = zombies[i].y;
                    let dead = zombies[i].is_dead();
                    let dx: i64 = zx - self.x;
                    let dy: i64 = zy - self.y;
                    proof {
                        assert(-2_000_000 <= dx <= 2_000_000);
                        assert(-2_000_000 <= dy <= 2_000_000);
                        assert(0 <= dx * dx <= 4_000_000_000_000 && 0 <= dy * dy
                            <= 4_000_000_000_000) by (nonlinear_arith)
                            requires
                                -2_000_000 <= dx <= 2_000_000,
                                -2_000_000 <= dy <= 2_000_000,
                        ;
                        assert(0 <= radius * radius <= 40_000_000_000) by (nonlinear_arith)
                            requires
                                0 <= radius <= 200_000,
                        ;
                    }
                    if !dead && dx * dx + dy * dy <= radius * radius {
                        zombies[i].is_instakill(tier);
                    }
                    i = i + 1;
                }
                if self.lifetime == 0 {
                    self.active = false;
                }
                proof {
                    assert(zombies@ =~= proj_step_zombies(*old(self), dt as int, old(zombies)@));
                }
            },
        }
    }

    pub fn is_active(&self) -> (r: bool)
        ensures
            r == self.active,
    {
        self.active
    }

    /// Remaining lifetime of an area-effect projectile, for the renderer's
    /// fade; zero for kinetic kinds.
    pub fn remaining_lifetime(&self) -> (r: i64)
        ensures
            r == self.lifetime,
    {
        self.lifetime
    }
}

} // verus!
