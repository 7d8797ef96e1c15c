//! Construction of projectiles from a plant's shoot action.

use vstd::prelude::*;

use crate::config::SCREEN_HEIGHT;
use crate::config::SCREEN_WIDTH;
use crate::config::TILE_SIZE;
use crate::projectile::EXPLOSION_LIFETIME;
use crate::projectile::Instakill;
use crate::projectile::PEA_SPEED;
use crate::projectile::Projectile;

verus! {

/// The kind of projectile a shoot action asks for. The radius of an
/// area-effect kind is in milli-pixels.
#[derive(Copy, Clone, Debug, PartialEq, Eq, Structural)]
pub enum ProjectileKind {
    Normal,
    Slow,
    Instakill { radius: i64, tier: Instakill },
}

impl ProjectileKind {
    /// A kind a plant may legitimately ask for: an area-effect radius is
    /// positive and at most two tiles.
    pub open spec fn wf(self) -> bool {
        match self {
            ProjectileKind::Instakill { radius, tier } => 0 <= radius <= 2 * TILE_SIZE,
            _ => true,
        }
    }
}

/// The projectile a creation request yields: a pea flies at fixed speed
/// with its kind's damage; an area-effect charge sits still with a fixed
/// lifetime.
pub open spec fn created_projectile(kind: ProjectileKind, x: int, y: int) -> Projectile {
    match kind {
        ProjectileKind::Normal => Projectile {
            projectile_type: kind,
            x: x as i64,
            y: y as i64,
            speed: PEA_SPEED,
            damage: 20,
            lifetime: 0,
            active: true,
        },
        ProjectileKind::Slow => Projectile {
            projectile_type: kind,
            x: x as i64,
            y: y as i64,
            speed: PEA_SPEED,
            damage: 10,
            lifetime: 0,
            active: true,
        },
        ProjectileKind::Instakill { radius, tier } => Projectile {
            projectile_type: kind,
            x: x as i64,
            y: y as i64,
            speed: 0,
            damage: 0,
            lifetime: EXPLOSION_LIFETIME,
            active: true,
        },
    }
}

pub struct ProjectileFactory;

impl ProjectileFactory {
    /// Builds the projectile a shoot action asks for, at the muzzle
    /// position the action carries.
    pub fn create(kind: ProjectileKind, x: i64, y: i64) -> (p: Projectile)
        requires
            kind.wf(),
            0 <= x <= SCREEN_WIDTH,
            0 <= y <= SCREEN_HEIGHT,
        ensures
            p == created_projectile(kind, x as int, y as int),
            p.wf(),
            p.active,
    {
        match kind {
            ProjectileKind::Normal => Projectile {
                projectile_type: kind,
                x,
                y,
                speed: PEA_SPEED,
                damage: 20,
                lifetime: 0,
                active: true,
            },
            ProjectileKind::Slow => Projectile {
                projectile_type: kind,
                x,
                y,
                speed: PEA_SPEED,
                damage: 10,
                lifetime: 0,
                active: true,
            },
            ProjectileKind::Instakill { radius, tier } => Projectile {
                projectile_type: kind,
                x,
                y,
                speed: 0,
                damage: 0,
                lifetime: EXPLOSION_LIFETIME,
                active: true,
            },
        }
    }
}

} // verus!
