//! Sun pickups: the resource economy's currency.
//!
//! A sun falls toward a resting height and sits there until the pointer
//! comes within collection range; collection credits its value. Suns never
//! expire on their own — an uncollected sun stays forever, whether it fell
//! naturally or was produced by a plant.

use vstd::prelude::*;

use crate::config::MAX_FRAME_MS;
use crate::config::MOUSE_LIMIT;
use crate::config::ROWS;
use crate::config::SCREEN_HEIGHT;
use crate::config::SCREEN_WIDTH;
use crate::config::SUN_VALUE;
use crate::config::TILE_SIZE;
use crate::config::UI_BAR_HEIGHT;
use crate::config::X_FLOOR;

verus! {

/// How a sun came to be.
#[derive(Copy, Clone, Debug, PartialEq, Eq, Structural)]
pub enum SunSource {
    Natural,
    Plant,
}

/// Milli-pixels within which the pointer collects a sun.
pub const SUN_HOVER_RADIUS: i64 = 20_000;

/// Milli-pixels a plant-produced sun lands left or right of the plant.
pub const SUN_DROP_OFFSET: i64 = 20_000;

/// A sun pickup. Positions are milli-pixels; `speed` is pixels per second
/// of fall, so `speed * dt_ms` is an exact milli-pixel descent.
#[derive(Copy, Clone, Debug)]
pub struct Sun {
    pub x: i64,
    pub y: i64,
    /// Resting height the fall stops at.
    pub target_y: i64,
    pub speed: i64,
    pub collected: bool,
    pub value: i32,
    pub source: SunSource,
}

/// The sun after falling for `dt`: it descends `speed * dt` milli-pixels
/// but never past its resting height; a collected or rested sun stays put.
pub open spec fn sun_step(s: Sun, dt: int) -> Sun {
    if !s.collected && s.y < s.target_y {
        let ny = s.y + s.speed * dt;
        Sun {
            y: if ny > s.target_y {
                s.target_y
            } else {
                ny as i64
            },
            ..s
        }
    } else {
        s
    }
}

/// Whether the pointer at (mx, my) collects this sun: it is not yet
/// collected and the pointer is strictly within the hover radius.
pub open spec fn spec_hovered(s: Sun, mx: int, my: int) -> bool {
    &&& !s.collected
    &&& (mx - s.x) * (mx - s.x) + (my - s.y) * (my - s.y) < SUN_HOVER_RADIUS * SUN_HOVER_RADIUS
}

impl Sun {
    /// Well-formedness: on or near the board, still falling or rested,
    /// gentle speed, nonnegative value.
    pub open spec fn wf(self) -> bool {
        &&& X_FLOOR <= self.x <= SCREEN_WIDTH
        &&& 0 <= self.y <= self.target_y
        &&& self.target_y <= SCREEN_HEIGHT + TILE_SIZE
        &&& 0 <= self.speed <= 1000
        &&& 0 <= self.value
    }

    /// A sun produced by a plant at (x, y): it lands a small random
    /// offset to the left or right and drops half a tile below the plant.
    pub fn from_plant(x: i64, y: i64) -> (s: Sun)
        requires
            0 <= x <= SCREEN_WIDTH - TILE_SIZE / 2,
            0 <= y <= SCREEN_HEIGHT,
        ensures
            s.x == x - SUN_DROP_OFFSET || s.x == x + SUN_DROP_OFFSET,
            s.y == y,
            s.target_y == y + TILE_SIZE / 2,
            s.speed == 40,
            !s.collected,
            s.value == SUN_VALUE,
            s.source == SunSource::Plant,
            s.wf(),
    {
        let side = crate::rng::rand_in(0, 2);
        let offset_x: i64 = if side == 0 {
            -SUN_DROP_OFFSET
        } else {
            SUN_DROP_OFFSET
        };
        Sun {
            x: x + offset_x,
            y,
            target_y: y + TILE_SIZE / 2,
            speed: 40,
            collected: false,
            value: SUN_VALUE,
            source: SunSource::Plant,
        }
    }

    /// A naturally falling sun: it enters at the top at a random x well
    /// inside the screen and rests at a random height over the grid.
    pub fn natural() -> (s: Sun)
        ensures
            50_000 <= s.x <= SCREEN_WIDTH - 50_000,
            s.y == 0,
            200_000 <= s.target_y <= ROWS as i64 * TILE_SIZE + UI_BAR_HEIGHT - 50_000,
            s.speed == 60,
            !s.collected,
            s.value == SUN_VALUE,
            s.source == SunSource::Natural,
            s.wf(),
    {
        let x = crate::rng::rand_in(50_000, 850_000) as i64;
        let target_y = crate::rng::rand_in(200_000, 530_000) as i64;
        Sun {
            x,
            y: 0,
            target_y,
            speed: 60,
            collected: false,
            value: SUN_VALUE,
            source: SunSource::Natural,
        }
    }

    /// One falling step.
    pub fn update(&mut self, dt: i64)
        requires
            old(self).wf(),
            0 <= dt <= MAX_FRAME_MS,
        ensures
            *final(self) == sun_step(*old(self), dt as int),
            final(self).wf(),
    {
        if !self.collected && self.y < self.target_y {
            proof {
                assert(0 <= self.speed * dt <= 1000 * MAX_FRAME_MS) by (nonlinear_arith)
                    requires
                        0 <= self.speed <= 1000,
                        0 <= dt <= MAX_FRAME_MS,
                ;
            }
            let ny = self.y + self.speed * dt;
            self.y = if ny > self.target_y {
                self.target_y
            } else {
                ny
            };
        }
    }

    /// Collection test against the pointer: marks the sun collected and
    /// reports true exactly when the pointer is strictly within the hover
    /// radius of an uncollected sun.
    pub fn is_hovered(&mut self, mouse_x: i64, mouse_y: i64) -> (hit: bool)
        requires
            old(self).wf(),
            -MOUSE_LIMIT <= mouse_x <= MOUSE_LIMIT,
            -MOUSE_LIMIT <= mouse_y <= MOUSE_LIMIT,
        ensures
            hit == spec_hovered(*old(self), mouse_x as int, mouse_y as int),
            *final(self) == (Sun {
                collected: old(self).collected || hit,
                ..*old(self)
            }),
            final(self).wf(),
    {
        if !self.collected {
            let dx = mouse_x - self.x;
            let dy = mouse_y - self.y;
            proof {
                assert(-2_000_000_000 <= dx <= 2_000_000_000);
                assert(-2_000_000_000 <= dy <= 2_000_000_000);
                assert(0 <= dx * dx <= 4_000_000_000_000_000_000 && 0 <= dy * dy
                    <= 4_000_000_000_000_000_000) by (nonlinear_arith)
                    requires
                        -2_000_000_000 <= dx <= 2_000_000_000,
                        -2_000_000_000 <= dy <= 2_000_000_000,
                ;
            }
            if dx * dx + dy * dy < SUN_HOVER_RADIUS * SUN_HOVER_RADIUS {
                self.collected = true;
                return true;
            }
        }
        false
    }
}

} // verus!
