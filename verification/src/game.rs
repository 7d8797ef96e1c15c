//! The simulation orchestrator: owns every live entity collection and
//! runs the fixed per-frame sequence — cooldowns, sun collection,
//! placement, plant updates and action routing, projectile resolution,
//! pruning, zombie updates, and the two random spawn timers.

use vstd::prelude::*;

use crate::config::MAX_FRAME_MS;
use crate::config::MAX_SELECTED_PLANTS;
use crate::config::MAX_ZOMBIE_SPAWN;
use crate::config::MOUSE_LIMIT;
use crate::config::NATURAL_SUN_MAX_INTERVAL;
use crate::config::NATURAL_SUN_MIN_INTERVAL;
use crate::config::NATURAL_ZOMBIE_MAX_SPAWN_INTERVAL;
use crate::config::NATURAL_ZOMBIE_MIN_SPAWN_INTERVAL;
use crate::config::ROWS;
use crate::config::SCREEN_WIDTH;
use crate::config::TILE_SIZE;
use crate::config::UI_BAR_HEIGHT;
use crate::grid::Grid;
use crate::grid::Tile;
use crate::grid::tile_lookup;
use crate::plant::Plant;
use crate::plant::PlantAction;
use crate::plant::lemma_plant_action_bounds;
use crate::plant::plant_action;
use crate::plant::plant_step;
use crate::plant::ticked_timer;
use crate::plant_bar::UIBar;
use crate::plant_bar::SUN_BOX_WIDTH;
use crate::plant_bar::UISlot;
use crate::plant_bar::first_slot_of_type_from;
use crate::plant_bar::lemma_first_slot_of_type_prefix;
use crate::plant_factory::PlantType;
use crate::plant_factory::create_plant;
use crate::plant_factory::new_plant;
use crate::projectile::Projectile;
use crate::projectile::proj_step;
use crate::projectile::proj_step_zombies;
use crate::projectile_factory::ProjectileFactory;
use crate::projectile_factory::created_projectile;
use crate::config::SUN_VALUE;
use crate::sun::SUN_DROP_OFFSET;
use crate::sun::Sun;
use crate::sun::SunSource;
use crate::sun::spec_hovered;
use crate::sun::sun_step;
use crate::zombie::Zombie;
use crate::zombie_factory::ZombieType;
use crate::zombie_factory::new_zombie;
use crate::zombie::zombie_step;
use crate::zombie::zombie_step_plants;

verus! {

/// Sun points a battle starts with.
pub const STARTING_SUN_POINTS: i32 = 50;

/// An i32 sum that stops at the type's ceiling instead of wrapping.
pub open spec fn sat_add_i32(a: int, b: int) -> int {
    if a + b > i32::MAX {
        i32::MAX as int
    } else {
        a + b
    }
}

/// The resource counter after walking the sun set in order and crediting
/// every sun the pointer collects.
pub open spec fn credited_points(suns: Seq<Sun>, mx: int, my: int, points: int) -> int
    decreases suns.len(),
{
    if suns.len() == 0 {
        points
    } else {
        let p1 = if spec_hovered(suns[0], mx, my) {
            sat_add_i32(points, suns[0].value as int)
        } else {
            points
        };
        credited_points(suns.drop_first(), mx, my, p1)
    }
}

/// Whether a plant already stands within half a tile of (cx, cy) on both
/// axes — the occupancy test placement runs against every live plant.
pub open spec fn spec_occupied(plants: Seq<Plant>, cx: int, cy: int) -> bool {
    exists|i: int|
        0 <= i < plants.len() && -(TILE_SIZE / 2) < (#[trigger] plants[i]).x - cx < TILE_SIZE / 2
            && -(TILE_SIZE / 2) < plants[i].y - cy < TILE_SIZE / 2
}

/// Whether a placement attempt at the pointer goes through, and with
/// what, given the pieces of state placement reads: the bar has a
/// selection, the player can afford it, the pointer is on a free tile,
/// and the type's placement cooldown is ready.
pub open spec fn placement_from(
    selected: Option<PlantType>,
    sun_points: int,
    plants: Seq<Plant>,
    slots: Seq<UISlot>,
    mx: int,
    my: int,
) -> Option<(PlantType, int, Tile)> {
    match selected {
        Some(t) => if sun_points >= t.spec_cost() {
            match tile_lookup(mx, my) {
                Some(tile) => {
                    let cx = tile.x + TILE_SIZE / 2;
                    let cy = tile.y + TILE_SIZE / 2;
                    if !spec_occupied(plants, cx, cy) {
                        let si = first_slot_of_type_from(slots, t, 0);
                        if si < slots.len() && slots[si].cooldown == 0 {
                            Some((t, si, tile))
                        } else {
                            None
                        }
                    } else {
                        None
                    }
                },
                None => None,
            }
        } else {
            None
        },
        None => None,
    }
}

/// Whether a placement attempt at the pointer goes through on this
/// state, and with what.
pub open spec fn placement(g: Game, mx: int, my: int) -> Option<(PlantType, int, Tile)> {
    placement_from(
        g.plant_bar.selected,
        g.sun_points as int,
        g.plants@,
        g.plant_bar.slots@,
        mx,
        my,
    )
}

/// The plant set after every plant took one update step. Plants read the
/// zombie set but never write it, so the steps are independent.
pub open spec fn stepped_plants(plants: Seq<Plant>, dt: int, zombies: Seq<Zombie>) -> Seq<Plant> {
    Seq::new(plants.len(), |i: int| plant_step(plants[i], dt, zombies))
}

/// The projectiles the plants' shoot actions ask for, in plant order.
pub open spec fn shot_projectiles(plants: Seq<Plant>, dt: int, zombies: Seq<Zombie>) -> Seq<
    Projectile,
>
    decreases plants.len(),
{
    if plants.len() == 0 {
        Seq::empty()
    } else {
        let front = shot_projectiles(plants.drop_last(), dt, zombies);
        match plant_action(plants.last(), dt, zombies) {
            Some(PlantAction::Shoot { kind, x, y }) => front.push(
                created_projectile(kind, x as int, y as int),
            ),
            _ => front,
        }
    }
}

/// The positions of the plants' produce-sun actions, in plant order.
pub open spec fn produced_positions(plants: Seq<Plant>, dt: int, zombies: Seq<Zombie>) -> Seq<
    (i64, i64),
>
    decreases plants.len(),
{
    if plants.len() == 0 {
        Seq::empty()
    } else {
        let front = produced_positions(plants.drop_last(), dt, zombies);
        match plant_action(plants.last(), dt, zombies) {
            Some(PlantAction::ProduceSun { x, y }) => front.push((x, y)),
            _ => front,
        }
    }
}

/// What a sun produced at (px, py) looks like: dropped one small offset
/// to either side, falling half a tile, with the configured value.
pub open spec fn dropped_sun(s: Sun, px: int, py: int) -> bool {
    &&& (s.x == px - SUN_DROP_OFFSET || s.x == px + SUN_DROP_OFFSET)
    &&& s.y == py
    &&& s.target_y == py + TILE_SIZE / 2
    &&& s.speed == 40
    &&& !s.collected
    &&& s.value == SUN_VALUE
    &&& s.source == SunSource::Plant
}

/// The live projectiles and the zombie set after every projectile in
/// order took one update step against the zombies the previous steps
/// left behind.
pub open spec fn step_projectiles_rec(projs: Seq<Projectile>, zombies: Seq<Zombie>, dt: int) -> (
    Seq<Projectile>,
    Seq<Zombie>,
)
    decreases projs.len(),
{
    if projs.len() == 0 {
        (Seq::<Projectile>::empty(), zombies)
    } else {
        let p1 = proj_step(projs[0], dt, zombies);
        let zs1 = proj_step_zombies(projs[0], dt, zombies);
        let rest = step_projectiles_rec(projs.drop_first(), zs1, dt);
        (seq![p1] + rest.0, rest.1)
    }
}

/// The zombie set and the plant set after every zombie in order took one
/// update step against the plants the previous steps left behind.
pub open spec fn step_zombies_rec(zombies: Seq<Zombie>, plants: Seq<Plant>, dt: int, now: int) -> (
    Seq<Zombie>,
    Seq<Plant>,
)
    decreases zombies.len(),
{
    if zombies.len() == 0 {
        (Seq::<Zombie>::empty(), plants)
    } else {
        let z1 = zombie_step(zombies[0], dt, now, plants);
        let ps1 = zombie_step_plants(zombies[0], dt, now, plants);
        let rest = step_zombies_rec(zombies.drop_first(), ps1, dt, now);
        (seq![z1] + rest.0, rest.1)
    }
}

/// The projectiles that survive the sweep: the active ones, in order.
pub open spec fn active_projectiles(projs: Seq<Projectile>) -> Seq<Projectile>
    decreases projs.len(),
{
    if projs.len() == 0 {
        Seq::<Projectile>::empty()
    } else {
        let front = active_projectiles(projs.drop_last());
        if projs.last().active {
            front.push(projs.last())
        } else {
            front
        }
    }
}

/// The suns that survive the sweep: the uncollected ones, in order.
pub open spec fn uncollected_suns(suns: Seq<Sun>) -> Seq<Sun>
    decreases suns.len(),
{
    if suns.len() == 0 {
        Seq::<Sun>::empty()
    } else {
        let front = uncollected_suns(suns.drop_last());
        if !suns.last().collected {
            front.push(suns.last())
        } else {
            front
        }
    }
}

/// The plants that survive the sweep: those with health left, in order.
pub open spec fn living_plants(plants: Seq<Plant>) -> Seq<Plant>
    decreases plants.len(),
{
    if plants.len() == 0 {
        Seq::<Plant>::empty()
    } else {
        let front = living_plants(plants.drop_last());
        if !plants.last().spec_is_dead() {
            front.push(plants.last())
        } else {
            front
        }
    }
}

/// The zombies that survive the sweep: those not yet Dead, in order.
pub open spec fn living_zombies(zombies: Seq<Zombie>) -> Seq<Zombie>
    decreases zombies.len(),
{
    if zombies.len() == 0 {
        Seq::<Zombie>::empty()
    } else {
        let front = living_zombies(zombies.drop_last());
        if !zombies.last().spec_is_dead() {
            front.push(zombies.last())
        } else {
            front
        }
    }
}

/// Everything the projectile sweep keeps was a well-formed active member
/// of the swept set.
pub proof fn lemma_active_projectiles_wf(projs: Seq<Projectile>)
    requires
        forall|i: int| 0 <= i < projs.len() ==> (#[trigger] projs[i]).wf(),
    ensures
        forall|i: int|
            0 <= i < active_projectiles(projs).len() ==> (#[trigger] active_projectiles(
                projs,
            )[i]).wf() && active_projectiles(projs)[i].active,
    decreases projs.len(),
{
    if projs.len() > 0 {
        let front = active_projectiles(projs.drop_last());
        assert(forall|i: int|
            0 <= i < projs.drop_last().len() ==> #[trigger] projs.drop_last()[i] == projs[i]);
        lemma_active_projectiles_wf(projs.drop_last());
        assert(projs.last() == projs[projs.len() - 1]);
        if projs.last().active {
            assert(active_projectiles(projs) == front.push(projs.last()));
            assert(forall|i: int|
                0 <= i < front.len() ==> #[trigger] active_projectiles(projs)[i] == front[i]);
            assert(active_projectiles(projs)[front.len() as int] == projs.last());
        } else {
            assert(active_projectiles(projs) == front);
        }
    }
}

/// Everything the sun sweep keeps was a well-formed member of the swept
/// set.
pub proof fn lemma_uncollected_suns_wf(suns: Seq<Sun>)
    requires
        forall|i: int| 0 <= i < suns.len() ==> (#[trigger] suns[i]).wf(),
    ensures
        forall|i: int|
            0 <= i < uncollected_suns(suns).len() ==> (#[trigger] uncollected_suns(
                suns,
            )[i]).wf(),
    decreases suns.len(),
{
    if suns.len() > 0 {
        let front = uncollected_suns(suns.drop_last());
        assert(forall|i: int|
            0 <= i < suns.drop_last().len() ==> #[trigger] suns.drop_last()[i] == suns[i]);
        lemma_uncollected_suns_wf(suns.drop_last());
        assert(suns.last() == suns[suns.len() - 1]);
        if !suns.last().collected {
            assert(uncollected_suns(suns) == front.push(suns.last()));
            assert(forall|i: int|
                0 <= i < front.len() ==> #[trigger] uncollected_suns(suns)[i] == front[i]);
            assert(uncollected_suns(suns)[front.len() as int] == suns.last());
        } else {
            assert(uncollected_suns(suns) == front);
        }
    }
}

/// Everything the plant sweep keeps was a well-formed member of the
/// swept set.
pub proof fn lemma_living_plants_wf(plants: Seq<Plant>)
    requires
        forall|i: int| 0 <= i < plants.len() ==> (#[trigger] plants[i]).wf(),
    ensures
        forall|i: int|
            0 <= i < living_plants(plants).len() ==> (#[trigger] living_plants(plants)[i]).wf(),
    decreases plants.len(),
{
    if plants.len() > 0 {
        let front = living_plants(plants.drop_last());
        assert(forall|i: int|
            0 <= i < plants.drop_last().len() ==> #[trigger] plants.drop_last()[i] == plants[i]);
        lemma_living_plants_wf(plants.drop_last());
        assert(plants.last() == plants[plants.len() - 1]);
        if !plants.last().spec_is_dead() {
            assert(living_plants(plants) == front.push(plants.last()));
            assert(forall|i: int|
                0 <= i < front.len() ==> #[trigger] living_plants(plants)[i] == front[i]);
            assert(living_plants(plants)[front.len() as int] == plants.last());
        } else {
            assert(living_plants(plants) == front);
        }
    }
}

/// Everything the zombie sweep keeps was a well-formed member of the
/// swept set.
pub proof fn lemma_living_zombies_wf(zombies: Seq<Zombie>)
    requires
        forall|i: int| 0 <= i < zombies.len() ==> (#[trigger] zombies[i]).wf(),
    ensures
        forall|i: int|
            0 <= i < living_zombies(zombies).len() ==> (#[trigger] living_zombies(
                zombies,
            )[i]).wf(),
    decreases zombies.len(),
{
    if zombies.len() > 0 {
        let front = living_zombies(zombies.drop_last());
        assert(forall|i: int|
            0 <= i < zombies.drop_last().len() ==> #[trigger] zombies.drop_last()[i] == zombies[i]);
        lemma_living_zombies_wf(zombies.drop_last());
        assert(zombies.last() == zombies[zombies.len() - 1]);
        if !zombies.last().spec_is_dead() {
            assert(living_zombies(zombies) == front.push(zombies.last()));
            assert(forall|i: int|
                0 <= i < front.len() ==> #[trigger] living_zombies(zombies)[i] == front[i]);
            assert(living_zombies(zombies)[front.len() as int] == zombies.last());
        } else {
            assert(living_zombies(zombies) == front);
        }
    }
}

/// Placement rejection: with resources below the selected type's cost no
/// placement goes through, so an attempt changes nothing (see
/// [`Game::try_place`]: a `None` placement leaves the state untouched).
pub proof fn lemma_placement_rejected_by_cost(g: Game, mx: int, my: int, t: PlantType)
    requires
        g.plant_bar.selected == Some(t),
        g.sun_points < t.spec_cost(),
    ensures
        placement(g, mx, my) is None,
{
}

/// The bar's slots with their cooldowns ticked down by `dt`.
pub open spec fn ticked_slots(slots: Seq<UISlot>, dt: int) -> Seq<UISlot> {
    Seq::new(
        slots.len(),
        |i: int| UISlot { cooldown: ticked_timer(slots[i].cooldown as int, dt) as i64, ..slots[i] },
    )
}

/// The resource counter at the end of one full frame: the bar cooldowns
/// tick, every sun under the pointer is credited, and on a pointer press
/// a successful placement deducts its cost; no later phase of the frame
/// touches the counter.
pub open spec fn frame_sun_points(g: Game, dt: int, mx: int, my: int, pressed: bool) -> int {
    let pts = credited_points(g.suns@, mx, my, g.sun_points as int);
    match frame_placement(g, dt, mx, my, pressed) {
        Some((t, si, tile)) => pts - t.spec_cost(),
        None => pts,
    }
}

/// The placement this frame commits, if any: only on a pointer press,
/// judged against the bar as ticked by this frame and the resource
/// counter as credited by this frame's sun collection.
pub open spec fn frame_placement(g: Game, dt: int, mx: int, my: int, pressed: bool) -> Option<
    (PlantType, int, Tile),
> {
    if pressed {
        placement_from(
            g.plant_bar.selected,
            credited_points(g.suns@, mx, my, g.sun_points as int),
            g.plants@,
            ticked_slots(g.plant_bar.slots@, dt),
            mx,
            my,
        )
    } else {
        None
    }
}

/// The sun set after this frame's collection phase: every sun the
/// pointer hovers is marked collected.
pub open spec fn frame_marked_suns(g: Game, mx: int, my: int) -> Seq<Sun> {
    Seq::new(
        g.suns@.len(),
        |i: int|
            Sun {
                collected: g.suns@[i].collected || spec_hovered(g.suns@[i], mx, my),
                ..g.suns@[i]
            },
    )
}

/// The plant set right after this frame's placement phase.
pub open spec fn frame_plants_placed(g: Game, dt: int, mx: int, my: int, pressed: bool) -> Seq<
    Plant,
> {
    match frame_placement(g, dt, mx, my, pressed) {
        Some((t, si, tile)) => g.plants@.push(
            new_plant(t, tile.x + TILE_SIZE / 2, tile.y + TILE_SIZE / 2),
        ),
        None => g.plants@,
    }
}

/// The projectile set entering this frame's resolution phase: the live
/// ones plus what this frame's plant actions shot.
pub open spec fn frame_projectiles_shot(g: Game, dt: int, mx: int, my: int, pressed: bool) -> Seq<
    Projectile,
> {
    g.projectiles@ + shot_projectiles(frame_plants_placed(g, dt, mx, my, pressed), dt, g.zombies@)
}

/// This frame's projectile resolution: the stepped projectiles and the
/// zombie set they leave behind.
pub open spec fn frame_proj_result(g: Game, dt: int, mx: int, my: int, pressed: bool) -> (
    Seq<Projectile>,
    Seq<Zombie>,
) {
    step_projectiles_rec(frame_projectiles_shot(g, dt, mx, my, pressed), g.zombies@, dt)
}

/// The plant set entering this frame's zombie phase: placed, stepped,
/// and swept of the dead.
pub open spec fn frame_plants_mid(g: Game, dt: int, mx: int, my: int, pressed: bool) -> Seq<
    Plant,
> {
    living_plants(stepped_plants(frame_plants_placed(g, dt, mx, my, pressed), dt, g.zombies@))
}

/// This frame's zombie phase: the stepped zombies and the plant set they
/// leave behind.
pub open spec fn frame_zombie_result(
    g: Game,
    dt: int,
    now: int,
    mx: int,
    my: int,
    pressed: bool,
) -> (Seq<Zombie>, Seq<Plant>) {
    step_zombies_rec(
        frame_proj_result(g, dt, mx, my, pressed).1,
        frame_plants_mid(g, dt, mx, my, pressed),
        dt,
        now,
    )
}

/// The zombie set after this frame's sweep, before the spawn wave.
pub open spec fn frame_zombies_swept(
    g: Game,
    dt: int,
    now: int,
    mx: int,
    my: int,
    pressed: bool,
) -> Seq<Zombie> {
    living_zombies(frame_zombie_result(g, dt, now, mx, my, pressed).0)
}

/// The suns already on the board that survive this frame: marked by the
/// collection phase, fallen one step, and swept of the collected.
pub open spec fn frame_suns_kept(g: Game, dt: int, mx: int, my: int) -> Seq<Sun> {
    let marked = frame_marked_suns(g, mx, my);
    uncollected_suns(Seq::new(marked.len(), |i: int| sun_step(marked[i], dt)))
}

/// What a sun produced at (px, py) this frame looks like when the frame
/// ends: its drop shape, one falling step along.
pub open spec fn dropped_sun_after(s: Sun, px: int, py: int, dt: int) -> bool {
    &&& (s.x == px - SUN_DROP_OFFSET || s.x == px + SUN_DROP_OFFSET)
    &&& s.y == (if py + 40 * dt > py + TILE_SIZE / 2 {
        py + TILE_SIZE / 2
    } else {
        py + 40 * dt
    })
    &&& s.target_y == py + TILE_SIZE / 2
    &&& s.speed == 40
    &&& !s.collected
    &&& s.value == SUN_VALUE
    &&& s.source == SunSource::Plant
}

/// The sun sweep distributes over concatenation.
pub proof fn lemma_uncollected_suns_concat(a: Seq<Sun>, b: Seq<Sun>)
    ensures
        uncollected_suns(a + b) == uncollected_suns(a) + uncollected_suns(b),
    decreases b.len(),
{
    if b.len() == 0 {
        assert(a + b =~= a);
        assert(uncollected_suns(a) + uncollected_suns(b) =~= uncollected_suns(a));
    } else {
        lemma_uncollected_suns_concat(a, b.drop_last());
        assert((a + b).drop_last() =~= a + b.drop_last());
        assert((a + b).last() == b.last());
        if !b.last().collected {
            assert(uncollected_suns(a) + uncollected_suns(b) =~= (uncollected_suns(a)
                + uncollected_suns(b.drop_last())).push(b.last()));
        } else {
            assert(uncollected_suns(a) + uncollected_suns(b) =~= uncollected_suns(a)
                + uncollected_suns(b.drop_last()));
        }
    }
}

/// A set with no collected sun passes the sweep unchanged.
pub proof fn lemma_uncollected_suns_id(s: Seq<Sun>)
    requires
        forall|i: int| 0 <= i < s.len() ==> !(#[trigger] s[i]).collected,
    ensures
        uncollected_suns(s) == s,
    decreases s.len(),
{
    if s.len() > 0 {
        assert(forall|i: int|
            0 <= i < s.drop_last().len() ==> #[trigger] s.drop_last()[i] == s[i]);
        lemma_uncollected_suns_id(s.drop_last());
        assert(s.last() == s[s.len() - 1]);
        assert(uncollected_suns(s) =~= s);
    }
}

/// Most zombies one wave may hold at a given spawn count: one more per
/// five spawned so far, capped at the wave maximum.
pub open spec fn wave_cap(count: u32) -> int {
    let base = count as int / 5 + 1;
    if base > MAX_ZOMBIE_SPAWN {
        MAX_ZOMBIE_SPAWN as int
    } else {
        base
    }
}

/// Lower end of the interval the next spawn threshold is rolled from: it
/// narrows with the total spawned, floored at two seconds.
pub open spec fn spawn_interval_lo(count: u32) -> int {
    let lo = NATURAL_ZOMBIE_MIN_SPAWN_INTERVAL - 20 * count;
    if lo < 2_000 {
        2_000
    } else {
        lo
    }
}

/// Upper end of the interval the next spawn threshold is rolled from: it
/// narrows with the total spawned, floored at four seconds.
pub open spec fn spawn_interval_hi(count: u32) -> int {
    let hi = NATURAL_ZOMBIE_MAX_SPAWN_INTERVAL - 20 * count;
    if hi < 4_000 {
        4_000
    } else {
        hi
    }
}

/// Vertical center of a lane, where zombies in that lane stand.
pub open spec fn lane_center_y(lane: int) -> int {
    lane * TILE_SIZE + TILE_SIZE / 2 + UI_BAR_HEIGHT
}

/// What a freshly spawned zombie looks like: some variant, entering at
/// the center of some lane.
pub open spec fn spawned_zombie(z: Zombie) -> bool {
    exists|p: (ZombieType, int)|
        0 <= p.1 < ROWS && z == #[trigger] new_zombie(p.0, lane_center_y(p.1))
}

/// What a naturally fallen sun looks like: entering at the top, resting
/// over the grid, with the configured value.
pub open spec fn natural_sun(s: Sun) -> bool {
    &&& 50_000 <= s.x <= SCREEN_WIDTH - 50_000
    &&& s.y == 0
    &&& 200_000 <= s.target_y <= ROWS * TILE_SIZE + UI_BAR_HEIGHT - 50_000
    &&& s.speed == 60
    &&& !s.collected
    &&& s.value == SUN_VALUE
    &&& s.source == SunSource::Natural
}

/// The whole battle state.
pub struct Game {
    pub grid: Grid,
    pub plant_bar: UIBar,
    pub plants: Vec<Plant>,
    pub projectiles: Vec<Projectile>,
    pub suns: Vec<Sun>,
    pub sun_points: i32,
    pub natural_sun_timer: i64,
    pub next_natural_sun_time: i64,
    pub zombies: Vec<Zombie>,
    pub zombie_timer: i64,
    pub next_zombie_time: i64,
    pub zombie_count: u32,
}

impl Game {
    /// Well-formedness: every entity well-formed, every projectile in the
    /// live set active, the resource counter nonnegative, and both spawn
    /// timers strictly below their next-event thresholds.
    pub open spec fn wf(self) -> bool {
        &&& self.grid.wf()
        &&& self.plant_bar.wf()
        &&& forall|i: int| 0 <= i < self.plants@.len() ==> (#[trigger] self.plants@[i]).wf()
        &&& forall|i: int|
            0 <= i < self.projectiles@.len() ==> (#[trigger] self.projectiles@[i]).wf()
                && self.projectiles@[i].active
        &&& forall|i: int| 0 <= i < self.suns@.len() ==> (#[trigger] self.suns@[i]).wf()
        &&& forall|i: int| 0 <= i < self.zombies@.len() ==> (#[trigger] self.zombies@[i]).wf()
        &&& 0 <= self.sun_points
        &&& 0 <= self.natural_sun_timer < self.next_natural_sun_time
        &&& self.next_natural_sun_time <= NATURAL_SUN_MAX_INTERVAL
        &&& 0 <= self.zombie_timer < self.next_zombie_time
        &&& self.next_zombie_time <= NATURAL_ZOMBIE_MAX_SPAWN_INTERVAL
    }

    /// A fresh battle over the chosen plant types: empty board, starting
    /// resources, zero spawn count, both random timers rolled.
    pub fn new(selected_plants: Vec<PlantType>) -> (g: Game)
        requires
            selected_plants@.len() <= MAX_SELECTED_PLANTS,
        ensures
            g.plants@.len() == 0,
            g.projectiles@.len() == 0,
            g.suns@.len() == 0,
            g.zombies@.len() == 0,
            g.sun_points == STARTING_SUN_POINTS,
            g.zombie_count == 0,
            g.natural_sun_timer == 0,
            g.zombie_timer == 0,
            NATURAL_SUN_MIN_INTERVAL <= g.next_natural_sun_time <= NATURAL_SUN_MAX_INTERVAL,
            NATURAL_ZOMBIE_MIN_SPAWN_INTERVAL <= g.next_zombie_time
                <= NATURAL_ZOMBIE_MAX_SPAWN_INTERVAL,
            g.plant_bar.slots@.len() == selected_plants@.len(),
            forall|i: int|
                0 <= i < g.plant_bar.slots@.len() ==> (#[trigger] g.plant_bar.slots@[i]).plant
                    == selected_plants@[i] && g.plant_bar.slots@[i].cooldown == 0
                    && !g.plant_bar.slots@[i].selected,
            g.plant_bar.selected is None,
            g.plant_bar.sun_box_width == SUN_BOX_WIDTH,
            g.wf(),
    {
        let next_sun = crate::rng::rand_in(
            NATURAL_SUN_MIN_INTERVAL as u32,
            NATURAL_SUN_MAX_INTERVAL as u32,
        ) as i64;
        let next_zombie = crate::rng::rand_in(
            NATURAL_ZOMBIE_MIN_SPAWN_INTERVAL as u32,
            NATURAL_ZOMBIE_MAX_SPAWN_INTERVAL as u32,
        ) as i64;
        Game {
            grid: Grid::new(),
            plant_bar: UIBar::new(selected_plants),
            plants: Vec::new(),
            projectiles: Vec::new(),
            suns: Vec::new(),
            sun_points: STARTING_SUN_POINTS,
            natural_sun_timer: 0,
            next_natural_sun_time: next_sun,
            zombies: Vec::new(),
            zombie_timer: 0,
            next_zombie_time: next_zombie,
            zombie_count: 0,
        }
    }

    /// The battle is lost the instant any live zombie stands left of the
    /// playfield's western edge.
    pub fn is_lost(&self) -> (lost: bool)
        ensures
            lost == exists|i: int| 0 <= i < self.zombies@.len() && (#[trigger] self.zombies@[i]).x
                < 0,
    {
        let mut i: usize = 0;
        let n = self.zombies.len();
        while i < n
            invariant
                0 <= i <= n,
                n == self.zombies@.len(),
                forall|j: int| 0 <= j < i ==> (#[trigger] self.zombies@[j]).x >= 0,
            decreases n - i,
        {
            if self.zombies[i].x < 0 {
                return true;
            }
            i = i + 1;
        }
        false
    }

    /// Collects every sun under the pointer: each uncollected sun
    /// strictly within hover range is marked collected and its value is
    /// credited, in collection order, saturating at the counter's
    /// ceiling.
    pub fn collect_suns(&mut self, mouse_x: i64, mouse_y: i64)
        requires
            old(self).wf(),
            -MOUSE_LIMIT <= mouse_x <= MOUSE_LIMIT,
            -MOUSE_LIMIT <= mouse_y <= MOUSE_LIMIT,
        ensures
            final(self).suns@.len() == old(self).suns@.len(),
            forall|i: int|
                0 <= i < final(self).suns@.len() ==> #[trigger] final(self).suns@[i] == (Sun {
                    collected: old(self).suns@[i].collected || spec_hovered(
                        old(self).suns@[i],
                        mouse_x as int,
                        mouse_y as int,
                    ),
                    ..old(self).suns@[i]
                }),
            final(self).sun_points == credited_points(
                old(self).suns@,
                mouse_x as int,
                mouse_y as int,
                old(self).sun_points as int,
            ),
            *final(self) == (Game {
                suns: final(self).suns,
                sun_points: final(self).sun_points,
                ..*old(self)
            }),
            final(self).wf(),
    {
        let n = self.suns.len();
        let mut i: usize = 0;
        proof {
            assert(old(self).suns@.skip(0) =~= old(self).suns@);
        }
        while i < n
            invariant
                0 <= i <= n,
                n == self.suns@.len(),
                self.suns@.len() == old(self).suns@.len(),
                -MOUSE_LIMIT <= mouse_x <= MOUSE_LIMIT,
                -MOUSE_LIMIT <= mouse_y <= MOUSE_LIMIT,
                forall|j: int|
                    0 <= j < i ==> #[trigger] self.suns@[j] == (Sun {
                        collected: old(self).suns@[j].collected || spec_hovered(
                            old(self).suns@[j],
                            mouse_x as int,
                            mouse_y as int,
                        ),
                        ..old(self).suns@[j]
                    }),
                forall|j: int| i <= j < n ==> self.suns@[j] == old(self).suns@[j],
                forall|j: int| 0 <= j < n ==> (#[trigger] self.suns@[j]).wf(),
                0 <= self.sun_points,
                credited_points(
                    old(self).suns@,
                    mouse_x as int,
                    mouse_y as int,
                    old(self).sun_points as int,
                ) == credited_points(
                    old(self).suns@.skip(i as int),
                    mouse_x as int,
                    mouse_y as int,
                    self.sun_points as int,
                ),
                *self == (Game { suns: self.suns, sun_points: self.sun_points, ..*old(self) }),
            decreases n - i,
        {
            let ghost pre_suns = old(self).suns@.skip(i as int);
            let ghost pre_points = self.sun_points as int;
            let hit = self.suns[i].is_hovered(mouse_x, mouse_y);
            if hit {
                let v = self.suns[i].value;
                let s: i64 = self.sun_points as i64 + v as i64;
                self.sun_points = if s > i32::MAX as i64 {
                    i32::MAX
                } else {
                    s as i32
                };
            }
            proof {
                assert(pre_suns.drop_first() =~= old(self).suns@.skip(i + 1));
                assert(pre_suns[0] == old(self).suns@[i as int]);
            }
            i = i + 1;
        }
        proof {
            assert(old(self).suns@.skip(n as int) =~= Seq::<Sun>::empty());
        }
    }

    /// A placement attempt at the pointer. It commits — deducting the
    /// cost, planting at the tile center, starting the slot's cooldown
    /// and clearing the selection — exactly when a type is selected, the
    /// player can afford it, the pointer is on an unoccupied tile, and
    /// that type's cooldown is ready; any failed condition leaves the
    /// whole state untouched.
    pub fn try_place(&mut self, mouse_x: i64, mouse_y: i64)
        requires
            old(self).wf(),
            -MOUSE_LIMIT <= mouse_x <= MOUSE_LIMIT,
            -MOUSE_LIMIT <= mouse_y <= MOUSE_LIMIT,
        ensures
            ({
                match placement(*old(self), mouse_x as int, mouse_y as int) {
                    Some((t, si, tile)) => {
                        &&& final(self).plants@ == old(self).plants@.push(
                            new_plant(
                                t,
                                tile.x + TILE_SIZE / 2,
                                tile.y + TILE_SIZE / 2,
                            ),
                        )
                        &&& final(self).sun_points == old(self).sun_points - t.spec_cost()
                        &&& final(self).plant_bar.slots@.len() == old(self).plant_bar.slots@.len()
                        &&& forall|j: int|
                            0 <= j < final(self).plant_bar.slots@.len()
                                ==> #[trigger] final(self).plant_bar.slots@[j] == (UISlot {
                                selected: false,
                                cooldown: if j == si {
                                    t.spec_cooldown_time() as i64
                                } else {
                                    old(self).plant_bar.slots@[j].cooldown
                                },
                                ..old(self).plant_bar.slots@[j]
                            })
                        &&& final(self).plant_bar.selected is None
                        &&& final(self).plant_bar.sun_box_width == old(
                            self,
                        ).plant_bar.sun_box_width
                        &&& *final(self) == (Game {
                            plants: final(self).plants,
                            sun_points: final(self).sun_points,
                            plant_bar: final(self).plant_bar,
                            ..*old(self)
                        })
                    },
                    None => *final(self) == *old(self),
                }
            }),
            final(self).wf(),
    {
        let selected = self.plant_bar.selected;
        if let Some(t) = selected {
            let cost = t.cost();
            if self.sun_points >= cost {
                if let Some(tile) = self.grid.get_tile_at(mouse_x, mouse_y) {
                    proof {
                        let mxi = mouse_x as int;
                        let myi = mouse_y as int;
                        assert(0 <= mxi / (TILE_SIZE as int) <= 8 && 0 <= (myi - (
                        UI_BAR_HEIGHT as int)) / (TILE_SIZE as int) <= 4) by (nonlinear_arith)
                            requires
                                0 <= mxi < 9 * (TILE_SIZE as int),
                                0 <= myi - (UI_BAR_HEIGHT as int) < 5 * (TILE_SIZE as int),
                                TILE_SIZE == 100_000,
                        ;
                    }
                    let cx = tile.x + TILE_SIZE / 2;
                    let cy = tile.y + TILE_SIZE / 2;
                    let n = self.plants.len();
                    let mut i: usize = 0;
                    let mut occupied: bool = false;
                    while i < n
                        invariant
                            0 <= i <= n,
                            n == self.plants@.len(),
                            *self == *old(self),
                            self.wf(),
                            0 <= cx <= SCREEN_WIDTH,
                            0 <= cy <= SCREEN_WIDTH,
                            occupied == exists|j: int|
                                0 <= j < i && -(TILE_SIZE / 2) < (#[trigger] self.plants@[j]).x
                                    - cx < TILE_SIZE / 2 && -(TILE_SIZE / 2) < self.plants@[j].y
                                    - cy < TILE_SIZE / 2,
                        decreases n - i,
                    {
                        let px = self.plants[i].x;
                        let py = self.plants[i].y;
                        let dx = px - cx;
                        let dy = py - cy;
                        if -(TILE_SIZE / 2) < dx && dx < TILE_SIZE / 2 && -(TILE_SIZE / 2) < dy
                            && dy < TILE_SIZE / 2 {
                            occupied = true;
                        }
                        i = i + 1;
                    }
                    if !occupied {
                        let m = self.plant_bar.slots.len();
                        let mut si: usize = 0;
                        let mut found: bool = false;
                        while si < m && !found
                            invariant
                                0 <= si <= m,
                                m == self.plant_bar.slots@.len(),
                                *self == *old(self),
                                self.wf(),
                                forall|j: int|
                                    0 <= j < si ==> (#[trigger] self.plant_bar.slots@[j]).plant
                                        != t,
                                found ==> si < m && self.plant_bar.slots@[si as int].plant == t,
                            decreases m - si + (if found {
                                0int
                            } else {
                                1int
                            }),
                        {
                            if self.plant_bar.slots[si].plant == t {
                                found = true;
                            } else {
                                si = si + 1;
                            }
                        }
                        proof {
                            lemma_first_slot_of_type_prefix(
                                old(self).plant_bar.slots@,
                                t,
                                si as int,
                            );
                        }
                        if found {
                            if self.plant_bar.slots[si].cooldown <= 0 {
                                self.sun_points = self.sun_points - cost;
                                let p = create_plant(t, cx, cy);
                                self.plants.push(p);
                                let cd = t.cooldown_time();
                                self.plant_bar.slots[si].cooldown = cd;
                                self.plant_bar.clear_selection();
                            }
                        }
                    }
                }
            }
        }
    }

    /// Updates every plant and routes the emitted actions: each shoot
    /// action appends its projectile to the live projectile set, each
    /// produce action drops a sun at the plant's position. Zombies are
    /// only read here, so every plant steps against the same zombie set.
    pub fn update_plants(&mut self, dt: i64)
        requires
            old(self).wf(),
            0 <= dt <= MAX_FRAME_MS,
        ensures
            final(self).plants@ == stepped_plants(
                old(self).plants@,
                dt as int,
                old(self).zombies@,
            ),
            final(self).projectiles@ == old(self).projectiles@ + shot_projectiles(
                old(self).plants@,
                dt as int,
                old(self).zombies@,
            ),
            final(self).suns@.len() == old(self).suns@.len() + produced_positions(
                old(self).plants@,
                dt as int,
                old(self).zombies@,
            ).len(),
            forall|k: int|
                0 <= k < old(self).suns@.len() ==> #[trigger] final(self).suns@[k] == old(
                    self,
                ).suns@[k],
            forall|k: int|
                0 <= k < produced_positions(old(self).plants@, dt as int, old(self).zombies@).len()
                    ==> dropped_sun(
                    #[trigger] final(self).suns@[old(self).suns@.len() + k],
                    produced_positions(old(self).plants@, dt as int, old(self).zombies@)[k].0
                        as int,
                    produced_positions(old(self).plants@, dt as int, old(self).zombies@)[k].1
                        as int,
                ),
            *final(self) == (Game {
                plants: final(self).plants,
                projectiles: final(self).projectiles,
                suns: final(self).suns,
                ..*old(self)
            }),
            final(self).wf(),
    {
        let ghost zs = old(self).zombies@;
        let n = self.plants.len();
        let mut i: usize = 0;
        proof {
            assert(old(self).plants@.subrange(0, 0) =~= Seq::<Plant>::empty());
        }
        while i < n
            invariant
                0 <= i <= n,
                0 <= dt <= MAX_FRAME_MS,
                n == self.plants@.len(),
                self.plants@.len() == old(self).plants@.len(),
                zs == old(self).zombies@,
                self.zombies@ == old(self).zombies@,
                forall|j: int| i <= j < n ==> self.plants@[j] == old(self).plants@[j],
                forall|j: int|
                    0 <= j < i ==> #[trigger] self.plants@[j] == plant_step(
                        old(self).plants@[j],
                        dt as int,
                        zs,
                    ),
                forall|j: int| 0 <= j < n ==> (#[trigger] self.plants@[j]).wf(),
                self.projectiles@ == old(self).projectiles@ + shot_projectiles(
                    old(self).plants@.subrange(0, i as int),
                    dt as int,
                    zs,
                ),
                forall|j: int|
                    0 <= j < self.projectiles@.len() ==> (#[trigger] self.projectiles@[j]).wf()
                        && self.projectiles@[j].active,
                self.suns@.len() == old(self).suns@.len() + produced_positions(
                    old(self).plants@.subrange(0, i as int),
                    dt as int,
                    zs,
                ).len(),
                forall|k: int|
                    0 <= k < old(self).suns@.len() ==> #[trigger] self.suns@[k] == old(
                        self,
                    ).suns@[k],
                forall|k: int|
                    0 <= k < produced_positions(
                        old(self).plants@.subrange(0, i as int),
                        dt as int,
                        zs,
                    ).len() ==> dropped_sun(
                        #[trigger] self.suns@[old(self).suns@.len() + k],
                        produced_positions(
                            old(self).plants@.subrange(0, i as int),
                            dt as int,
                            zs,
                        )[k].0 as int,
                        produced_positions(
                            old(self).plants@.subrange(0, i as int),
                            dt as int,
                            zs,
                        )[k].1 as int,
                    ),
                forall|k: int| 0 <= k < self.suns@.len() ==> (#[trigger] self.suns@[k]).wf(),
                *self == (Game {
                    plants: self.plants,
                    projectiles: self.projectiles,
                    suns: self.suns,
                    ..*old(self)
                }),
                old(self).wf(),
            decreases n - i,
        {
            let ghost prefix = old(self).plants@.subrange(0, i as int);
            let ghost prefix1 = old(self).plants@.subrange(0, i as int + 1);
            let action = self.plants[i].update(dt, &self.zombies);
            proof {
                lemma_plant_action_bounds(old(self).plants@[i as int], dt as int, zs);
                assert(prefix1.drop_last() =~= prefix);
                assert(prefix1.last() == old(self).plants@[i as int]);
            }
            match action {
                Some(PlantAction::Shoot { kind, x, y }) => {
                    let proj = ProjectileFactory::create(kind, x, y);
                    self.projectiles.push(proj);
                },
                Some(PlantAction::ProduceSun { x, y }) => {
                    let s = Sun::from_plant(x, y);
                    self.suns.push(s);
                },
                None => {},
            }
            i = i + 1;
        }
        proof {
            assert(old(self).plants@.subrange(0, n as int) =~= old(self).plants@);
            assert(self.plants@ =~= stepped_plants(old(self).plants@, dt as int, zs));
        }
    }

    /// Updates every projectile in order against the live zombie set —
    /// each one sees the zombies as the previous ones left them — then
    /// sweeps the deactivated projectiles out.
    pub fn update_projectiles(&mut self, dt: i64)
        requires
            old(self).wf(),
            0 <= dt <= MAX_FRAME_MS,
        ensures
            final(self).projectiles@ == active_projectiles(
                step_projectiles_rec(old(self).projectiles@, old(self).zombies@, dt as int).0,
            ),
            final(self).zombies@ == step_projectiles_rec(
                old(self).projectiles@,
                old(self).zombies@,
                dt as int,
            ).1,
            *final(self) == (Game {
                projectiles: final(self).projectiles,
                zombies: final(self).zombies,
                ..*old(self)
            }),
            final(self).wf(),
    {
        let ghost full = step_projectiles_rec(
            old(self).projectiles@,
            old(self).zombies@,
            dt as int,
        );
        let n = self.projectiles.len();
        let mut i: usize = 0;
        proof {
            assert(old(self).projectiles@.skip(0) =~= old(self).projectiles@);
        }
        while i < n
            invariant
                0 <= i <= n,
                0 <= dt <= MAX_FRAME_MS,
                n == self.projectiles@.len(),
                self.projectiles@.len() == old(self).projectiles@.len(),
                full == step_projectiles_rec(
                    old(self).projectiles@,
                    old(self).zombies@,
                    dt as int,
                ),
                forall|j: int| i <= j < n ==> self.projectiles@[j] == old(self).projectiles@[j],
                forall|j: int|
                    i <= j < n ==> (#[trigger] old(self).projectiles@[j]).wf() && old(
                        self,
                    ).projectiles@[j].active,
                forall|j: int| 0 <= j < i ==> (#[trigger] self.projectiles@[j]).wf(),
                full.0 == self.projectiles@.subrange(0, i as int) + step_projectiles_rec(
                    old(self).projectiles@.skip(i as int),
                    self.zombies@,
                    dt as int,
                ).0,
                full.1 == step_projectiles_rec(
                    old(self).projectiles@.skip(i as int),
                    self.zombies@,
                    dt as int,
                ).1,
                self.zombies@.len() == old(self).zombies@.len(),
                forall|j: int|
                    0 <= j < self.zombies@.len() ==> (#[trigger] self.zombies@[j]).wf(),
                *self == (Game {
                    projectiles: self.projectiles,
                    zombies: self.zombies,
                    ..*old(self)
                }),
            decreases n - i,
        {
            let ghost rem = old(self).projectiles@.skip(i as int);
            self.projectiles[i].update(dt, &mut self.zombies);
            proof {
                assert(rem.drop_first() =~= old(self).projectiles@.skip(i as int + 1));
                assert(rem[0] == old(self).projectiles@[i as int]);
                assert(self.projectiles@.subrange(0, i as int + 1) =~= self.projectiles@.subrange(
                    0,
                    i as int,
                ).push(self.projectiles@[i as int]));
                assert(self.projectiles@.subrange(0, i as int) + (seq![
                    self.projectiles@[i as int],
                ] + step_projectiles_rec(
                    old(self).projectiles@.skip(i as int + 1),
                    self.zombies@,
                    dt as int,
                ).0) =~= self.projectiles@.subrange(0, i as int + 1) + step_projectiles_rec(
                    old(self).projectiles@.skip(i as int + 1),
                    self.zombies@,
                    dt as int,
                ).0);
            }
            i = i + 1;
        }
        proof {
            assert(old(self).projectiles@.skip(n as int) =~= Seq::<Projectile>::empty());
            assert(full.0 =~= self.projectiles@);
        }
        let mut kept: Vec<Projectile> = Vec::new();
        let mut k: usize = 0;
        proof {
            assert(self.projectiles@.subrange(0, 0) =~= Seq::<Projectile>::empty());
        }
        while k < n
            invariant
                0 <= k <= n,
                n == self.projectiles@.len(),
                kept@ == active_projectiles(self.projectiles@.subrange(0, k as int)),
                forall|j: int| 0 <= j < n ==> (#[trigger] self.projectiles@[j]).wf(),
                forall|j: int| 0 <= j < kept@.len() ==> (#[trigger] kept@[j]).wf(),
            decreases n - k,
        {
            let p = self.projectiles[k];
            proof {
                assert(self.projectiles@.subrange(0, k as int + 1).drop_last()
                    =~= self.projectiles@.subrange(0, k as int));
            }
            if p.is_active() {
                kept.push(p);
            }
            k = k + 1;
        }
        proof {
            assert(self.projectiles@.subrange(0, n as int) =~= self.projectiles@);
            lemma_active_projectiles_wf(self.projectiles@);
        }
        self.projectiles = kept;
    }

    /// Lets every sun fall one step, then sweeps the collected ones out.
    pub fn update_suns(&mut self, dt: i64)
        requires
            old(self).wf(),
            0 <= dt <= MAX_FRAME_MS,
        ensures
            final(self).suns@ == uncollected_suns(
                Seq::new(old(self).suns@.len(), |i: int| sun_step(old(self).suns@[i], dt as int)),
            ),
            *final(self) == (Game { suns: final(self).suns, ..*old(self) }),
            final(self).wf(),
    {
        let ghost stepped = Seq::new(
            old(self).suns@.len(),
            |i: int| sun_step(old(self).suns@[i], dt as int),
        );
        let n = self.suns.len();
        let mut i: usize = 0;
        while i < n
            invariant
                0 <= i <= n,
                0 <= dt <= MAX_FRAME_MS,
                n == self.suns@.len(),
                self.suns@.len() == old(self).suns@.len(),
                stepped == Seq::new(
                    old(self).suns@.len(),
                    |j: int| sun_step(old(self).suns@[j], dt as int),
                ),
                forall|j: int| i <= j < n ==> self.suns@[j] == old(self).suns@[j],
                forall|j: int| i <= j < n ==> (#[trigger] old(self).suns@[j]).wf(),
                forall|j: int| 0 <= j < i ==> self.suns@[j] == stepped[j],
                forall|j: int| 0 <= j < i ==> (#[trigger] self.suns@[j]).wf(),
                *self == (Game { suns: self.suns, ..*old(self) }),
            decreases n - i,
        {
            self.suns[i].update(dt);
            i = i + 1;
        }
        proof {
            assert(self.suns@ =~= stepped);
        }
        let mut kept: Vec<Sun> = Vec::new();
        let mut k: usize = 0;
        proof {
            assert(self.suns@.subrange(0, 0) =~= Seq::<Sun>::empty());
        }
        while k < n
            invariant
                0 <= k <= n,
                n == self.suns@.len(),
                kept@ == uncollected_suns(self.suns@.subrange(0, k as int)),
                forall|j: int| 0 <= j < n ==> (#[trigger] self.suns@[j]).wf(),
                forall|j: int| 0 <= j < kept@.len() ==> (#[trigger] kept@[j]).wf(),
            decreases n - k,
        {
            let s = self.suns[k];
            proof {
                assert(self.suns@.subrange(0, k as int + 1).drop_last() =~= self.suns@.subrange(
                    0,
                    k as int,
                ));
            }
            if !s.collected {
                kept.push(s);
            }
            k = k + 1;
        }
        proof {
            assert(self.suns@.subrange(0, n as int) =~= self.suns@);
        }
        self.suns = kept;
    }

    /// Sweeps the dead plants out of the live set.
    pub fn prune_dead_plants(&mut self)
        requires
            old(self).wf(),
        ensures
            final(self).plants@ == living_plants(old(self).plants@),
            *final(self) == (Game { plants: final(self).plants, ..*old(self) }),
            final(self).wf(),
    {
        let n = self.plants.len();
        let mut kept: Vec<Plant> = Vec::new();
        let mut k: usize = 0;
        proof {
            assert(self.plants@.subrange(0, 0) =~= Seq::<Plant>::empty());
        }
        while k < n
            invariant
                0 <= k <= n,
                n == self.plants@.len(),
                *self == *old(self),
                old(self).wf(),
                kept@ == living_plants(self.plants@.subrange(0, k as int)),
                forall|j: int| 0 <= j < kept@.len() ==> (#[trigger] kept@[j]).wf(),
            decreases n - k,
        {
            let p = self.plants[k];
            proof {
                assert(self.plants@.subrange(0, k as int + 1).drop_last() =~= self.plants@.subrange(
                    0,
                    k as int,
                ));
            }
            if !p.is_dead() {
                kept.push(p);
            }
            k = k + 1;
        }
        proof {
            assert(self.plants@.subrange(0, n as int) =~= self.plants@);
        }
        self.plants = kept;
    }

    /// Updates every zombie in order against the live plant set — each
    /// one sees the plants as the previous ones left them — then sweeps
    /// the dead zombies out.
    pub fn update_zombies(&mut self, dt: i64, now: i64)
        requires
            old(self).wf(),
            0 <= dt <= MAX_FRAME_MS,
            0 <= now,
        ensures
            final(self).zombies@ == living_zombies(
                step_zombies_rec(old(self).zombies@, old(self).plants@, dt as int, now as int).0,
            ),
            final(self).plants@ == step_zombies_rec(
                old(self).zombies@,
                old(self).plants@,
                dt as int,
                now as int,
            ).1,
            *final(self) == (Game {
                zombies: final(self).zombies,
                plants: final(self).plants,
                ..*old(self)
            }),
            final(self).wf(),
    {
        let ghost full = step_zombies_rec(
            old(self).zombies@,
            old(self).plants@,
            dt as int,
            now as int,
        );
        let n = self.zombies.len();
        let mut i: usize = 0;
        proof {
            assert(old(self).zombies@.skip(0) =~= old(self).zombies@);
        }
        while i < n
            invariant
                0 <= i <= n,
                0 <= dt <= MAX_FRAME_MS,
                0 <= now,
                n == self.zombies@.len(),
                self.zombies@.len() == old(self).zombies@.len(),
                full == step_zombies_rec(
                    old(self).zombies@,
                    old(self).plants@,
                    dt as int,
                    now as int,
                ),
                forall|j: int| i <= j < n ==> self.zombies@[j] == old(self).zombies@[j],
                forall|j: int| i <= j < n ==> (#[trigger] old(self).zombies@[j]).wf(),
                forall|j: int| 0 <= j < i ==> (#[trigger] self.zombies@[j]).wf(),
                full.0 == self.zombies@.subrange(0, i as int) + step_zombies_rec(
                    old(self).zombies@.skip(i as int),
                    self.plants@,
                    dt as int,
                    now as int,
                ).0,
                full.1 == step_zombies_rec(
                    old(self).zombies@.skip(i as int),
                    self.plants@,
                    dt as int,
                    now as int,
                ).1,
                self.plants@.len() == old(self).plants@.len(),
                forall|j: int| 0 <= j < self.plants@.len() ==> (#[trigger] self.plants@[j]).wf(),
                *self == (Game { zombies: self.zombies, plants: self.plants, ..*old(self) }),
            decreases n - i,
        {
            let ghost rem = old(self).zombies@.skip(i as int);
            self.zombies[i].update(dt, now, &mut self.plants);
            proof {
                assert(rem.drop_first() =~= old(self).zombies@.skip(i as int + 1));
                assert(rem[0] == old(self).zombies@[i as int]);
                assert(self.zombies@.subrange(0, i as int + 1) =~= self.zombies@.subrange(
                    0,
                    i as int,
                ).push(self.zombies@[i as int]));
                assert(self.zombies@.subrange(0, i as int) + (seq![self.zombies@[i as int]]
                    + step_zombies_rec(
                    old(self).zombies@.skip(i as int + 1),
                    self.plants@,
                    dt as int,
                    now as int,
                ).0) =~= self.zombies@.subrange(0, i as int + 1) + step_zombies_rec(
                    old(self).zombies@.skip(i as int + 1),
                    self.plants@,
                    dt as int,
                    now as int,
                ).0);
            }
            i = i + 1;
        }
        proof {
            assert(old(self).zombies@.skip(n as int) =~= Seq::<Zombie>::empty());
            assert(full.0 =~= self.zombies@);
        }
        let mut kept: Vec<Zombie> = Vec::new();
        let mut k: usize = 0;
        proof {
            assert(self.zombies@.subrange(0, 0) =~= Seq::<Zombie>::empty());
        }
        while k < n
            invariant
                0 <= k <= n,
                n == self.zombies@.len(),
                kept@ == living_zombies(self.zombies@.subrange(0, k as int)),
                forall|j: int| 0 <= j < n ==> (#[trigger] self.zombies@[j]).wf(),
                forall|j: int| 0 <= j < kept@.len() ==> (#[trigger] kept@[j]).wf(),
            decreases n - k,
        {
            let z = self.zombies[k];
            proof {
                assert(self.zombies@.subrange(0, k as int + 1).drop_last()
                    =~= self.zombies@.subrange(0, k as int));
            }
            if !z.is_dead() {
                kept.push(z);
            }
            k = k + 1;
        }
        proof {
            assert(self.zombies@.subrange(0, n as int) =~= self.zombies@);
        }
        self.zombies = kept;
    }

    /// The natural sun timer: elapsed time accumulates until it passes
    /// the rolled threshold; then one natural sun drops, the timer
    /// resets, and the next threshold is rolled from the fixed interval.
    pub fn tick_natural_sun(&mut self, dt: i64)
        requires
            old(self).wf(),
            0 <= dt <= MAX_FRAME_MS,
        ensures
            ({
                if old(self).natural_sun_timer + dt >= old(self).next_natural_sun_time {
                    &&& final(self).suns@.len() == old(self).suns@.len() + 1
                    &&& forall|k: int|
                        0 <= k < old(self).suns@.len() ==> #[trigger] final(self).suns@[k] == old(
                            self,
                        ).suns@[k]
                    &&& natural_sun(final(self).suns@.last())
                    &&& final(self).natural_sun_timer == 0
                    &&& NATURAL_SUN_MIN_INTERVAL <= final(self).next_natural_sun_time
                        <= NATURAL_SUN_MAX_INTERVAL
                    &&& *final(self) == (Game {
                        suns: final(self).suns,
                        natural_sun_timer: 0,
                        next_natural_sun_time: final(self).next_natural_sun_time,
                        ..*old(self)
                    })
                } else {
                    *final(self) == (Game {
                        natural_sun_timer: (old(self).natural_sun_timer + dt) as i64,
                        ..*old(self)
                    })
                }
            }),
            final(self).wf(),
    {
        self.natural_sun_timer = self.natural_sun_timer + dt;
        if self.natural_sun_timer >= self.next_natural_sun_time {
            let s = Sun::natural();
            self.suns.push(s);
            self.natural_sun_timer = 0;
            self.next_natural_sun_time = crate::rng::rand_in(
                NATURAL_SUN_MIN_INTERVAL as u32,
                NATURAL_SUN_MAX_INTERVAL as u32,
            ) as i64;
        }
    }

    /// The zombie spawn timer: elapsed time accumulates until it passes
    /// the rolled threshold; then a wave of one to four zombies spawns —
    /// the wave size scales with the total spawned so far — each in a
    /// best-effort-distinct random lane, the total-spawned counter grows
    /// by the wave size, the timer resets, and the next threshold is
    /// rolled from an interval that narrows as the total grows, floored
    /// at fixed minimums.
    pub fn tick_zombie_spawn(&mut self, dt: i64)
        requires
            old(self).wf(),
            0 <= dt <= MAX_FRAME_MS,
        ensures
            ({
                if old(self).zombie_timer + dt >= old(self).next_zombie_time {
                    let n = final(self).zombies@.len() - old(self).zombies@.len();
                    &&& 1 <= n <= wave_cap(old(self).zombie_count)
                    &&& final(self).zombie_count as int == (if old(self).zombie_count + n
                        > u32::MAX {
                        u32::MAX as int
                    } else {
                        old(self).zombie_count + n
                    })
                } else {
                    *final(self) == (Game {
                        zombie_timer: (old(self).zombie_timer + dt) as i64,
                        ..*old(self)
                    })
                }
            }),
            old(self).zombie_timer + dt >= old(self).next_zombie_time ==> {
                &&& forall|k: int|
                    0 <= k < old(self).zombies@.len() ==> #[trigger] final(self).zombies@[k]
                        == old(self).zombies@[k]
                &&& forall|k: int|
                    old(self).zombies@.len() <= k < final(self).zombies@.len()
                        ==> spawned_zombie(#[trigger] final(self).zombies@[k])
                &&& final(self).zombie_timer == 0
                &&& spawn_interval_lo(final(self).zombie_count) <= final(self).next_zombie_time
                    <= spawn_interval_hi(final(self).zombie_count)
                &&& *final(self) == (Game {
                    zombies: final(self).zombies,
                    zombie_timer: 0,
                    next_zombie_time: final(self).next_zombie_time,
                    zombie_count: final(self).zombie_count,
                    ..*old(self)
                })
            },
            final(self).wf(),
    {
        self.zombie_timer = self.zombie_timer + dt;
        if self.zombie_timer >= self.next_zombie_time {
            let base: u32 = self.zombie_count / 5 + 1;
            let spawn_cap: u32 = if base > MAX_ZOMBIE_SPAWN {
                MAX_ZOMBIE_SPAWN
            } else {
                base
            };
            let drawn = crate::rng::rand_in(1, spawn_cap + 1);
            let n: u32 = if drawn > spawn_cap {
                spawn_cap
            } else {
                drawn
            };
            let ghost count0 = old(self).zombie_count;
            let mut chosen: Vec<u32> = Vec::new();
            let mut k: u32 = 0;
            while k < n
                invariant
                    0 <= k <= n,
                    1 <= n <= MAX_ZOMBIE_SPAWN,
                    self.zombies@.len() == old(self).zombies@.len() + k,
                    forall|j: int|
                        0 <= j < old(self).zombies@.len() ==> #[trigger] self.zombies@[j] == old(
                            self,
                        ).zombies@[j],
                    forall|j: int|
                        old(self).zombies@.len() <= j < self.zombies@.len() ==> spawned_zombie(
                            #[trigger] self.zombies@[j],
                        ),
                    forall|j: int|
                        0 <= j < self.zombies@.len() ==> (#[trigger] self.zombies@[j]).wf(),
                    self.zombie_count as int == (if count0 + k > u32::MAX {
                        u32::MAX as int
                    } else {
                        count0 + k
                    }),
                    *self == (Game {
                        zombies: self.zombies,
                        zombie_count: self.zombie_count,
                        zombie_timer: self.zombie_timer,
                        ..*old(self)
                    }),
                    old(self).wf(),
                decreases n - k,
            {
                let first = crate::rng::rand_in(0, ROWS as u32);
                let mut lane: u32 = if first >= ROWS as u32 {
                    ROWS as u32 - 1
                } else {
                    first
                };
                let mut attempts: usize = 1;
                while attempts <= ROWS && lane_taken(&chosen, lane)
                    invariant
                        0 <= lane < ROWS,
                        1 <= attempts <= ROWS + 1,
                    decreases ROWS + 1 - attempts,
                {
                    let redraw = crate::rng::rand_in(0, ROWS as u32);
                    lane = if redraw >= ROWS as u32 {
                        ROWS as u32 - 1
                    } else {
                        redraw
                    };
                    attempts = attempts + 1;
                }
                chosen.push(lane);
                proof {
                    assert(lane as i64 * TILE_SIZE <= 4 * TILE_SIZE) by (nonlinear_arith)
                        requires
                            0 <= lane <= 4,
                            TILE_SIZE == 100_000,
                    ;
                }
                let y: i64 = lane as i64 * TILE_SIZE + TILE_SIZE / 2 + UI_BAR_HEIGHT;
                let z = crate::zombie_factory::spawn_random_zombie(y, self.zombie_count);
                self.zombies.push(z);
                proof {
                    let zt = choose|zt: ZombieType| z == new_zombie(zt, y as int);
                    assert(y as int == lane_center_y(lane as int));
                    assert(z == new_zombie((zt, lane as int).0, lane_center_y((zt, lane as int).1)));
                    assert(spawned_zombie(z));
                }
                self.zombie_count = if self.zombie_count == u32::MAX {
                    u32::MAX
                } else {
                    self.zombie_count + 1
                };
                k = k + 1;
            }
            self.zombie_timer = 0;
            let dec: i64 = self.zombie_count as i64 * 20;
            let lo0: i64 = NATURAL_ZOMBIE_MIN_SPAWN_INTERVAL - dec;
            let lo: i64 = if lo0 < 2_000 {
                2_000
            } else {
                lo0
            };
            let hi0: i64 = NATURAL_ZOMBIE_MAX_SPAWN_INTERVAL - dec;
            let hi: i64 = if hi0 < 4_000 {
                4_000
            } else {
                hi0
            };
            self.next_zombie_time = crate::rng::rand_in(lo as u32, hi as u32) as i64;
        }
    }

    /// One full frame of the simulation, in the fixed order: bar
    /// cooldowns, sun collection, placement (on a pointer press), plant
    /// updates with action routing, projectile resolution and sweep, sun
    /// falls and sweep, dead-plant sweep, zombie updates and sweep, the
    /// natural sun timer, and the zombie spawn timer. The contract pins
    /// the whole post-frame state to the composition of the phase
    /// transitions: the bar, resource counter, plant, projectile and
    /// zombie sets exactly, and the sun set and spawn wave up to the
    /// random draws inside them (drop side, spawn lanes and variants,
    /// rerolled thresholds), each bounded as its phase states.
    pub fn update(&mut self, dt: i64, now: i64, mouse_x: i64, mouse_y: i64, mouse_pressed: bool)
        requires
            old(self).wf(),
            0 <= dt <= MAX_FRAME_MS,
            0 <= now,
            -MOUSE_LIMIT <= mouse_x <= MOUSE_LIMIT,
            -MOUSE_LIMIT <= mouse_y <= MOUSE_LIMIT,
        ensures
            final(self).wf(),
            final(self).grid == old(self).grid,
            final(self).sun_points as int == frame_sun_points(
                *old(self),
                dt as int,
                mouse_x as int,
                mouse_y as int,
                mouse_pressed,
            ),
            ({
                let ticked = ticked_slots(old(self).plant_bar.slots@, dt as int);
                match frame_placement(
                    *old(self),
                    dt as int,
                    mouse_x as int,
                    mouse_y as int,
                    mouse_pressed,
                ) {
                    Some((t, si, tile)) => {
                        &&& final(self).plant_bar.slots@.len() == ticked.len()
                        &&& forall|j: int|
                            0 <= j < ticked.len() ==> #[trigger] final(self).plant_bar.slots@[j]
                                == (UISlot {
                                selected: false,
                                cooldown: if j == si {
                                    t.spec_cooldown_time() as i64
                                } else {
                                    ticked[j].cooldown
                                },
                                ..ticked[j]
                            })
                        &&& final(self).plant_bar.selected is None
                    },
                    None => {
                        &&& final(self).plant_bar.slots@ == ticked
                        &&& final(self).plant_bar.selected == old(self).plant_bar.selected
                    },
                }
            }),
            final(self).plant_bar.sun_box_width == old(self).plant_bar.sun_box_width,
            final(self).plants@ == frame_zombie_result(
                *old(self),
                dt as int,
                now as int,
                mouse_x as int,
                mouse_y as int,
                mouse_pressed,
            ).1,
            final(self).projectiles@ == active_projectiles(
                frame_proj_result(
                    *old(self),
                    dt as int,
                    mouse_x as int,
                    mouse_y as int,
                    mouse_pressed,
                ).0,
            ),
            ({
                let kept = frame_suns_kept(*old(self), dt as int, mouse_x as int, mouse_y as int);
                let produced = produced_positions(
                    frame_plants_placed(
                        *old(self),
                        dt as int,
                        mouse_x as int,
                        mouse_y as int,
                        mouse_pressed,
                    ),
                    dt as int,
                    old(self).zombies@,
                );
                let sun_triggered = old(self).natural_sun_timer + dt >= old(
                    self,
                ).next_natural_sun_time;
                &&& final(self).suns@.len() == kept.len() + produced.len() + (if sun_triggered {
                    1int
                } else {
                    0int
                })
                &&& final(self).suns@.subrange(0, kept.len() as int) == kept
                &&& forall|k: int|
                    0 <= k < produced.len() ==> dropped_sun_after(
                        #[trigger] final(self).suns@[kept.len() + k],
                        produced[k].0 as int,
                        produced[k].1 as int,
                        dt as int,
                    )
                &&& (if sun_triggered {
                    &&& natural_sun(final(self).suns@.last())
                    &&& final(self).natural_sun_timer == 0
                    &&& NATURAL_SUN_MIN_INTERVAL <= final(self).next_natural_sun_time
                        <= NATURAL_SUN_MAX_INTERVAL
                } else {
                    &&& final(self).natural_sun_timer == old(self).natural_sun_timer + dt
                    &&& final(self).next_natural_sun_time == old(self).next_natural_sun_time
                })
            }),
            ({
                let zb = frame_zombies_swept(
                    *old(self),
                    dt as int,
                    now as int,
                    mouse_x as int,
                    mouse_y as int,
                    mouse_pressed,
                );
                let spawn_triggered = old(self).zombie_timer + dt >= old(self).next_zombie_time;
                &&& final(self).zombies@.len() >= zb.len()
                &&& final(self).zombies@.subrange(0, zb.len() as int) == zb
                &&& forall|k: int|
                    zb.len() <= k < final(self).zombies@.len() ==> spawned_zombie(
                        #[trigger] final(self).zombies@[k],
                    )
                &&& (if spawn_triggered {
                    let n = final(self).zombies@.len() - zb.len();
                    &&& 1 <= n <= wave_cap(old(self).zombie_count)
                    &&& final(self).zombie_count as int == (if old(self).zombie_count + n
                        > u32::MAX {
                        u32::MAX as int
                    } else {
                        old(self).zombie_count + n
                    })
                    &&& final(self).zombie_timer == 0
                    &&& spawn_interval_lo(final(self).zombie_count) <= final(self).next_zombie_time
                    &&& final(self).next_zombie_time <= spawn_interval_hi(
                        final(self).zombie_count,
                    )
                } else {
                    &&& final(self).zombies@ == zb
                    &&& final(self).zombie_count == old(self).zombie_count
                    &&& final(self).zombie_timer == old(self).zombie_timer + dt
                    &&& final(self).next_zombie_time == old(self).next_zombie_time
                })
            }),
    {
        let ghost g0 = *old(self);
        let ghost mxi = mouse_x as int;
        let ghost myi = mouse_y as int;
        let ghost dti = dt as int;
        let ghost nowi = now as int;
        let ghost ticked = ticked_slots(g0.plant_bar.slots@, dti);
        let ghost marked = frame_marked_suns(g0, mxi, myi);
        let ghost place = frame_placement(g0, dti, mxi, myi, mouse_pressed);
        let ghost p3 = frame_plants_placed(g0, dti, mxi, myi, mouse_pressed);
        let ghost produced = produced_positions(p3, dti, g0.zombies@);
        let ghost shot = frame_projectiles_shot(g0, dti, mxi, myi, mouse_pressed);
        let ghost kept = frame_suns_kept(g0, dti, mxi, myi);

        self.plant_bar.tick_cooldowns(dt);
        proof {
            assert(self.plant_bar.slots@ =~= ticked);
        }
        self.collect_suns(mouse_x, mouse_y);
        proof {
            assert(self.suns@ =~= marked);
        }
        let ghost g2 = *self;
        if mouse_pressed {
            self.try_place(mouse_x, mouse_y);
            proof {
                assert(placement(g2, mxi, myi) == place);
            }
        }
        proof {
            assert(self.plants@ =~= p3);
            assert(self.sun_points as int == frame_sun_points(g0, dti, mxi, myi, mouse_pressed));
        }
        self.update_plants(dt);
        let ghost suns4 = self.suns@;
        proof {
            assert(self.projectiles@ =~= shot);
            assert(suns4.len() == marked.len() + produced.len());
            assert(forall|k: int| 0 <= k < marked.len() ==> #[trigger] suns4[k] == marked[k]);
            assert(forall|k: int|
                0 <= k < produced.len() ==> dropped_sun(
                    #[trigger] suns4[marked.len() + k],
                    produced[k].0 as int,
                    produced[k].1 as int,
                ));
        }
        self.update_projectiles(dt);
        proof {
            assert(self.projectiles@ == active_projectiles(
                frame_proj_result(g0, dti, mxi, myi, mouse_pressed).0,
            ));
            assert(self.zombies@ == frame_proj_result(g0, dti, mxi, myi, mouse_pressed).1);
        }
        self.update_suns(dt);
        proof {
            let mapped = Seq::new(suns4.len(), |i: int| sun_step(suns4[i], dti));
            let map_a = Seq::new(marked.len(), |i: int| sun_step(marked[i], dti));
            let map_b = Seq::new(produced.len(), |i: int| sun_step(suns4[marked.len() + i], dti));
            assert(mapped =~= map_a + map_b);
            lemma_uncollected_suns_concat(map_a, map_b);
            assert(forall|i: int| 0 <= i < map_b.len() ==> !(#[trigger] map_b[i]).collected);
            lemma_uncollected_suns_id(map_b);
            assert(uncollected_suns(map_a) == kept);
            assert(self.suns@ == kept + map_b);
            assert(self.suns@.len() == kept.len() + produced.len());
            assert(forall|k: int|
                0 <= k < produced.len() ==> dropped_sun_after(
                    #[trigger] self.suns@[kept.len() + k],
                    produced[k].0 as int,
                    produced[k].1 as int,
                    dti,
                ));
        }
        self.prune_dead_plants();
        proof {
            assert(self.plants@ == frame_plants_mid(g0, dti, mxi, myi, mouse_pressed));
        }
        self.update_zombies(dt, now);
        proof {
            assert(self.zombies@ == frame_zombies_swept(g0, dti, nowi, mxi, myi, mouse_pressed));
            assert(self.plants@ == frame_zombie_result(g0, dti, nowi, mxi, myi, mouse_pressed).1);
        }
        self.tick_natural_sun(dt);
        proof {
            assert(self.suns@.subrange(0, kept.len() as int) =~= kept);
        }
        let ghost zb = self.zombies@;
        self.tick_zombie_spawn(dt);
        proof {
            assert(self.zombies@.subrange(0, zb.len() as int) =~= zb);
            assert(self.suns@.subrange(0, kept.len() as int) =~= kept);
        }
    }
}

/// Whether the lane is already among the chosen ones.
fn lane_taken(chosen: &Vec<u32>, lane: u32) -> (taken: bool)
    ensures
        taken == chosen@.contains(lane),
{
    let mut i: usize = 0;
    let n = chosen.len();
    while i < n
        invariant
            0 <= i <= n,
            n == chosen@.len(),
            forall|j: int| 0 <= j < i ==> chosen@[j] != lane,
        decreases n - i,
    {
        if chosen[i] == lane {
            proof {
                assert(chosen@[i as int] == lane);
            }
            return true;
        }
        i = i + 1;
    }
    proof {
        assert(!chosen@.contains(lane));
    }
    false
}

} // verus!
