//! The plant bar: per-type placement cooldowns and the current selection.

use vstd::prelude::*;

use crate::config::MAX_FRAME_MS;
use crate::config::MAX_SELECTED_PLANTS;
use crate::config::MOUSE_LIMIT;
use crate::config::SLOT_PADDING;
use crate::config::SLOT_SIZE;
use crate::config::UI_BAR_HEIGHT;
use crate::plant::ticked_timer;
use crate::plant_factory::PlantType;

verus! {

/// Width of the sun counter box at the left end of the bar.
pub const SUN_BOX_WIDTH: i64 = 120_000;

/// One slot of the bar: a plant type, its screen rectangle, whether it is
/// the current selection, and its remaining placement cooldown (ms).
#[derive(Copy, Clone, Debug)]
pub struct UISlot {
    pub plant: PlantType,
    pub x: i64,
    pub y: i64,
    pub selected: bool,
    pub cooldown: i64,
}

/// Left edge of slot `i`.
pub open spec fn slot_x(i: int) -> int {
    SUN_BOX_WIDTH + SLOT_PADDING + i * (SLOT_SIZE + SLOT_PADDING)
}

/// Top edge of every slot.
pub open spec fn slot_y() -> int {
    (UI_BAR_HEIGHT - SLOT_SIZE) / 2
}

/// Whether the point (mx, my) lies on slot `s`.
pub open spec fn slot_hit(s: UISlot, mx: int, my: int) -> bool {
    &&& s.x <= mx < s.x + SLOT_SIZE
    &&& s.y <= my < s.y + SLOT_SIZE
}

/// Index of the first slot at or after `i` under the point, or the slot
/// count if none is.
pub open spec fn first_slot_hit_from(slots: Seq<UISlot>, mx: int, my: int, i: int) -> int
    decreases slots.len() - i,
{
    if i < 0 || i >= slots.len() {
        slots.len() as int
    } else if slot_hit(slots[i], mx, my) {
        i
    } else {
        first_slot_hit_from(slots, mx, my, i + 1)
    }
}

/// Index of the first slot at or after `i` holding the given type, or the
/// slot count if none does.
pub open spec fn first_slot_of_type_from(slots: Seq<UISlot>, t: PlantType, i: int) -> int
    decreases slots.len() - i,
{
    if i < 0 || i >= slots.len() {
        slots.len() as int
    } else if slots[i].plant == t {
        i
    } else {
        first_slot_of_type_from(slots, t, i + 1)
    }
}

/// If no slot before `i` is under the point, the first hit overall is the
/// first hit at or after `i`.
pub proof fn lemma_first_slot_hit_prefix(slots: Seq<UISlot>, mx: int, my: int, i: int)
    requires
        0 <= i <= slots.len(),
        forall|j: int| 0 <= j < i ==> !slot_hit(slots[j], mx, my),
    ensures
        first_slot_hit_from(slots, mx, my, 0) == first_slot_hit_from(slots, mx, my, i),
    decreases i,
{
    if i > 0 {
        lemma_first_slot_hit_prefix(slots, mx, my, i - 1);
    }
}

/// If no slot before `i` holds the type, the first such slot overall is
/// the first at or after `i`.
pub proof fn lemma_first_slot_of_type_prefix(slots: Seq<UISlot>, t: PlantType, i: int)
    requires
        0 <= i <= slots.len(),
        forall|j: int| 0 <= j < i ==> slots[j].plant != t,
    ensures
        first_slot_of_type_from(slots, t, 0) == first_slot_of_type_from(slots, t, i),
    decreases i,
{
    if i > 0 {
        lemma_first_slot_of_type_prefix(slots, t, i - 1);
    }
}

/// The bar: the slots of the plants taken into battle and the current
/// selection, if any.
pub struct UIBar {
    pub slots: Vec<UISlot>,
    pub selected: Option<PlantType>,
    pub sun_box_width: i64,
}

impl UIBar {
    /// Well-formedness: no negative cooldowns, slots on the bar.
    pub open spec fn wf(self) -> bool {
        &&& self.slots@.len() <= MAX_SELECTED_PLANTS
        &&& forall|i: int|
            0 <= i < self.slots@.len() ==> {
                &&& (#[trigger] self.slots@[i]).cooldown >= 0
                &&& self.slots@[i].x == slot_x(i)
                &&& self.slots@[i].y == slot_y()
            }
    }

    /// Builds the bar for the chosen plant types: one slot per type, laid
    /// out left to right, nothing selected and every cooldown ready.
    pub fn new(selected_plants: Vec<PlantType>) -> (bar: UIBar)
        requires
            selected_plants@.len() <= MAX_SELECTED_PLANTS,
        ensures
            bar.slots@.len() == selected_plants@.len(),
            forall|i: int|
                0 <= i < bar.slots@.len() ==> #[trigger] bar.slots@[i] == (UISlot {
                    plant: selected_plants@[i],
                    x: slot_x(i) as i64,
                    y: slot_y() as i64,
                    selected: false,
                    cooldown: 0,
                }),
            bar.selected is None,
            bar.sun_box_width == SUN_BOX_WIDTH,
            bar.wf(),
    {
        let mut slots: Vec<UISlot> = Vec::new();
        let mut i: usize = 0;
        while i < selected_plants.len()
            invariant
                0 <= i <= selected_plants@.len(),
                selected_plants@.len() <= MAX_SELECTED_PLANTS,
                slots@.len() == i,
                forall|j: int|
                    0 <= j < i ==> #[trigger] slots@[j] == (UISlot {
                        plant: selected_plants@[j],
                        x: slot_x(j) as i64,
                        y: slot_y() as i64,
                        selected: false,
                        cooldown: 0,
                    }),
            decreases selected_plants@.len() - i,
        {
            proof {
                assert(0 <= (i as i64) * (SLOT_SIZE + SLOT_PADDING) <= 6 * 70_000)
                    by (nonlinear_arith)
                    requires
                        0 <= i <= 6,
                        SLOT_SIZE == 60_000,
                        SLOT_PADDING == 10_000,
                ;
            }
            let x = SUN_BOX_WIDTH + SLOT_PADDING + i as i64 * (SLOT_SIZE + SLOT_PADDING);
            let y = (UI_BAR_HEIGHT - SLOT_SIZE) / 2;
            slots.push(UISlot { plant: selected_plants[i], x, y, selected: false, cooldown: 0 });
            i = i + 1;
        }
        UIBar { slots, selected: None, sun_box_width: SUN_BOX_WIDTH }
    }

    /// Burns every slot's placement cooldown down by `dt`, stopping at
    /// zero.
    pub fn tick_cooldowns(&mut self, dt: i64)
        requires
            old(self).wf(),
            0 <= dt <= MAX_FRAME_MS,
        ensures
            final(self).slots@.len() == old(self).slots@.len(),
            forall|i: int|
                0 <= i < final(self).slots@.len() ==> #[trigger] final(self).slots@[i] == (UISlot {
                    cooldown: ticked_timer(old(self).slots@[i].cooldown as int, dt as int) as i64,
                    ..old(self).slots@[i]
                }),
            final(self).selected == old(self).selected,
            final(self).sun_box_width == old(self).sun_box_width,
            final(self).wf(),
    {
        let mut i: usize = 0;
        let n = self.slots.len();
        while i < n
            invariant
                0 <= i <= n,
                n == self.slots@.len(),
                self.slots@.len() == old(self).slots@.len(),
                0 <= dt <= MAX_FRAME_MS,
                forall|j: int|
                    0 <= j < i ==> #[trigger] self.slots@[j] == (UISlot {
                        cooldown: ticked_timer(
                            old(self).slots@[j].cooldown as int,
                            dt as int,
                        ) as i64,
                        ..old(self).slots@[j]
                    }),
                forall|j: int| i <= j < n ==> self.slots@[j] == old(self).slots@[j],
                self.selected == old(self).selected,
                self.sun_box_width == old(self).sun_box_width,
                old(self).wf(),
            decreases n - i,
        {
            let c = self.slots[i].cooldown;
            let nc: i64 = if c - dt < 0 {
                0
            } else {
                c - dt
            };
            self.slots[i].cooldown = nc;
            i = i + 1;
        }
    }

    /// A pointer press on the bar: the first slot under the point (if
    /// any) becomes the selection and every other slot is deselected; a
    /// press elsewhere changes nothing.
    pub fn handle_click(&mut self, mouse_x: i64, mouse_y: i64)
        requires
            old(self).wf(),
            -MOUSE_LIMIT <= mouse_x <= MOUSE_LIMIT,
            -MOUSE_LIMIT <= mouse_y <= MOUSE_LIMIT,
        ensures
            ({
                let hit = first_slot_hit_from(
                    old(self).slots@,
                    mouse_x as int,
                    mouse_y as int,
                    0,
                );
                if hit < old(self).slots@.len() {
                    &&& final(self).slots@.len() == old(self).slots@.len()
                    &&& forall|j: int|
                        0 <= j < final(self).slots@.len() ==> #[trigger] final(self).slots@[j]
                            == (UISlot { selected: j == hit, ..old(self).slots@[j] })
                    &&& final(self).selected == Some(old(self).slots@[hit].plant)
                    &&& final(self).sun_box_width == old(self).sun_box_width
                } else {
                    *final(self) == *old(self)
                }
            }),
            final(self).wf(),
    {
        let n = self.slots.len();
        let mut i: usize = 0;
        let mut found: bool = false;
        while i < n && !found
            invariant
                0 <= i <= n,
                n == self.slots@.len(),
                *self == *old(self),
                self.wf(),
                forall|j: int|
                    0 <= j < i ==> !slot_hit(self.slots@[j], mouse_x as int, mouse_y as int),
                found ==> i < n && slot_hit(self.slots@[i as int], mouse_x as int, mouse_y as int),
            decreases n - i + (if found {
                0int
            } else {
                1int
            }),
        {
            let sx = self.slots[i].x;
            let sy = self.slots[i].y;
            if sx <= mouse_x && mouse_x < sx + SLOT_SIZE && sy <= mouse_y && mouse_y < sy
                + SLOT_SIZE {
                found = true;
            } else {
                i = i + 1;
            }
        }
        proof {
            lemma_first_slot_hit_prefix(old(self).slots@, mouse_x as int, mouse_y as int, i as int);
        }
        if found {
            let picked = self.slots[i].plant;
            self.selected = Some(picked);
            let mut j: usize = 0;
            while j < n
                invariant
                    0 <= j <= n,
                    0 <= i < n,
                    n == self.slots@.len(),
                    self.slots@.len() == old(self).slots@.len(),
                    forall|k: int|
                        0 <= k < j ==> #[trigger] self.slots@[k] == (UISlot {
                            selected: k == i,
                            ..old(self).slots@[k]
                        }),
                    forall|k: int| j <= k < n ==> self.slots@[k] == old(self).slots@[k],
                    self.selected == Some(old(self).slots@[i as int].plant),
                    self.sun_box_width == old(self).sun_box_width,
                    old(self).wf(),
                decreases n - j,
            {
                self.slots[j].selected = j == i;
                j = j + 1;
            }
        }
    }

    /// Drops the current selection and deselects every slot.
    pub fn clear_selection(&mut self)
        requires
            old(self).wf(),
        ensures
            final(self).slots@.len() == old(self).slots@.len(),
            forall|j: int|
                0 <= j < final(self).slots@.len() ==> #[trigger] final(self).slots@[j] == (UISlot {
                    selected: false,
                    ..old(self).slots@[j]
                }),
            final(self).selected is None,
            final(self).sun_box_width == old(self).sun_box_width,
            final(self).wf(),
    {
        self.selected = None;
        let n = self.slots.len();
        let mut j: usize = 0;
        while j < n
            invariant
                0 <= j <= n,
                n == self.slots@.len(),
                self.slots@.len() == old(self).slots@.len(),
                forall|k: int|
                    0 <= k < j ==> #[trigger] self.slots@[k] == (UISlot {
                        selected: false,
                        ..old(self).slots@[k]
                    }),
                forall|k: int| j <= k < n ==> self.slots@[k] == old(self).slots@[k],
                self.selected is None,
                self.sun_box_width == old(self).sun_box_width,
                old(self).wf(),
            decreases n - j,
        {
            self.slots[j].selected = false;
            j = j + 1;
        }
    }
}

} // verus!
