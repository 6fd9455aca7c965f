//! The effect of a click: pick up, place, swap, merge, shift-move, number-key
//! swap, clone, drop, double-click collect and paint-drag.

use vstd::prelude::*;
use crate::container::state::{Slot, SlotBack, WindowKind, WindowState};
use crate::item::{spec_max_stack, spec_stackable, ItemModel};

verus! {

/// The slot number that stands for a click outside the window.
pub const OUTSIDE: i16 = -999;

// ── Merging a stack into a range of slots ─────────────────────────────────

/// What merging leaves: the window, what is left of the stack, and whether
/// anything moved.
pub struct Merged {
    pub state: WindowState,
    pub stack: ItemModel,
    pub moved: bool,
}

/// The `k`-th slot visited in `[start, end)`.
pub open spec fn visited(start: int, end: int, reverse: bool, k: int) -> int {
    if reverse {
        end - 1 - k
    } else {
        start + k
    }
}

/// Topping up the stacks of the same item already there, from the `k`-th
/// visited slot on.
pub open spec fn merge_top_up(
    slots: Seq<Slot>,
    m: Merged,
    start: int,
    end: int,
    reverse: bool,
    k: int,
) -> Merged
    decreases end - start - k,
{
    if k >= end - start || m.stack.count == 0 {
        m
    } else {
        let i = visited(start, end, reverse, k);
        let cap = spec_max_stack(m.stack);
        let next = match m.state.read(slots, i) {
            Some(have) => if spec_stackable(have, m.stack) && have.count + m.stack.count <= cap {
                Merged {
                    state: m.state.write(
                        slots,
                        i,
                        Some(have.with_count(have.count + m.stack.count)),
                    ),
                    stack: m.stack.with_count(0),
                    moved: true,
                }
            } else if spec_stackable(have, m.stack) && have.count < cap {
                Merged {
                    state: m.state.write(slots, i, Some(have.with_count(cap))),
                    stack: m.stack.with_count(m.stack.count - (cap - have.count)),
                    moved: true,
                }
            } else {
                m
            },
            None => m,
        };
        merge_top_up(slots, next, start, end, reverse, k + 1)
    }
}

/// Placing what is left into the first empty slot that takes it, from the
/// `k`-th visited slot on.
pub open spec fn merge_place(
    slots: Seq<Slot>,
    m: Merged,
    start: int,
    end: int,
    reverse: bool,
    k: int,
) -> Merged
    decreases end - start - k,
{
    if k >= end - start {
        m
    } else {
        let i = visited(start, end, reverse, k);
        if m.state.read(slots, i) is None && slots[i].spec_item_valid() {
            let put = if m.stack.count < slots[i].spec_limit() {
                m.stack.count
            } else {
                slots[i].spec_limit()
            };
            Merged {
                state: m.state.write(slots, i, Some(m.stack.with_count(put))),
                stack: m.stack.with_count(m.stack.count - put),
                moved: true,
            }
        } else {
            merge_place(slots, m, start, end, reverse, k + 1)
        }
    }
}

/// Merging a stack into `[start, end)`: top up same-item stacks, then use one
/// empty slot.
pub open spec fn merge_spec(
    slots: Seq<Slot>,
    state: WindowState,
    stack: ItemModel,
    start: int,
    end: int,
    reverse: bool,
) -> Merged {
    let m0 = Merged { state, stack, moved: false };
    let m1 = if spec_max_stack(stack) > 1 {
        merge_top_up(slots, m0, start, end, reverse, 0)
    } else {
        m0
    };
    if m1.stack.count > 0 {
        merge_place(slots, m1, start, end, reverse, 0)
    } else {
        m1
    }
}

/// Where a shift-click on slot `s` sends its stack: the range and whether it is
/// filled from the end.
pub open spec fn transfer_range(kind: WindowKind, own: int, total: int, s: int) -> Option<
    (int, int, bool),
> {
    if kind == WindowKind::Player {
        if 0 <= s <= 8 {
            Some((9, 45, false))
        } else if s <= 35 {
            Some((36, 45, false))
        } else if s <= 44 {
            Some((9, 36, false))
        } else {
            None
        }
    } else if s < own {
        Some((own, total, true))
    } else {
        Some((0, own, false))
    }
}

/// One shift-click transfer from slot `s`: the window after it and the stack
/// that was there, if any of it moved.
pub open spec fn transfer_spec(
    kind: WindowKind,
    slots: Seq<Slot>,
    own: int,
    st: WindowState,
    s: int,
) -> (WindowState, Option<ItemModel>) {
    match st.read(slots, s) {
        None => (st, None),
        Some(original) => match transfer_range(kind, own, slots.len() as int, s) {
            None => (st, None),
            Some((start, end, reverse)) => {
                let m = merge_spec(slots, st, original, start, end, reverse);
                if m.moved {
                    (
                        m.state.write(slots, s, m.stack.remaining(m.stack.count)),
                        if m.stack.count == original.count {
                            None
                        } else {
                            Some(original)
                        },
                    )
                } else {
                    (m.state, None)
                }
            },
        },
    }
}

/// How many items slot `s` holds.
pub open spec fn count_at(slots: Seq<Slot>, st: WindowState, s: int) -> nat {
    match st.read(slots, s) {
        Some(item) => if item.count > 0 {
            item.count as nat
        } else {
            0
        },
        None => 0,
    }
}

/// Transfers repeated while slot `s` still holds items of `id` and each of them
/// shrinks the stack.
pub open spec fn transfer_rest(
    kind: WindowKind,
    slots: Seq<Slot>,
    own: int,
    st: WindowState,
    s: int,
    id: int,
) -> WindowState
    decreases count_at(slots, st, s),
{
    match st.read(slots, s) {
        None => st,
        Some(now) => if now.id != id {
            st
        } else {
            let (next, moved) = transfer_spec(kind, slots, own, st, s);
            if moved is Some && count_at(slots, next, s) < count_at(slots, st, s) {
                transfer_rest(kind, slots, own, next, s, id)
            } else {
                next
            }
        },
    }
}

/// A shift-click on slot `s`.
pub open spec fn shift_spec(
    kind: WindowKind,
    slots: Seq<Slot>,
    own: int,
    st: WindowState,
    s: int,
) -> (WindowState, Option<ItemModel>) {
    let (next, moved) = transfer_spec(kind, slots, own, st, s);
    match moved {
        None => (next, None),
        Some(m) => (transfer_rest(kind, slots, own, next, s, m.id), Some(m)),
    }
}

// ── Plain clicks ──────────────────────────────────────────────────────────

/// The carried stack after a click outside the window: dropped whole by the
/// left button, one item by the right.
pub open spec fn drop_cursor_spec(st: WindowState, button: int) -> WindowState {
    match st.cursor {
        None => st,
        Some(c) => st.with_cursor(
            if button == 0 {
                None
            } else {
                c.remaining(c.count - 1)
            },
        ),
    }
}

pub open spec fn min_of(a: int, b: int) -> int {
    if a < b {
        a
    } else {
        b
    }
}

/// How many items a click puts into an empty slot.
pub open spec fn placed_count(slot: Slot, cur: ItemModel, button: int) -> int {
    min_of(
        if button == 0 {
            cur.count
        } else {
            1
        },
        slot.spec_limit(),
    )
}

/// How many items a click adds to a matching stack of `have` items.
pub open spec fn added_count(slot: Slot, cur: ItemModel, have: int, button: int) -> int {
    let cap = min_of(slot.spec_limit(), spec_max_stack(cur));
    min_of(
        if button == 0 {
            cur.count
        } else {
            1
        },
        if have < cap {
            cap - have
        } else {
            0
        },
    )
}

/// How many items a click takes from a stack: all of it, or the larger half.
pub open spec fn taken_count(have: int, button: int) -> int {
    if button == 0 {
        have
    } else {
        (have + 1) / 2
    }
}

/// A plain click on slot `s`: place, take, merge, swap, or absorb a result.
pub open spec fn pick_place_spec(slots: Seq<Slot>, st: WindowState, s: int, button: int) -> WindowState {
    let slot = slots[s];
    match (st.cursor, st.read(slots, s)) {
        (None, None) => st,
        (Some(cur), None) => if slot.spec_item_valid() {
            let take = placed_count(slot, cur, button);
            st.write(slots, s, Some(cur.with_count(take))).with_cursor(
                cur.remaining(cur.count - take),
            )
        } else {
            st
        },
        (None, Some(ss)) => {
            let take = taken_count(ss.count, button);
            st.write(slots, s, ss.remaining(ss.count - take)).with_cursor(
                Some(ss.with_count(take)),
            )
        },
        (Some(cur), Some(ss)) => if slot.spec_item_valid() {
            if spec_stackable(cur, ss) {
                let put = added_count(slot, cur, ss.count, button);
                if put > 0 {
                    st.write(slots, s, Some(ss.with_count(ss.count + put))).with_cursor(
                        cur.remaining(cur.count - put),
                    )
                } else {
                    st
                }
            } else if cur.count <= slot.spec_limit() {
                st.write(slots, s, Some(cur)).with_cursor(Some(ss))
            } else {
                st
            }
        } else if spec_stackable(cur, ss) && spec_max_stack(cur) > 1 && ss.count + cur.count
            <= spec_max_stack(cur) {
            st.write(slots, s, None).with_cursor(Some(cur.with_count(cur.count + ss.count)))
        } else {
            st
        },
    }
}

/// A number key over slot `s`: exchange its stack with hotbar place `hotbar`
/// (0 to 8).
pub open spec fn hotbar_swap_spec(slots: Seq<Slot>, st: WindowState, s: int, hotbar: int) -> WindowState {
    let back = SlotBack::Player((36 + hotbar) as usize);
    let hot = st.at(back);
    match st.read(slots, s) {
        Some(ss) => if hot is None || (slots[s].spec_is_player() && slots[s].spec_item_valid()) {
            st.put(back, Some(ss)).write(slots, s, hot)
        } else {
            st
        },
        None => if hot is Some && slots[s].spec_item_valid() {
            st.put(back, None).write(slots, s, hot)
        } else {
            st
        },
    }
}

/// Taking a full copy of the stack in slot `s`.
pub open spec fn clone_spec(slots: Seq<Slot>, st: WindowState, s: int) -> WindowState {
    match st.read(slots, s) {
        Some(ss) => st.with_cursor(Some(ss.with_count(spec_max_stack(ss)))),
        None => st,
    }
}

/// Dropping from slot `s`: one item with button 0, the whole stack otherwise.
pub open spec fn drop_spec(slots: Seq<Slot>, st: WindowState, s: int, button: int) -> WindowState {
    match st.read(slots, s) {
        Some(ss) => st.write(
            slots,
            s,
            if button == 0 {
                ss.remaining(ss.count - 1)
            } else {
                None
            },
        ),
        None => st,
    }
}

// ── Double-click collect ──────────────────────────────────────────────────

/// One sweep over the window, gathering stacks that match `cur` until it is
/// full. The first sweep (`partial_only`) leaves full stacks alone.
pub open spec fn collect_sweep(
    slots: Seq<Slot>,
    st: WindowState,
    cur: ItemModel,
    partial_only: bool,
    backwards: bool,
    i: int,
) -> (WindowState, ItemModel)
    decreases slots.len() - i,
{
    if i >= slots.len() || cur.count >= spec_max_stack(cur) {
        (st, cur)
    } else {
        let idx = if backwards {
            slots.len() - 1 - i
        } else {
            i
        };
        match st.read(slots, idx) {
            Some(other) => if spec_stackable(other, cur) && (!partial_only || other.count
                != spec_max_stack(other)) {
                let take = min_of(spec_max_stack(cur) - cur.count, other.count);
                collect_sweep(
                    slots,
                    st.write(slots, idx, other.remaining(other.count - take)),
                    cur.with_count(cur.count + take),
                    partial_only,
                    backwards,
                    i + 1,
                )
            } else {
                collect_sweep(slots, st, cur, partial_only, backwards, i + 1)
            },
            None => collect_sweep(slots, st, cur, partial_only, backwards, i + 1),
        }
    }
}

/// A double-click on an empty slot: collect matching items onto the cursor.
pub open spec fn collect_spec(slots: Seq<Slot>, st: WindowState, s: int, button: int) -> WindowState {
    match st.cursor {
        Some(cur) => if st.read(slots, s) is None {
            let (st1, cur1) = collect_sweep(slots, st, cur, true, button != 0, 0);
            let (st2, cur2) = collect_sweep(slots, st1, cur1, false, button != 0, 0);
            st2.with_cursor(Some(cur2))
        } else {
            st
        },
        None => st,
    }
}

// ── Paint-drag ────────────────────────────────────────────────────────────

pub open spec fn spec_valid_drag_mode(mode: int, creative: bool) -> bool {
    mode == 0 || mode == 1 || (mode == 2 && creative)
}

/// A stack can be painted onto a slot's contents: empty, or the same item and
/// not over the stack limit.
pub open spec fn spec_can_add(existing: Option<ItemModel>, stack: ItemModel) -> bool {
    match existing {
        None => true,
        Some(have) => spec_stackable(have, stack) && have.count <= spec_max_stack(stack),
    }
}

/// The amount a drag over `n` slots deposits in each.
pub open spec fn spec_drag_amount(drag_mode: int, cursor: ItemModel, n: int) -> int {
    if drag_mode == 0 {
        cursor.count / if n < 1 {
            1
        } else {
            n
        }
    } else if drag_mode == 1 {
        1
    } else {
        spec_max_stack(cursor)
    }
}

/// What a painted slot holds afterwards.
pub open spec fn drag_total(slot: Slot, drag_mode: int, cursor: ItemModel, n: int, have: int) -> int {
    min_of(
        spec_drag_amount(drag_mode, cursor, n) + have,
        min_of(spec_max_stack(cursor), slot.spec_limit()),
    )
}

pub open spec fn count_of(item: Option<ItemModel>) -> int {
    match item {
        Some(stack) => stack.count,
        None => 0,
    }
}

/// Depositing into the painted slots from the `k`-th on, with `remaining` items
/// still carried.
pub open spec fn drag_deposit(
    slots: Seq<Slot>,
    st: WindowState,
    cursor: ItemModel,
    painted: Seq<usize>,
    k: int,
    remaining: int,
) -> (WindowState, int)
    decreases painted.len() - k,
{
    if k >= painted.len() {
        (st, remaining)
    } else {
        let s = painted[k] as int;
        let existing = st.read(slots, s);
        if spec_can_add(existing, cursor) && slots[s].spec_item_valid() && cursor.count
            >= painted.len() {
            let have = count_of(existing);
            let total = drag_total(slots[s], st.drag_mode, cursor, painted.len() as int, have);
            drag_deposit(
                slots,
                st.write(slots, s, Some(cursor.with_count(total))),
                cursor,
                painted,
                k + 1,
                remaining - (total - have),
            )
        } else {
            drag_deposit(slots, st, cursor, painted, k + 1, remaining)
        }
    }
}

/// The carried stack when `n` items are left of it; the count is a byte.
pub open spec fn carried(cursor: ItemModel, n: int) -> Option<ItemModel> {
    if n > 0 {
        Some(cursor.with_count(n % 256))
    } else {
        None
    }
}

/// The end of a drag: deposit, keep the rest, forget the painted slots.
pub open spec fn drag_end_spec(slots: Seq<Slot>, st: WindowState) -> WindowState {
    match st.cursor {
        Some(c) if st.drag_slots.len() > 0 => {
            let (next, left) = drag_deposit(slots, st, c, st.drag_slots, 0, c.count);
            next.with_cursor(carried(c, left)).drag_reset()
        },
        _ => st.drag_reset(),
    }
}

/// Painting slot `slot_id`, if it takes the carried stack and there is an item
/// left for it.
pub open spec fn drag_add_spec(slots: Seq<Slot>, st: WindowState, slot_id: int) -> WindowState {
    match st.cursor {
        Some(c) => if 0 <= slot_id < slots.len() && spec_can_add(st.read(slots, slot_id), c)
            && slots[slot_id].spec_item_valid() && c.count > st.drag_slots.len()
            && !st.drag_slots.contains(slot_id as usize) {
            WindowState { drag_slots: st.drag_slots.push(slot_id as usize), ..st }
        } else {
            st
        },
        None => st,
    }
}

/// One step of a drag. The low two bits of `button` say start, add or end; the
/// next two choose the distribution.
pub open spec fn drag_spec(slots: Seq<Slot>, st: WindowState, slot_id: int, button: i8, creative: bool) -> WindowState {
    let event = (button & 3) as int;
    let mode = ((button >> 2) & 3) as int;
    let now = WindowState { drag_event: event, ..st };
    if (st.drag_event != 1 || event != 2) && st.drag_event != event {
        now.drag_reset()
    } else if st.cursor is None {
        now.drag_reset()
    } else if event == 0 {
        let chosen = WindowState { drag_mode: mode, ..now };
        if spec_valid_drag_mode(mode, creative) {
            WindowState { drag_event: 1, drag_slots: Seq::empty(), ..chosen }
        } else {
            chosen.drag_reset()
        }
    } else if event == 1 {
        drag_add_spec(slots, now, slot_id)
    } else if event == 2 {
        drag_end_spec(slots, now)
    } else {
        now.drag_reset()
    }
}

// ── Every click ───────────────────────────────────────────────────────────

/// A click: the window after it, and the copy of the clicked stack that the
/// click packet carries.
pub open spec fn slot_click_spec(
    kind: WindowKind,
    slots: Seq<Slot>,
    st: WindowState,
    slot_id: i16,
    button: i8,
    mode: i8,
    creative: bool,
) -> (WindowState, Option<ItemModel>) {
    let s = slot_id as int;
    let inside = 0 <= s < slots.len();
    let own = st.inv.len() as int;
    if mode == 5 {
        (drag_spec(slots, st, s, button, creative), None)
    } else if st.drag_event != 0 {
        (st.drag_reset(), None)
    } else if (mode == 0 || mode == 1) && (button == 0 || button == 1) {
        if slot_id == OUTSIDE {
            (drop_cursor_spec(st, button as int), None)
        } else if !inside {
            (st, None)
        } else if mode == 1 {
            shift_spec(kind, slots, own, st, s)
        } else {
            (pick_place_spec(slots, st, s, button as int), st.read(slots, s))
        }
    } else if mode == 2 && 0 <= button < 9 {
        (
            if inside {
                hotbar_swap_spec(slots, st, s, button as int)
            } else {
                st
            },
            None,
        )
    } else if mode == 3 && creative && st.cursor is None && slot_id >= 0 {
        (
            if inside {
                clone_spec(slots, st, s)
            } else {
                st
            },
            None,
        )
    } else if mode == 4 && st.cursor is None && slot_id >= 0 {
        (
            if inside {
                drop_spec(slots, st, s, button as int)
            } else {
                st
            },
            None,
        )
    } else if mode == 6 && inside {
        (collect_spec(slots, st, s, button as int), None)
    } else {
        (st, None)
    }
}

/// A click that would take one item from a stack of none has no meaning: a
/// right click that places or drops from an empty carried stack, or a drop from
/// a slot whose stack is empty.
pub open spec fn click_defined(
    slots: Seq<Slot>,
    st: WindowState,
    slot_id: i16,
    button: i8,
    mode: i8,
) -> bool {
    let s = slot_id as int;
    let inside = 0 <= s < slots.len();
    &&& (st.drag_event == 0 && (mode == 0 || mode == 1) && button == 1 && slot_id == OUTSIDE
        && st.cursor is Some) ==> st.cursor->0.count > 0
    &&& (st.drag_event == 0 && mode == 0 && button == 1 && inside && st.cursor is Some
        && slots[s].spec_item_valid() && match st.read(slots, s) {
        None => true,
        Some(ss) => spec_stackable(st.cursor->0, ss) && added_count(
            slots[s],
            st.cursor->0,
            ss.count,
            1,
        ) > 0,
    }) ==> st.cursor->0.count > 0
    &&& (st.drag_event == 0 && mode == 4 && button == 0 && st.cursor is None && inside && st.read(
        slots,
        s,
    ) is Some) ==> st.read(slots, s)->0.count > 0
}

} // verus!
