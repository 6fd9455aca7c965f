//! What each kind of click does to the clicked slot and the carried stack.

use vstd::prelude::*;
use crate::container::click::{collect_sweep, drag_deposit, min_of, slot_click_spec, OUTSIDE};
use crate::container::laws::{counts_sane, fits, law_write_then_read, painted_inside};
use crate::container::state::{Slot, SlotBack, SlotKind, WindowKind, WindowState};
use crate::item::{spec_max_stack, spec_stackable, ItemModel};

verus! {

/// No slot but one differs.
pub open spec fn others_same(slots: Seq<Slot>, a: WindowState, b: WindowState, s: int) -> bool {
    forall|t: int|
        0 <= t < slots.len() && t != s ==> #[trigger] b.read(slots, t) == a.read(slots, t)
}

/// A slot takes as many: one in armor and the like, else up to 64.
pub open spec fn roomy(slot: Slot, n: int) -> bool {
    n <= if slot.kind == SlotKind::Limit1 {
        1int
    } else {
        64
    }
}

// ── Taking and placing ────────────────────────────────────────────────────

/// With nothing carried a left click takes the whole stack, and a right click half of it,
/// the larger half of an odd one; the slot keeps the rest.
pub proof fn law_clicks_take_all_or_half(
    kind: WindowKind,
    slots: Seq<Slot>,
    st: WindowState,
    slot_id: i16,
    button: i8,
    creative: bool,
    x: ItemModel,
)
    requires
        fits(kind, slots, st),
        st.drag_event == 0,
        button == 0 || button == 1,
        0 <= slot_id < slots.len(),
        st.cursor is None,
        st.read(slots, slot_id as int) == Some(x),
        x.count > 0,
    ensures
        ({
            let (after, told) = slot_click_spec(kind, slots, st, slot_id, button, 0, creative);
            let left = after.read(slots, slot_id as int);
            &&& after.cursor matches Some(c) && c == x.with_count(c.count) && c.count == if button
                == 0 {
                x.count
            } else {
                x.count - x.count / 2
            }
            &&& button == 0 || x.count == 1 ==> left is None
            &&& button == 1 && x.count > 1 ==> left == Some(x.with_count(x.count / 2))
            &&& others_same(slots, st, after, slot_id as int)
            &&& told == Some(x)
        }),
{
    let s = slot_id as int;
    law_write_then_read(kind, slots, st, s, None);
    law_write_then_read(kind, slots, st, s, x.remaining(x.count / 2));
    assert(x.count - (x.count + 1) / 2 == x.count / 2);
    assert(x.count == 1 ==> x.count / 2 == 0);
    assert(x.count > 1 ==> x.count / 2 > 0);
}

/// Into an empty slot that takes items a left click puts as many of the carried items as it
/// takes, and a right click one; the rest stays carried.
pub proof fn law_clicks_place_all_or_one(
    kind: WindowKind,
    slots: Seq<Slot>,
    st: WindowState,
    slot_id: i16,
    button: i8,
    creative: bool,
    c: ItemModel,
)
    requires
        fits(kind, slots, st),
        st.drag_event == 0,
        button == 0 || button == 1,
        0 <= slot_id < slots.len(),
        st.cursor == Some(c),
        c.count > 0,
        st.read(slots, slot_id as int) is None,
        slots[slot_id as int].kind != SlotKind::Output,
    ensures
        ({
            let slot = slots[slot_id as int];
            let (after, told) = slot_click_spec(kind, slots, st, slot_id, button, 0, creative);
            &&& after.read(slots, slot_id as int) matches Some(put) && {
                &&& put == c.with_count(put.count)
                &&& button == 1 ==> put.count == 1
                &&& button == 0 && roomy(slot, c.count) ==> put.count == c.count
                &&& button == 0 && !roomy(slot, c.count) ==> roomy(slot, put.count) && !roomy(
                    slot,
                    put.count + 1,
                )
                &&& after.cursor == if put.count == c.count {
                    None
                } else {
                    Some(c.with_count(c.count - put.count))
                }
            }
            &&& others_same(slots, st, after, slot_id as int)
            &&& told is None
        }),
{
    let s = slot_id as int;
    let n = crate::container::click::placed_count(slots[s], c, button as int);
    law_write_then_read(kind, slots, st, s, Some(c.with_count(n)));
}

/// Onto a stack of the same item a left click adds as many of the carried items as there is
/// room for, and a right click one, if there is room; nothing is put over the stack's limit
/// or the slot's.
pub proof fn law_clicks_add_to_the_same_item(
    kind: WindowKind,
    slots: Seq<Slot>,
    st: WindowState,
    slot_id: i16,
    button: i8,
    creative: bool,
    c: ItemModel,
    x: ItemModel,
)
    requires
        fits(kind, slots, st),
        st.drag_event == 0,
        button == 0 || button == 1,
        0 <= slot_id < slots.len(),
        st.cursor == Some(c),
        c.count > 0,
        st.read(slots, slot_id as int) == Some(x),
        c.id == x.id,
        c.damage == x.damage,
        slots[slot_id as int].kind != SlotKind::Output,
    ensures
        ({
            let slot = slots[slot_id as int];
            let most = spec_max_stack(x);
            let fits_in = |n: int| roomy(slot, n) && n <= most;
            let (after, told) = slot_click_spec(kind, slots, st, slot_id, button, 0, creative);
            &&& after.read(slots, slot_id as int) matches Some(now) && {
                let added = now.count - x.count;
                &&& now == x.with_count(now.count)
                &&& 0 <= added <= c.count
                &&& !fits_in(x.count + 1) ==> added == 0
                &&& fits_in(x.count + 1) && button == 1 ==> added == 1
                &&& fits_in(x.count + c.count) && button == 0 ==> added == c.count
                &&& fits_in(x.count + 1) && !fits_in(x.count + c.count) && button == 0 ==> fits_in(
                    now.count,
                ) && !fits_in(now.count + 1)
                &&& after.cursor == if added == c.count {
                    None
                } else {
                    Some(c.with_count(c.count - added))
                }
            }
            &&& others_same(slots, st, after, slot_id as int)
            &&& told == Some(x)
        }),
{
    let s = slot_id as int;
    let n = crate::container::click::added_count(slots[s], c, x.count, button as int);
    law_write_then_read(kind, slots, st, s, Some(x.with_count(x.count + n)));
    assert(x.with_count(x.count) == x);
    assert(c.with_count(c.count) == c);
}

/// Another item in the slot is exchanged with the carried stack, if the slot takes that
/// whole; else nothing happens. Both buttons do the same.
pub proof fn law_clicks_exchange_other_items(
    kind: WindowKind,
    slots: Seq<Slot>,
    st: WindowState,
    slot_id: i16,
    button: i8,
    creative: bool,
    c: ItemModel,
    x: ItemModel,
)
    requires
        fits(kind, slots, st),
        st.drag_event == 0,
        button == 0 || button == 1,
        0 <= slot_id < slots.len(),
        st.cursor == Some(c),
        st.read(slots, slot_id as int) == Some(x),
        c.id != x.id || c.damage != x.damage,
        slots[slot_id as int].kind != SlotKind::Output,
    ensures
        ({
            let (after, told) = slot_click_spec(kind, slots, st, slot_id, button, 0, creative);
            &&& roomy(slots[slot_id as int], c.count) ==> after.read(slots, slot_id as int) == Some(
                c,
            ) && after.cursor == Some(x)
            &&& !roomy(slots[slot_id as int], c.count) ==> after == st
            &&& others_same(slots, st, after, slot_id as int)
            &&& told == Some(x)
        }),
{
    law_write_then_read(kind, slots, st, slot_id as int, Some(c));
}

/// Nothing is ever put into a result slot. Its stack goes whole onto the same item carried,
/// if that holds both and stacks at all; else nothing happens.
pub proof fn law_results_are_only_taken(
    kind: WindowKind,
    slots: Seq<Slot>,
    st: WindowState,
    slot_id: i16,
    button: i8,
    creative: bool,
    c: ItemModel,
)
    requires
        fits(kind, slots, st),
        st.drag_event == 0,
        button == 0 || button == 1,
        0 <= slot_id < slots.len(),
        st.cursor == Some(c),
        slots[slot_id as int].kind == SlotKind::Output,
    ensures
        ({
            let was = st.read(slots, slot_id as int);
            let (after, told) = slot_click_spec(kind, slots, st, slot_id, button, 0, creative);
            let taken = was matches Some(x) && x.id == c.id && x.damage == c.damage
                && spec_max_stack(c) > 1 && x.count + c.count <= spec_max_stack(c);
            &&& taken ==> after.read(slots, slot_id as int) is None && after.cursor == Some(
                c.with_count(c.count + was->0.count),
            )
            &&& !taken ==> after == st
            &&& others_same(slots, st, after, slot_id as int)
            &&& told == was
        }),
{
    law_write_then_read(kind, slots, st, slot_id as int, None);
}

/// With nothing carried, a click on an empty slot does nothing; nor does one past the
/// window's slots.
pub proof fn law_empty_clicks_do_nothing(
    kind: WindowKind,
    slots: Seq<Slot>,
    st: WindowState,
    slot_id: i16,
    button: i8,
    mode: i8,
    creative: bool,
)
    requires
        st.drag_event == 0,
        mode != 5,
        0 <= slot_id < slots.len() && st.read(slots, slot_id as int) is None && st.cursor is None
            && mode != 2 || slot_id >= slots.len() || slot_id < 0 && slot_id != OUTSIDE,
    ensures
        slot_click_spec(kind, slots, st, slot_id, button, mode, creative) == (
            st,
            None::<ItemModel>,
        ),
{
    assert(st.with_cursor(st.cursor) == st);
}

/// Outside the window a left click drops what is carried, a right click one of it. No slot
/// changes.
pub proof fn law_clicks_outside_drop(
    kind: WindowKind,
    slots: Seq<Slot>,
    st: WindowState,
    button: i8,
    mode: i8,
    creative: bool,
    c: ItemModel,
)
    requires
        st.drag_event == 0,
        button == 0 || button == 1,
        mode == 0 || mode == 1,
        st.cursor == Some(c),
        c.count > 0,
    ensures
        ({
            let (after, told) = slot_click_spec(kind, slots, st, OUTSIDE, button, mode, creative);
            &&& button == 0 || c.count == 1 ==> after.cursor is None
            &&& button == 1 && c.count > 1 ==> after.cursor == Some(c.with_count(c.count - 1))
            &&& after.inv == st.inv && after.player == st.player
            &&& told is None
        }),
{
}

// ── Keys ──────────────────────────────────────────────────────────────────

/// A number key exchanges the slot's stack with that place of the hotbar, where the slot may
/// hold it: into a result slot nothing goes, and out of a container only into an empty
/// hotbar place. Nothing carried changes, and no other slot.
pub proof fn law_number_keys_exchange_with_the_hotbar(
    kind: WindowKind,
    slots: Seq<Slot>,
    st: WindowState,
    slot_id: i16,
    button: i8,
    creative: bool,
)
    requires
        fits(kind, slots, st),
        st.drag_event == 0,
        0 <= button < 9,
        0 <= slot_id < slots.len(),
    ensures
        ({
            let s = slot_id as int;
            // The hotbar is the last nine slots of every window.
            let h = slots.len() - 9 + button;
            let here = st.read(slots, s);
            let there = st.read(slots, h);
            let takes = slots[s].kind != SlotKind::Output;
            let allowed = if here is Some {
                there is None || takes && slots[s].back is Player
            } else {
                there is Some && takes
            };
            let (after, told) = slot_click_spec(kind, slots, st, slot_id, button, 2, creative);
            &&& allowed ==> after.read(slots, s) == there && after.read(slots, h) == here
            &&& !allowed ==> after == st
            &&& forall|t: int|
                0 <= t < slots.len() && t != s && t != h ==> #[trigger] after.read(slots, t)
                    == st.read(slots, t)
            &&& after.cursor == st.cursor
            &&& told is None
        }),
{
    let s = slot_id as int;
    let h = slots.len() - 9 + button;
    let back = SlotBack::Player((36 + button) as usize);
    assert(slots[h].back == back);
    let here = st.read(slots, s);
    let there = st.read(slots, h);
    assert(st.put(back, here) == st.write(slots, h, here));
    assert(st.put(back, None) == st.write(slots, h, None));
    law_write_then_read(kind, slots, st, h, here);
    law_write_then_read(kind, slots, st, h, None);
    law_write_then_read(kind, slots, st.write(slots, h, here), s, there);
    law_write_then_read(kind, slots, st.write(slots, h, None), s, there);
}

/// In creative the middle button takes a full stack of what the slot holds, which keeps its
/// own; otherwise it does nothing.
pub proof fn law_the_middle_button_copies_in_creative(
    kind: WindowKind,
    slots: Seq<Slot>,
    st: WindowState,
    slot_id: i16,
    button: i8,
    creative: bool,
)
    requires
        st.drag_event == 0,
        0 <= slot_id < slots.len(),
    ensures
        ({
            let here = st.read(slots, slot_id as int);
            let (after, told) = slot_click_spec(kind, slots, st, slot_id, button, 3, creative);
            &&& creative && st.cursor is None ==> (here matches Some(x) ==> (
            after.cursor matches Some(c) && c.id == x.id && c.damage == x.damage && c.nbt == x.nbt
                && c.count == spec_max_stack(x)))
            &&& !creative || st.cursor is Some || here is None ==> after == st
            &&& after.inv == st.inv && after.player == st.player
            &&& told is None
        }),
{
    assert(st.with_cursor(st.cursor) == st);
}

/// The drop key drops one item of the slot, with control its whole stack, unless something
/// is carried.
pub proof fn law_the_drop_key_drops(
    kind: WindowKind,
    slots: Seq<Slot>,
    st: WindowState,
    slot_id: i16,
    button: i8,
    creative: bool,
    x: ItemModel,
)
    requires
        fits(kind, slots, st),
        st.drag_event == 0,
        0 <= slot_id < slots.len(),
        st.read(slots, slot_id as int) == Some(x),
        x.count > 0,
    ensures
        ({
            let (after, told) = slot_click_spec(kind, slots, st, slot_id, button, 4, creative);
            let left = after.read(slots, slot_id as int);
            &&& st.cursor is Some ==> after == st
            &&& st.cursor is None && (button != 0 || x.count == 1) ==> left is None
            &&& st.cursor is None && button == 0 && x.count > 1 ==> left == Some(
                x.with_count(x.count - 1),
            )
            &&& others_same(slots, st, after, slot_id as int)
            &&& after.cursor == st.cursor
            &&& told is None
        }),
{
    law_write_then_read(kind, slots, st, slot_id as int, None);
    law_write_then_read(kind, slots, st, slot_id as int, x.remaining(x.count - 1));
}

// ── Double click ──────────────────────────────────────────────────────────

spec fn place_of(slots: Seq<Slot>, backwards: bool, i: int) -> int {
    if backwards {
        slots.len() - 1 - i
    } else {
        i
    }
}

proof fn lemma_sweep(
    kind: WindowKind,
    slots: Seq<Slot>,
    st: WindowState,
    cur: ItemModel,
    partial_only: bool,
    backwards: bool,
    i: int,
)
    requires
        fits(kind, slots, st),
        counts_sane(slots, st),
        i >= 0,
        0 <= cur.count <= spec_max_stack(cur),
    ensures
        ({
            let (next, after) = collect_sweep(slots, st, cur, partial_only, backwards, i);
            &&& fits(kind, slots, next)
            &&& counts_sane(slots, next)
            &&& after == cur.with_count(after.count)
            &&& cur.count <= after.count <= spec_max_stack(cur)
            &&& after.count < spec_max_stack(cur) && !partial_only ==> forall|j: int|
                i <= j < slots.len() ==> (next.read(
                    slots,
                    #[trigger] place_of(slots, backwards, j),
                ) matches Some(y) ==> !spec_stackable(y, cur))
            &&& forall|t: int|
                0 <= t < slots.len() ==> (#[trigger] next.read(slots, t) == st.read(slots, t) || (
                st.read(slots, t) matches Some(y) && spec_stackable(y, cur) && (partial_only
                    ==> y.count != spec_max_stack(y))))
            &&& forall|j: int|
                0 <= j < i && j < slots.len() ==> next.read(
                    slots,
                    #[trigger] place_of(slots, backwards, j),
                ) == st.read(slots, place_of(slots, backwards, j))
        }),
    decreases slots.len() - i,
{
    if i < slots.len() && cur.count < spec_max_stack(cur) {
        let idx = place_of(slots, backwards, i);
        assert(place_of(slots, backwards, i) == idx);
        let (next, after) = collect_sweep(slots, st, cur, partial_only, backwards, i);
        match st.read(slots, idx) {
            Some(other) => {
                if spec_stackable(other, cur) && (!partial_only || other.count != spec_max_stack(
                    other,
                )) {
                    let take = min_of(spec_max_stack(cur) - cur.count, other.count);
                    let item = other.remaining(other.count - take);
                    law_write_then_read(kind, slots, st, idx, item);
                    let st1 = st.write(slots, idx, item);
                    assert forall|t: int| 0 <= t < slots.len() implies (#[trigger] st1.read(
                        slots,
                        t,
                    ) matches Some(x) ==> x.count >= 0) by {
                        if t != idx {
                            assert(st1.read(slots, t) == st.read(slots, t));
                        }
                    }
                    lemma_sweep(
                        kind,
                        slots,
                        st1,
                        cur.with_count(cur.count + take),
                        partial_only,
                        backwards,
                        i + 1,
                    );
                    assert forall|j: int| 0 <= j < i && j < slots.len() implies next.read(
                        slots,
                        #[trigger] place_of(slots, backwards, j),
                    ) == st.read(slots, place_of(slots, backwards, j)) by {
                        assert(place_of(slots, backwards, j) != idx);
                    }
                } else {
                    lemma_sweep(kind, slots, st, cur, partial_only, backwards, i + 1);
                }
            },
            None => {
                lemma_sweep(kind, slots, st, cur, partial_only, backwards, i + 1);
            },
        }
    }
}

/// A double click that does not fill the carried stack leaves nothing of its item in the
/// window, and one that fills it leaves it just full. Stacks of other items stay as they
/// are.
pub proof fn law_double_clicks_gather(
    kind: WindowKind,
    slots: Seq<Slot>,
    st: WindowState,
    slot_id: i16,
    button: i8,
    creative: bool,
    c: ItemModel,
    t: int,
)
    requires
        fits(kind, slots, st),
        counts_sane(slots, st),
        st.drag_event == 0,
        0 <= slot_id < slots.len(),
        st.cursor == Some(c),
        0 <= c.count <= spec_max_stack(c),
        st.read(slots, slot_id as int) is None,
        0 <= t < slots.len(),
    ensures
        ({
            let after = slot_click_spec(kind, slots, st, slot_id, button, 6, creative).0;
            &&& after.cursor matches Some(d) && d == c.with_count(d.count) && d.count
                <= spec_max_stack(c) && (d.count < spec_max_stack(c) ==> (after.read(
                slots,
                t,
            ) matches Some(y) ==> y.id != c.id || y.damage != c.damage))
            &&& (st.read(slots, t) matches Some(y) ==> (y.id != c.id || y.damage != c.damage
                ==> after.read(slots, t) == Some(y)))
        }),
{
    let backwards = button != 0;
    lemma_sweep(kind, slots, st, c, true, backwards, 0);
    let (st1, cur1) = collect_sweep(slots, st, c, true, backwards, 0);
    lemma_sweep(kind, slots, st1, cur1, false, backwards, 0);
    let (st2, cur2) = collect_sweep(slots, st1, cur1, false, backwards, 0);
    let j = place_of(slots, backwards, t);
    assert(place_of(slots, backwards, j) == t);
    let after = slot_click_spec(kind, slots, st, slot_id, button, 6, creative).0;
    assert(after.read(slots, t) == st2.read(slots, t));
    assert(st1.read(slots, t) == st1.read(slots, t));
}

proof fn lemma_sweep_fills(
    kind: WindowKind,
    slots: Seq<Slot>,
    st: WindowState,
    cur: ItemModel,
    backwards: bool,
    i: int,
    p: int,
)
    requires
        fits(kind, slots, st),
        counts_sane(slots, st),
        0 <= i <= place_of(slots, backwards, p),
        0 <= p < slots.len(),
        0 <= cur.count <= spec_max_stack(cur),
        st.read(slots, p) matches Some(y) && spec_stackable(y, cur) && y.count != spec_max_stack(y)
            && cur.count + y.count >= spec_max_stack(cur),
    ensures
        collect_sweep(slots, st, cur, true, backwards, i).1.count == spec_max_stack(cur),
    decreases slots.len() - i,
{
    lemma_sweep(kind, slots, st, cur, true, backwards, i);
    if cur.count < spec_max_stack(cur) {
        let idx = place_of(slots, backwards, i);
        match st.read(slots, idx) {
            Some(other) => {
                if spec_stackable(other, cur) && other.count != spec_max_stack(other) {
                    let take = min_of(spec_max_stack(cur) - cur.count, other.count);
                    let item = other.remaining(other.count - take);
                    law_write_then_read(kind, slots, st, idx, item);
                    let st1 = st.write(slots, idx, item);
                    let more = cur.with_count(cur.count + take);
                    assert forall|t: int| 0 <= t < slots.len() implies (#[trigger] st1.read(
                        slots,
                        t,
                    ) matches Some(x) ==> x.count >= 0) by {
                        if t != idx {
                            assert(st1.read(slots, t) == st.read(slots, t));
                        }
                    }
                    if idx == p {
                        lemma_sweep(kind, slots, st1, more, true, backwards, i + 1);
                    } else {
                        lemma_sweep_fills(kind, slots, st1, more, backwards, i + 1, p);
                    }
                } else {
                    lemma_sweep_fills(kind, slots, st, cur, backwards, i + 1, p);
                }
            },
            None => {
                lemma_sweep_fills(kind, slots, st, cur, backwards, i + 1, p);
            },
        }
    }
}

/// A double click breaks no full stack where a partial one fills the carried stack.
pub proof fn law_double_clicks_spare_full_stacks(
    kind: WindowKind,
    slots: Seq<Slot>,
    st: WindowState,
    slot_id: i16,
    button: i8,
    creative: bool,
    c: ItemModel,
    p: int,
    t: int,
)
    requires
        fits(kind, slots, st),
        counts_sane(slots, st),
        st.drag_event == 0,
        0 <= slot_id < slots.len(),
        st.cursor == Some(c),
        0 <= c.count <= spec_max_stack(c),
        st.read(slots, slot_id as int) is None,
        0 <= p < slots.len(),
        st.read(slots, p) matches Some(y) && y.id == c.id && y.damage == c.damage && y.count
            < spec_max_stack(c) && c.count + y.count >= spec_max_stack(c),
        0 <= t < slots.len(),
        st.read(slots, t) matches Some(y) && y.id == c.id && y.damage == c.damage && y.count
            == spec_max_stack(c),
    ensures
        slot_click_spec(kind, slots, st, slot_id, button, 6, creative).0.read(slots, t) == st.read(
            slots,
            t,
        ),
{
    let backwards = button != 0;
    lemma_sweep(kind, slots, st, c, true, backwards, 0);
    lemma_sweep_fills(kind, slots, st, c, backwards, 0, p);
    let (st1, cur1) = collect_sweep(slots, st, c, true, backwards, 0);
    assert(st1.read(slots, t) == st.read(slots, t));
    assert(collect_sweep(slots, st1, cur1, false, backwards, 0) == (st1, cur1));
    let after = slot_click_spec(kind, slots, st, slot_id, button, 6, creative).0;
    assert(after.read(slots, t) == st1.read(slots, t));
}

/// A double click on a stack, or with nothing carried, gathers nothing.
pub proof fn law_double_clicks_need_an_empty_slot(
    kind: WindowKind,
    slots: Seq<Slot>,
    st: WindowState,
    slot_id: i16,
    button: i8,
    creative: bool,
)
    requires
        st.drag_event == 0,
        0 <= slot_id < slots.len(),
        st.cursor is None || st.read(slots, slot_id as int) is Some,
    ensures
        slot_click_spec(kind, slots, st, slot_id, button, 6, creative) == (
            st,
            None::<ItemModel>,
        ),
{
}

// ── Drags ─────────────────────────────────────────────────────────────────

/// A drag starts with the way that the button says: 0 and 4 for anybody, 8 only in creative.
/// It needs something carried, and has painted nothing yet.
pub proof fn law_drags_start_empty(
    kind: WindowKind,
    slots: Seq<Slot>,
    st: WindowState,
    slot_id: i16,
    way: i8,
    creative: bool,
)
    requires
        st.drag_event == 0,
        0 <= way <= 2,
    ensures
        ({
            let button = (4 * way) as i8;
            let (after, told) = slot_click_spec(kind, slots, st, slot_id, button, 5, creative);
            let starts = st.cursor is Some && (way < 2 || creative);
            &&& starts ==> after.drag_event == 1 && after.drag_mode == way
            &&& !starts ==> after.drag_event == 0
            &&& after.drag_slots.len() == 0
            &&& after.inv == st.inv && after.player == st.player && after.cursor == st.cursor
            &&& told is None
        }),
{
    let button = (4 * way) as i8;
    assert(0 <= way <= 2 ==> (4 * way) as i8 & 3 == 0 && ((4 * way) as i8 >> 2) & 3 == way)
        by (bit_vector);
}

/// A running drag paints a slot that takes the carried item and has not been painted yet,
/// while there is an item for each; stacks stay as they are until its end.
pub proof fn law_drags_paint_slots_that_take_the_item(
    kind: WindowKind,
    slots: Seq<Slot>,
    st: WindowState,
    slot_id: i16,
    way: i8,
    creative: bool,
    c: ItemModel,
)
    requires
        st.drag_event == 1,
        0 <= way <= 2,
        st.cursor == Some(c),
    ensures
        ({
            let button = (4 * way + 1) as i8;
            let (after, told) = slot_click_spec(kind, slots, st, slot_id, button, 5, creative);
            let s = slot_id as int;
            let takes = 0 <= s < slots.len() && slots[s].kind != SlotKind::Output && (st.read(
                slots,
                s,
            ) matches Some(y) ==> y.id == c.id && y.damage == c.damage && y.count
                <= spec_max_stack(c));
            let paints = takes && c.count > st.drag_slots.len() && !st.drag_slots.contains(
                s as usize,
            );
            &&& after.drag_slots == if paints {
                st.drag_slots.push(s as usize)
            } else {
                st.drag_slots
            }
            &&& after.drag_event == 1 && after.drag_mode == st.drag_mode
            &&& after.inv == st.inv && after.player == st.player && after.cursor == st.cursor
            &&& told is None
        }),
{
    assert(0 <= way <= 2 ==> (4 * way + 1) as i8 & 3 == 1) by (bit_vector);
}

proof fn lemma_deposit_each(
    kind: WindowKind,
    slots: Seq<Slot>,
    st: WindowState,
    c: ItemModel,
    painted: Seq<usize>,
    k: int,
    remaining: int,
    each: int,
)
    requires
        fits(kind, slots, st),
        painted_inside(slots, painted),
        painted.no_duplicates(),
        0 <= k <= painted.len(),
        c.count >= painted.len(),
        0 <= each <= 64,
        each == crate::container::click::spec_drag_amount(
            st.drag_mode,
            c,
            painted.len() as int,
        ),
        each <= spec_max_stack(c),
        forall|j: int|
            k <= j < painted.len() ==> st.read(slots, (#[trigger] painted[j]) as int) is None
                && slots[painted[j] as int].kind == SlotKind::Normal,
    ensures
        ({
            let (next, left) = drag_deposit(slots, st, c, painted, k, remaining);
            &&& left == remaining - (painted.len() - k) * each
            &&& forall|j: int|
                k <= j < painted.len() ==> next.read(slots, (#[trigger] painted[j]) as int)
                    == Some(c.with_count(each))
            &&& forall|t: int|
                0 <= t < slots.len() && (forall|j: int|
                    k <= j < painted.len() ==> (#[trigger] painted[j]) != t)
                    ==> #[trigger] next.read(slots, t) == st.read(slots, t)
        }),
    decreases painted.len() - k,
{
    let n = painted.len() as int;
    if k < n {
        let s = painted[k] as int;
        let item = Some(c.with_count(each));
        law_write_then_read(kind, slots, st, s, item);
        let st1 = st.write(slots, s, item);
        assert forall|j: int| k + 1 <= j < n implies st1.read(
            slots,
            (#[trigger] painted[j]) as int,
        ) is None && slots[painted[j] as int].kind == SlotKind::Normal by {
            assert(painted[j] != painted[k]);
            assert(st1.read(slots, painted[j] as int) == st.read(slots, painted[j] as int));
        }
        lemma_deposit_each(kind, slots, st1, c, painted, k + 1, remaining - each, each);
        assert((n - k) * each == (n - (k + 1)) * each + each) by (nonlinear_arith);
        let (next, left) = drag_deposit(slots, st, c, painted, k, remaining);
        assert(drag_deposit(slots, st, c, painted, k, remaining) == drag_deposit(
            slots,
            st1,
            c,
            painted,
            k + 1,
            remaining - each,
        ));
        assert forall|j: int| k <= j < n implies next.read(slots, (#[trigger] painted[j]) as int)
            == Some(c.with_count(each)) by {
            if j == k {
                assert forall|i: int| k + 1 <= i < n implies (#[trigger] painted[i]) != s by {
                    assert(painted[i] != painted[k]);
                }
                assert(next.read(slots, s) == st1.read(slots, s));
            }
        }
        assert forall|t: int|
            0 <= t < slots.len() && (forall|j: int| k <= j < n ==> (#[trigger] painted[j]) != t) implies
            #[trigger] next.read(slots, t) == st.read(slots, t) by {
            assert(painted[k] != t);
            assert(next.read(slots, t) == st1.read(slots, t));
        }
    } else {
        assert((n - k) * each == 0) by (nonlinear_arith)
            requires
                n - k == 0,
        ;
    }
}

/// At its end a drag over empty slots gives each the same: an even share of what is carried,
/// one item, or in creative a full stack. What is left over of shares and single items stays
/// carried, nothing does of full stacks, and no other slot changes.
pub proof fn law_drags_share_evenly(
    kind: WindowKind,
    slots: Seq<Slot>,
    st: WindowState,
    slot_id: i16,
    way: i8,
    creative: bool,
    c: ItemModel,
    each: int,
)
    requires
        fits(kind, slots, st),
        st.drag_event == 1,
        st.drag_mode == 0 || st.drag_mode == 1 || st.drag_mode == 2,
        0 <= way <= 2,
        st.cursor == Some(c),
        0 < c.count <= spec_max_stack(c),
        0 < st.drag_slots.len() <= c.count,
        st.drag_slots.no_duplicates(),
        painted_inside(slots, st.drag_slots),
        forall|j: int|
            0 <= j < st.drag_slots.len() ==> st.read(
                slots,
                (#[trigger] st.drag_slots[j]) as int,
            ) is None && slots[st.drag_slots[j] as int].kind == SlotKind::Normal,
        st.drag_mode == 0 ==> each * st.drag_slots.len() <= c.count < (each + 1)
            * st.drag_slots.len(),
        st.drag_mode == 1 ==> each == 1,
        st.drag_mode == 2 ==> each == spec_max_stack(c),
    ensures
        ({
            let button = (4 * way + 2) as i8;
            let (after, told) = slot_click_spec(kind, slots, st, slot_id, button, 5, creative);
            let left = c.count - each * st.drag_slots.len();
            &&& forall|j: int|
                0 <= j < st.drag_slots.len() ==> after.read(
                    slots,
                    (#[trigger] st.drag_slots[j]) as int,
                ) == Some(c.with_count(each))
            &&& forall|t: int|
                0 <= t < slots.len() && (forall|j: int|
                    0 <= j < st.drag_slots.len() ==> (#[trigger] st.drag_slots[j]) != t)
                    ==> #[trigger] after.read(slots, t) == st.read(slots, t)
            &&& after.cursor == if left > 0 {
                Some(c.with_count(left))
            } else {
                None
            }
            &&& after.drag_event == 0 && after.drag_slots.len() == 0
            &&& told is None
        }),
{
    assert(0 <= way <= 2 ==> (4 * way + 2) as i8 & 3 == 2) by (bit_vector);
    let button = (4 * way + 2) as i8;
    let n = st.drag_slots.len() as int;
    let now = WindowState { drag_event: 2, ..st };
    if st.drag_mode == 0 {
        assert(c.count / n == each) by (nonlinear_arith)
            requires
                n > 0,
                each * n <= c.count < (each + 1) * n,
        ;
        assert(0 <= each <= c.count) by (nonlinear_arith)
            requires
                n > 0,
                0 < c.count,
                each * n <= c.count < (each + 1) * n,
        ;
    }
    assert forall|t: int| 0 <= t < slots.len() implies #[trigger] now.read(slots, t) == st.read(
        slots,
        t,
    ) by {}
    lemma_deposit_each(kind, slots, now, c, st.drag_slots, 0, c.count, each);
    assert((n - 0) * each == each * n) by (nonlinear_arith);
    let (next, left) = drag_deposit(slots, now, c, st.drag_slots, 0, c.count);
    assert(0 <= each * n) by (nonlinear_arith)
        requires
            0 <= each,
            0 <= n,
    ;
    let after = slot_click_spec(kind, slots, st, slot_id, button, 5, creative).0;
    assert(after == next.with_cursor(crate::container::click::carried(c, left)).drag_reset());
    assert forall|t: int| 0 <= t < slots.len() implies #[trigger] after.read(slots, t)
        == next.read(slots, t) by {}
}

/// A drag step out of turn ends the drag and changes no stack.
pub proof fn law_drag_steps_out_of_turn_end_it(
    kind: WindowKind,
    slots: Seq<Slot>,
    st: WindowState,
    slot_id: i16,
    button: i8,
    creative: bool,
)
    requires
        0 <= button < 12,
        st.drag_event == 0 && button % 4 != 0 || st.drag_event == 1 && (button % 4 == 0 || button
            % 4 == 3) || st.drag_event == 1 && st.cursor is None,
    ensures
        ({
            let (after, told) = slot_click_spec(kind, slots, st, slot_id, button, 5, creative);
            &&& after.drag_event == 0 && after.drag_slots.len() == 0
            &&& after.inv == st.inv && after.player == st.player && after.cursor == st.cursor
            &&& told is None
        }),
{
    assert(0 <= button < 12 ==> button & 3 == button % 4) by (bit_vector);
}

} // verus!
