//! Where shift-clicks send stacks: between the parts of the player's window, and between a
//! container and the player.

use vstd::prelude::*;
use crate::container::click::{
    count_at, merge_place, merge_spec, merge_top_up, slot_click_spec, transfer_range,
    transfer_rest, transfer_spec, visited, Merged,
};
use crate::container::laws::{counts_sane, fits, held, law_write_then_read};
use crate::container::state::{Slot, SlotKind, WindowKind, WindowState};
use crate::item::{spec_max_stack, spec_stackable, ItemModel};

verus! {

/// How many items of one kind the slots `from..to` hold.
pub open spec fn region_total(
    slots: Seq<Slot>,
    st: WindowState,
    from: int,
    to: int,
    id: int,
    damage: int,
) -> int
    decreases to - from,
{
    if to <= from {
        0
    } else {
        region_total(slots, st, from, to - 1, id, damage) + held(
            st.read(slots, to - 1),
            id,
            damage,
        )
    }
}

/// The slots `from..to` are those across from slot `s`. In the player's window the hotbar
/// (36 to 44) is across from the main inventory (9 to 35) and the other way round, and both
/// from the craft grid and the armor. In other windows the player's 36 slots, which come
/// last, are across from the container's, and the other way round.
pub open spec fn across(
    kind: WindowKind,
    slots: Seq<Slot>,
    st: WindowState,
    s: int,
    from: int,
    to: int,
) -> bool {
    let own = slots.len() - 36;
    if kind == WindowKind::Player {
        ||| 0 <= s <= 8 && from == 9 && to == 45
        ||| 9 <= s <= 35 && from == 36 && to == 45
        ||| 36 <= s <= 44 && from == 9 && to == 36
    } else {
        &&& own == st.inv.len()
        &&& {
            ||| 0 <= s < own && from == own && to == slots.len()
            ||| own <= s < slots.len() && from == 0 && to == own
        }
    }
}

/// What container stacks fill is filled from its end: the hotbar before the main
/// inventory.
pub open spec fn from_the_end(kind: WindowKind, slots: Seq<Slot>, s: int) -> bool {
    kind != WindowKind::Player && s < slots.len() - 36
}

/// Slot `i` comes before slot `j` in the order in which stacks are filled in.
pub open spec fn sooner(kind: WindowKind, slots: Seq<Slot>, s: int, i: int, j: int) -> bool {
    if from_the_end(kind, slots, s) {
        i > j
    } else {
        i < j
    }
}

/// A slot is empty and takes items.
pub open spec fn free(slots: Seq<Slot>, st: WindowState, t: int) -> bool {
    st.read(slots, t) is None && slots[t].kind != SlotKind::Output
}

/// A slot holds the same item, with room for more.
pub open spec fn has_room(slots: Seq<Slot>, st: WindowState, t: int, x: ItemModel) -> bool {
    st.read(slots, t) matches Some(y) && y.id == x.id && y.damage == x.damage && y.count
        < spec_max_stack(x)
}

/// Slots other than the clicked one and those across from it are as they were.
pub open spec fn rest_same(
    slots: Seq<Slot>,
    before: WindowState,
    after: WindowState,
    s: int,
    from: int,
    to: int,
) -> bool {
    forall|t: int|
        0 <= t < slots.len() && t != s && !(from <= t < to) ==> #[trigger] after.read(slots, t)
            == before.read(slots, t)
}

proof fn lemma_region_write(
    kind: WindowKind,
    slots: Seq<Slot>,
    st: WindowState,
    i: int,
    item: Option<ItemModel>,
    from: int,
    to: int,
    id: int,
    damage: int,
)
    requires
        fits(kind, slots, st),
        0 <= i < slots.len(),
        0 <= from,
        to <= slots.len(),
    ensures
        region_total(slots, st.write(slots, i, item), from, to, id, damage) == region_total(
            slots,
            st,
            from,
            to,
            id,
            damage,
        ) + if from <= i < to {
            held(item, id, damage) - held(st.read(slots, i), id, damage)
        } else {
            0
        },
    decreases to - from,
{
    if to > from {
        law_write_then_read(kind, slots, st, i, item);
        lemma_region_write(kind, slots, st, i, item, from, to - 1, id, damage);
    }
}

proof fn lemma_top_up_region(
    kind: WindowKind,
    slots: Seq<Slot>,
    m: Merged,
    start: int,
    end: int,
    reverse: bool,
    k: int,
)
    requires
        fits(kind, slots, m.state),
        counts_sane(slots, m.state),
        m.stack.count >= 0,
        k >= 0,
        0 <= start,
        start < end ==> end <= slots.len(),
    ensures
        ({
            let r = merge_top_up(slots, m, start, end, reverse, k);
            let (id, damage) = (m.stack.id, m.stack.damage);
            &&& fits(kind, slots, r.state)
            &&& counts_sane(slots, r.state)
            &&& 0 <= r.stack.count <= m.stack.count
            &&& r.stack == m.stack.with_count(r.stack.count)
            &&& r.moved == (m.moved || r.stack.count < m.stack.count)
            &&& region_total(slots, r.state, start, end, id, damage) + r.stack.count
                == region_total(slots, m.state, start, end, id, damage) + m.stack.count
            &&& forall|t: int|
                0 <= t < slots.len() && !(start <= t < end) ==> #[trigger] r.state.read(slots, t)
                    == m.state.read(slots, t)
            &&& forall|t: int|
                0 <= t < slots.len() && m.state.read(slots, t) is None
                    ==> #[trigger] r.state.read(slots, t) is None
            &&& r.state.cursor == m.state.cursor
            &&& r.state.drag_event == m.state.drag_event
            &&& r.state.inv.len() == m.state.inv.len()
        }),
    decreases end - start - k,
{
    if k < end - start && m.stack.count != 0 {
        let i = visited(start, end, reverse, k);
        let cap = spec_max_stack(m.stack);
        let (id, damage) = (m.stack.id, m.stack.damage);
        match m.state.read(slots, i) {
            Some(have) => {
                if spec_stackable(have, m.stack) && have.count + m.stack.count <= cap {
                    let item = Some(have.with_count(have.count + m.stack.count));
                    lemma_region_write(kind, slots, m.state, i, item, start, end, id, damage);
                    law_write_then_read(kind, slots, m.state, i, item);
                    let next = Merged {
                        state: m.state.write(slots, i, item),
                        stack: m.stack.with_count(0),
                        moved: true,
                    };
                    lemma_sane_write(kind, slots, m.state, i, item);
                    lemma_top_up_region(kind, slots, next, start, end, reverse, k + 1);
                } else if spec_stackable(have, m.stack) && have.count < cap {
                    let item = Some(have.with_count(cap));
                    lemma_region_write(kind, slots, m.state, i, item, start, end, id, damage);
                    law_write_then_read(kind, slots, m.state, i, item);
                    let next = Merged {
                        state: m.state.write(slots, i, item),
                        stack: m.stack.with_count(m.stack.count - (cap - have.count)),
                        moved: true,
                    };
                    lemma_sane_write(kind, slots, m.state, i, item);
                    lemma_top_up_region(kind, slots, next, start, end, reverse, k + 1);
                } else {
                    lemma_top_up_region(kind, slots, m, start, end, reverse, k + 1);
                }
            },
            None => {
                lemma_top_up_region(kind, slots, m, start, end, reverse, k + 1);
            },
        }
    }
}

proof fn lemma_sane_write(
    kind: WindowKind,
    slots: Seq<Slot>,
    st: WindowState,
    i: int,
    item: Option<ItemModel>,
)
    requires
        fits(kind, slots, st),
        counts_sane(slots, st),
        0 <= i < slots.len(),
        item matches Some(x) ==> x.count >= 0,
    ensures
        counts_sane(slots, st.write(slots, i, item)),
{
    law_write_then_read(kind, slots, st, i, item);
    assert forall|t: int| 0 <= t < slots.len() implies (#[trigger] st.write(slots, i, item).read(
        slots,
        t,
    ) matches Some(x) ==> x.count >= 0) by {
        if t != i {
            assert(st.write(slots, i, item).read(slots, t) == st.read(slots, t));
        }
    }
}

/// With a free slot in the range something is placed, and into a plain one all of it.
proof fn lemma_place_region(
    kind: WindowKind,
    slots: Seq<Slot>,
    m: Merged,
    start: int,
    end: int,
    reverse: bool,
    k: int,
    e: int,
)
    requires
        fits(kind, slots, m.state),
        counts_sane(slots, m.state),
        0 < m.stack.count <= 64,
        0 <= k,
        0 <= start <= e < end <= slots.len(),
        k <= if reverse {
            end - 1 - e
        } else {
            e - start
        },
        m.state.read(slots, e) is None,
        slots[e].kind == SlotKind::Normal,
    ensures
        ({
            let r = merge_place(slots, m, start, end, reverse, k);
            let (id, damage) = (m.stack.id, m.stack.damage);
            &&& fits(kind, slots, r.state)
            &&& counts_sane(slots, r.state)
            &&& 0 <= r.stack.count < m.stack.count
            &&& r.stack == m.stack.with_count(r.stack.count)
            &&& r.moved
            &&& r.stack.count > 0 ==> r.state.read(slots, e) is None
            &&& region_total(slots, r.state, start, end, id, damage) + r.stack.count
                == region_total(slots, m.state, start, end, id, damage) + m.stack.count
            &&& forall|t: int|
                0 <= t < slots.len() && !(start <= t < end) ==> #[trigger] r.state.read(slots, t)
                    == m.state.read(slots, t)
            &&& r.state.cursor == m.state.cursor
            &&& r.state.drag_event == m.state.drag_event
            &&& r.state.inv.len() == m.state.inv.len()
        }),
    decreases end - start - k,
{
    let i = visited(start, end, reverse, k);
    if m.state.read(slots, i) is None && slots[i].spec_item_valid() {
        let put = if m.stack.count < slots[i].spec_limit() {
            m.stack.count
        } else {
            slots[i].spec_limit()
        };
        let item = Some(m.stack.with_count(put));
        law_write_then_read(kind, slots, m.state, i, item);
        lemma_sane_write(kind, slots, m.state, i, item);
        lemma_region_write(
            kind,
            slots,
            m.state,
            i,
            item,
            start,
            end,
            m.stack.id,
            m.stack.damage,
        );
        if i == e {
            assert(put == m.stack.count);
        }
    } else {
        assert(i != e);
        lemma_place_region(kind, slots, m, start, end, reverse, k + 1, e);
    }
}

/// One transfer with a free plain slot across moves something, and all of it if the free
/// slot is used.
proof fn lemma_transfer_moves(
    kind: WindowKind,
    slots: Seq<Slot>,
    st: WindowState,
    s: int,
    from: int,
    to: int,
    e: int,
)
    requires
        fits(kind, slots, st),
        counts_sane(slots, st),
        0 <= s < slots.len(),
        across(kind, slots, st, s, from, to),
        st.read(slots, s) matches Some(x) && 0 < x.count <= 64,
        from <= e < to,
        st.read(slots, e) is None,
        slots[e].kind == SlotKind::Normal,
    ensures
        ({
            let x = st.read(slots, s)->0;
            let (next, moved) = transfer_spec(kind, slots, st.inv.len() as int, st, s);
            &&& moved == Some(x)
            &&& fits(kind, slots, next)
            &&& counts_sane(slots, next)
            &&& next.inv.len() == st.inv.len()
            &&& count_at(slots, next, s) < count_at(slots, st, s)
            &&& next.read(slots, s) == x.remaining(count_at(slots, next, s) as int)
            &&& next.read(slots, s) is Some ==> next.read(slots, e) is None
            &&& region_total(slots, next, from, to, x.id, x.damage) + count_at(slots, next, s)
                == region_total(slots, st, from, to, x.id, x.damage) + x.count
            &&& rest_same(slots, st, next, s, from, to)
            &&& next.cursor == st.cursor
            &&& next.drag_event == st.drag_event
        }),
{
    let x = st.read(slots, s)->0;
    let own = st.inv.len() as int;
    let reverse = from_the_end(kind, slots, s);
    assert(transfer_range(kind, own, slots.len() as int, s) == Some((from, to, reverse)));
    let m0 = Merged { state: st, stack: x, moved: false };
    lemma_top_up_region(kind, slots, m0, from, to, reverse, 0);
    let m1 = if spec_max_stack(x) > 1 {
        merge_top_up(slots, m0, from, to, reverse, 0)
    } else {
        m0
    };
    assert(m1.state.read(slots, e) is None);
    if m1.stack.count > 0 {
        lemma_place_region(kind, slots, m1, from, to, reverse, 0, e);
    }
    let m = merge_spec(slots, st, x, from, to, reverse);
    let left = m.stack.remaining(m.stack.count);
    law_write_then_read(kind, slots, m.state, s, left);
    lemma_sane_write(kind, slots, m.state, s, left);
    lemma_region_write(kind, slots, m.state, s, left, from, to, x.id, x.damage);
    assert(m.state.read(slots, s) == st.read(slots, s));
    let next = m.state.write(slots, s, left);
    assert(e != s);
    assert forall|t: int| 0 <= t < slots.len() && t != s && !(from <= t < to) implies
        #[trigger] next.read(slots, t) == st.read(slots, t) by {
        assert(m.state.read(slots, t) == m1.state.read(slots, t));
        assert(m1.state.read(slots, t) == st.read(slots, t));
    }
}

proof fn lemma_transfer_empties(
    kind: WindowKind,
    slots: Seq<Slot>,
    st: WindowState,
    s: int,
    from: int,
    to: int,
    e: int,
    x: ItemModel,
)
    requires
        fits(kind, slots, st),
        counts_sane(slots, st),
        0 <= s < slots.len(),
        across(kind, slots, st, s, from, to),
        st.read(slots, s) matches Some(y) ==> y == x.with_count(y.count) && 0 < y.count <= 64,
        from <= e < to,
        st.read(slots, s) is Some ==> st.read(slots, e) is None,
        slots[e].kind == SlotKind::Normal,
    ensures
        ({
            let after = transfer_rest(kind, slots, st.inv.len() as int, st, s, x.id);
            &&& after.read(slots, s) is None
            &&& region_total(slots, after, from, to, x.id, x.damage) == region_total(
                slots,
                st,
                from,
                to,
                x.id,
                x.damage,
            ) + count_at(slots, st, s)
            &&& rest_same(slots, st, after, s, from, to)
            &&& after.cursor == st.cursor
            &&& after.drag_event == st.drag_event
        }),
    decreases count_at(slots, st, s),
{
    if st.read(slots, s) is Some {
        lemma_transfer_moves(kind, slots, st, s, from, to, e);
        let (next, moved) = transfer_spec(kind, slots, st.inv.len() as int, st, s);
        lemma_transfer_empties(kind, slots, next, s, from, to, e, x);
        let after = transfer_rest(kind, slots, st.inv.len() as int, st, s, x.id);
        assert(after == transfer_rest(kind, slots, st.inv.len() as int, next, s, x.id));
        assert forall|t: int| 0 <= t < slots.len() && t != s && !(from <= t < to) implies
            #[trigger] after.read(slots, t) == st.read(slots, t) by {
            assert(next.read(slots, t) == st.read(slots, t));
        }
    }
}

/// A shift-clicked stack that finds an empty slot across leaves its slot, and all its items
/// are then in the slots across. No other slot and nothing carried changes.
pub proof fn law_shift_clicks_send_stacks_across(
    kind: WindowKind,
    slots: Seq<Slot>,
    st: WindowState,
    slot_id: i16,
    button: i8,
    creative: bool,
    from: int,
    to: int,
    e: int,
    x: ItemModel,
)
    requires
        fits(kind, slots, st),
        counts_sane(slots, st),
        st.drag_event == 0,
        button == 0 || button == 1,
        0 <= slot_id < slots.len(),
        across(kind, slots, st, slot_id as int, from, to),
        st.read(slots, slot_id as int) == Some(x),
        0 < x.count <= 64,
        from <= e < to,
        st.read(slots, e) is None,
        slots[e].kind == SlotKind::Normal,
    ensures
        ({
            let (after, told) = slot_click_spec(kind, slots, st, slot_id, button, 1, creative);
            &&& after.read(slots, slot_id as int) is None
            &&& region_total(slots, after, from, to, x.id, x.damage) == region_total(
                slots,
                st,
                from,
                to,
                x.id,
                x.damage,
            ) + x.count
            &&& rest_same(slots, st, after, slot_id as int, from, to)
            &&& after.cursor == st.cursor
            &&& told == Some(x)
        }),
{
    let s = slot_id as int;
    lemma_transfer_moves(kind, slots, st, s, from, to, e);
    let (next, moved) = transfer_spec(kind, slots, st.inv.len() as int, st, s);
    lemma_transfer_empties(kind, slots, next, s, from, to, e, x);
    let after = slot_click_spec(kind, slots, st, slot_id, button, 1, creative).0;
    assert forall|t: int| 0 <= t < slots.len() && t != s && !(from <= t < to) implies
        #[trigger] after.read(slots, t) == st.read(slots, t) by {
        assert(next.read(slots, t) == st.read(slots, t));
    }
}

// ── Which slot is used ────────────────────────────────────────────────────

/// The place of a slot in the order of a range.
spec fn turn(start: int, end: int, reverse: bool, t: int) -> int {
    if reverse {
        end - 1 - t
    } else {
        t - start
    }
}

proof fn lemma_top_up_idle(
    slots: Seq<Slot>,
    m: Merged,
    start: int,
    end: int,
    reverse: bool,
    k: int,
)
    requires
        k >= 0,
        m.stack.count > 0,
        forall|t: int| start <= t < end ==> !#[trigger] has_room(slots, m.state, t, m.stack),
    ensures
        merge_top_up(slots, m, start, end, reverse, k) == m,
    decreases end - start - k,
{
    if k < end - start {
        let i = visited(start, end, reverse, k);
        assert(!has_room(slots, m.state, i, m.stack));
        lemma_top_up_idle(slots, m, start, end, reverse, k + 1);
    }
}

proof fn lemma_place_at(
    slots: Seq<Slot>,
    m: Merged,
    start: int,
    end: int,
    reverse: bool,
    k: int,
    e: int,
)
    requires
        start <= e < end,
        0 <= k <= turn(start, end, reverse, e),
        free(slots, m.state, e),
        forall|t: int|
            start <= t < end && turn(start, end, reverse, t) < turn(start, end, reverse, e)
                ==> !#[trigger] free(slots, m.state, t),
        0 < m.stack.count <= slots[e].spec_limit(),
    ensures
        merge_place(slots, m, start, end, reverse, k) == (Merged {
            state: m.state.write(slots, e, Some(m.stack.with_count(m.stack.count))),
            stack: m.stack.with_count(0),
            moved: true,
        }),
    decreases end - start - k,
{
    let i = visited(start, end, reverse, k);
    assert(turn(start, end, reverse, i) == k);
    if i != e {
        assert(!free(slots, m.state, i));
        lemma_place_at(slots, m, start, end, reverse, k + 1, e);
    }
}

proof fn lemma_place_nowhere(
    slots: Seq<Slot>,
    m: Merged,
    start: int,
    end: int,
    reverse: bool,
    k: int,
)
    requires
        k >= 0,
        forall|t: int| start <= t < end ==> !#[trigger] free(slots, m.state, t),
    ensures
        merge_place(slots, m, start, end, reverse, k) == m,
    decreases end - start - k,
{
    if k < end - start {
        let i = visited(start, end, reverse, k);
        assert(!free(slots, m.state, i));
        lemma_place_nowhere(slots, m, start, end, reverse, k + 1);
    }
}

/// Where nothing across can be topped up, a shift-clicked stack goes whole into the first
/// free slot across: from the first slot on, but from the last one back for what comes out
/// of a container.
pub proof fn law_shift_clicks_use_the_first_free_slot(
    kind: WindowKind,
    slots: Seq<Slot>,
    st: WindowState,
    slot_id: i16,
    button: i8,
    creative: bool,
    from: int,
    to: int,
    e: int,
    x: ItemModel,
)
    requires
        fits(kind, slots, st),
        st.drag_event == 0,
        button == 0 || button == 1,
        0 <= slot_id < slots.len(),
        across(kind, slots, st, slot_id as int, from, to),
        st.read(slots, slot_id as int) == Some(x),
        from <= e < to,
        free(slots, st, e),
        0 < x.count <= slots[e].spec_limit(),
        forall|t: int| from <= t < to ==> !#[trigger] has_room(slots, st, t, x),
        forall|t: int|
            from <= t < to && sooner(kind, slots, slot_id as int, t, e) ==> !#[trigger] free(
                slots,
                st,
                t,
            ),
    ensures
        ({
            let (after, told) = slot_click_spec(kind, slots, st, slot_id, button, 1, creative);
            &&& after.read(slots, slot_id as int) is None
            &&& after.read(slots, e) == Some(x)
            &&& forall|t: int|
                0 <= t < slots.len() && t != slot_id && t != e ==> #[trigger] after.read(slots, t)
                    == st.read(slots, t)
            &&& after.cursor == st.cursor
            &&& told == Some(x)
        }),
{
    let s = slot_id as int;
    let own = st.inv.len() as int;
    let reverse = from_the_end(kind, slots, s);
    assert(transfer_range(kind, own, slots.len() as int, s) == Some((from, to, reverse)));
    let m0 = Merged { state: st, stack: x, moved: false };
    lemma_top_up_idle(slots, m0, from, to, reverse, 0);
    assert forall|t: int|
        from <= t < to && turn(from, to, reverse, t) < turn(from, to, reverse, e) implies
        !#[trigger] free(slots, m0.state, t) by {
        assert(sooner(kind, slots, s, t, e));
    }
    lemma_place_at(slots, m0, from, to, reverse, 0, e);
    let m = merge_spec(slots, st, x, from, to, reverse);
    assert(x.with_count(x.count) == x);
    law_write_then_read(kind, slots, st, e, Some(x));
    law_write_then_read(kind, slots, m.state, s, None);
    let next = m.state.write(slots, s, None);
    assert(transfer_spec(kind, slots, own, st, s) == (next, Some(x)));
    assert(next.read(slots, s) is None);
    assert(transfer_rest(kind, slots, own, next, s, x.id) == next);
}

/// With no free slot and no room on a stack of the same item across, a shift-click moves
/// nothing and tells of nothing.
pub proof fn law_shift_clicks_without_room_do_nothing(
    kind: WindowKind,
    slots: Seq<Slot>,
    st: WindowState,
    slot_id: i16,
    button: i8,
    creative: bool,
    from: int,
    to: int,
)
    requires
        fits(kind, slots, st),
        st.drag_event == 0,
        button == 0 || button == 1,
        0 <= slot_id < slots.len(),
        across(kind, slots, st, slot_id as int, from, to),
        st.read(slots, slot_id as int) matches Some(x) ==> x.count > 0 && forall|t: int|
            from <= t < to ==> !#[trigger] has_room(slots, st, t, x) && !free(slots, st, t),
    ensures
        slot_click_spec(kind, slots, st, slot_id, button, 1, creative) == (
            st,
            None::<ItemModel>,
        ),
{
    let s = slot_id as int;
    let own = st.inv.len() as int;
    let reverse = from_the_end(kind, slots, s);
    if let Some(x) = st.read(slots, s) {
        assert(transfer_range(kind, own, slots.len() as int, s) == Some((from, to, reverse)));
        let m0 = Merged { state: st, stack: x, moved: false };
        lemma_top_up_idle(slots, m0, from, to, reverse, 0);
        assert forall|t: int| from <= t < to implies !#[trigger] free(slots, m0.state, t) by {
            assert(!has_room(slots, st, t, x));
        }
        lemma_place_nowhere(slots, m0, from, to, reverse, 0);
    }
}

proof fn lemma_top_up_at(
    kind: WindowKind,
    slots: Seq<Slot>,
    m: Merged,
    start: int,
    end: int,
    reverse: bool,
    k: int,
    f: int,
)
    requires
        start <= f < end,
        0 <= k <= turn(start, end, reverse, f),
        m.stack.count > 0,
        has_room(slots, m.state, f, m.stack),
        m.state.read(slots, f)->0.count + m.stack.count <= spec_max_stack(m.stack),
        forall|t: int|
            start <= t < end && turn(start, end, reverse, t) < turn(start, end, reverse, f)
                ==> !#[trigger] has_room(slots, m.state, t, m.stack),
    ensures
        ({
            let have = m.state.read(slots, f)->0;
            merge_top_up(slots, m, start, end, reverse, k) == (Merged {
                state: m.state.write(
                    slots,
                    f,
                    Some(have.with_count(have.count + m.stack.count)),
                ),
                stack: m.stack.with_count(0),
                moved: true,
            })
        }),
    decreases end - start - k,
{
    let i = visited(start, end, reverse, k);
    assert(turn(start, end, reverse, i) == k);
    if i != f {
        assert(!has_room(slots, m.state, i, m.stack));
        lemma_top_up_at(kind, slots, m, start, end, reverse, k + 1, f);
    } else {
        let have = m.state.read(slots, f)->0;
        let next = Merged {
            state: m.state.write(slots, f, Some(have.with_count(have.count + m.stack.count))),
            stack: m.stack.with_count(0),
            moved: true,
        };
        assert(merge_top_up(slots, next, start, end, reverse, k + 1) == next);
    }
}

/// A shift-clicked stack is added to the first stack of the same item across that has room
/// for all of it, even where slots are free.
pub proof fn law_shift_clicks_top_up_first(
    kind: WindowKind,
    slots: Seq<Slot>,
    st: WindowState,
    slot_id: i16,
    button: i8,
    creative: bool,
    from: int,
    to: int,
    f: int,
    x: ItemModel,
    have: ItemModel,
)
    requires
        fits(kind, slots, st),
        st.drag_event == 0,
        button == 0 || button == 1,
        0 <= slot_id < slots.len(),
        across(kind, slots, st, slot_id as int, from, to),
        st.read(slots, slot_id as int) == Some(x),
        x.count > 0,
        spec_max_stack(x) > 1,
        from <= f < to,
        st.read(slots, f) == Some(have),
        have.id == x.id,
        have.damage == x.damage,
        have.count + x.count <= spec_max_stack(x),
        forall|t: int|
            from <= t < to && sooner(kind, slots, slot_id as int, t, f) ==> !#[trigger] has_room(
                slots,
                st,
                t,
                x,
            ),
    ensures
        ({
            let (after, told) = slot_click_spec(kind, slots, st, slot_id, button, 1, creative);
            &&& after.read(slots, slot_id as int) is None
            &&& after.read(slots, f) matches Some(y) && y.id == x.id && y.damage == x.damage
                && y.count == have.count + x.count
            &&& forall|t: int|
                0 <= t < slots.len() && t != slot_id && t != f ==> #[trigger] after.read(slots, t)
                    == st.read(slots, t)
            &&& after.cursor == st.cursor
            &&& told == Some(x)
        }),
{
    let s = slot_id as int;
    let own = st.inv.len() as int;
    let reverse = from_the_end(kind, slots, s);
    assert(transfer_range(kind, own, slots.len() as int, s) == Some((from, to, reverse)));
    let m0 = Merged { state: st, stack: x, moved: false };
    assert forall|t: int|
        from <= t < to && turn(from, to, reverse, t) < turn(from, to, reverse, f) implies
        !#[trigger] has_room(slots, m0.state, t, m0.stack) by {
        assert(sooner(kind, slots, s, t, f));
    }
    lemma_top_up_at(kind, slots, m0, from, to, reverse, 0, f);
    let m = merge_spec(slots, st, x, from, to, reverse);
    let more = Some(have.with_count(have.count + x.count));
    law_write_then_read(kind, slots, st, f, more);
    law_write_then_read(kind, slots, m.state, s, None);
    let next = m.state.write(slots, s, None);
    assert(transfer_spec(kind, slots, own, st, s) == (next, Some(x)));
    assert(transfer_rest(kind, slots, own, next, s, x.id) == next);
}

} // verus!
