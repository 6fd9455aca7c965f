//! What holds of every click: items are neither made nor lost, and nothing
//! outside the window is touched.

use vstd::prelude::*;
use crate::container::click::{
    added_count, carried, click_defined, collect_spec, collect_sweep, count_at, count_of,
    drag_deposit, drag_end_spec, drag_total, drop_cursor_spec, drop_spec, merge_place, merge_spec,
    merge_top_up, min_of, pick_place_spec, placed_count, slot_click_spec, spec_can_add,
    spec_drag_amount, taken_count, transfer_range, transfer_rest, transfer_spec, visited, Merged,
    OUTSIDE,
};
use crate::container::engine::lemma_merge_shrinks;
use crate::container::state::{
    back_in_range, slots_wf, Slot, SlotBack, WindowKind, WindowState, PLAYER_SLOTS,
};
use crate::item::{spec_max_stack, spec_stackable, ItemModel};

verus! {

/// How many items of one kind (id and damage) a stack holds.
pub open spec fn held(item: Option<ItemModel>, id: int, damage: int) -> int {
    match item {
        Some(stack) => if stack.id == id && stack.damage == damage {
            stack.count
        } else {
            0
        },
        None => 0,
    }
}

/// How many items of one kind an inventory holds.
pub open spec fn total(items: Seq<Option<ItemModel>>, id: int, damage: int) -> int
    decreases items.len(),
{
    if items.len() == 0 {
        0
    } else {
        total(items.drop_last(), id, damage) + held(items.last(), id, damage)
    }
}

/// How many items of one kind there are behind the window, in the player
/// inventory and on the cursor together.
pub open spec fn tally(st: WindowState, id: int, damage: int) -> int {
    total(st.inv, id, damage) + total(st.player, id, damage) + held(st.cursor, id, damage)
}

pub proof fn lemma_total_update(
    items: Seq<Option<ItemModel>>,
    i: int,
    item: Option<ItemModel>,
    id: int,
    damage: int,
)
    requires
        0 <= i < items.len(),
    ensures
        total(items.update(i, item), id, damage) == total(items, id, damage) - held(
            items[i],
            id,
            damage,
        ) + held(item, id, damage),
    decreases items.len(),
{
    let after = items.update(i, item);
    if i == items.len() - 1 {
        assert(after.drop_last() =~= items.drop_last());
    } else {
        assert(after.drop_last() =~= items.drop_last().update(i, item));
        lemma_total_update(items.drop_last(), i, item, id, damage);
    }
}

/// Writing a place changes the tally by what enters and leaves that place.
pub proof fn lemma_tally_put(
    st: WindowState,
    back: SlotBack,
    item: Option<ItemModel>,
    id: int,
    damage: int,
)
    requires
        back_in_range(back, st.inv.len() as int, st.player.len() as int),
    ensures
        tally(st.put(back, item), id, damage) == tally(st, id, damage) - held(
            st.at(back),
            id,
            damage,
        ) + held(item, id, damage),
        st.put(back, item).inv.len() == st.inv.len(),
        st.put(back, item).player.len() == st.player.len(),
        st.put(back, item).at(back) == item,
        forall|other: SlotBack|
            other != back ==> #[trigger] st.put(back, item).at(other) == st.at(other),
{
    match back {
        SlotBack::Container(i) => {
            lemma_total_update(st.inv, i as int, item, id, damage);
        },
        SlotBack::Player(i) => {
            lemma_total_update(st.player, i as int, item, id, damage);
        },
    }
}

/// The slot list fits this state.
pub open spec fn fits(kind: WindowKind, slots: Seq<Slot>, st: WindowState) -> bool {
    &&& slots_wf(slots, st.inv.len() as int)
    &&& st.player.len() >= PLAYER_SLOTS
    &&& kind == WindowKind::Player ==> slots.len() == PLAYER_SLOTS
}

/// Reading a slot back gives what was written, and writing one slot leaves every
/// other slot of the window alone.
pub proof fn law_write_then_read(
    kind: WindowKind,
    slots: Seq<Slot>,
    st: WindowState,
    s: int,
    item: Option<ItemModel>,
)
    requires
        fits(kind, slots, st),
        0 <= s < slots.len(),
    ensures
        st.write(slots, s, item).read(slots, s) == item,
        forall|t: int|
            0 <= t < slots.len() && t != s ==> #[trigger] st.write(slots, s, item).read(slots, t)
                == st.read(slots, t),
        fits(kind, slots, st.write(slots, s, item)),
{
    lemma_tally_put(st, slots[s].back, item, 0, 0);
}

proof fn lemma_top_up_conserves(
    kind: WindowKind,
    slots: Seq<Slot>,
    m: Merged,
    start: int,
    end: int,
    reverse: bool,
    k: int,
    s: int,
    id: int,
    damage: int,
)
    requires
        fits(kind, slots, m.state),
        0 <= s < slots.len(),
        s < start || s >= end,
        k >= 0,
        0 <= start,
        start < end ==> end <= slots.len(),
    ensures
        ({
            let r = merge_top_up(slots, m, start, end, reverse, k);
            &&& fits(kind, slots, r.state)
            &&& tally(r.state, id, damage) + held(Some(r.stack), id, damage) == tally(
                m.state,
                id,
                damage,
            ) + held(Some(m.stack), id, damage)
            &&& r.state.read(slots, s) == m.state.read(slots, s)
            &&& r.state.inv.len() == m.state.inv.len()
        }),
    decreases end - start - k,
{
    if k < end - start && m.stack.count != 0 {
        let i = visited(start, end, reverse, k);
        let cap = spec_max_stack(m.stack);
        match m.state.read(slots, i) {
            Some(have) => {
                if spec_stackable(have, m.stack) && have.count + m.stack.count <= cap {
                    let item = Some(have.with_count(have.count + m.stack.count));
                    lemma_tally_put(m.state, slots[i].back, item, id, damage);
                    let next = Merged {
                        state: m.state.write(slots, i, item),
                        stack: m.stack.with_count(0),
                        moved: true,
                    };
                    lemma_top_up_conserves(
                        kind,
                        slots,
                        next,
                        start,
                        end,
                        reverse,
                        k + 1,
                        s,
                        id,
                        damage,
                    );
                } else if spec_stackable(have, m.stack) && have.count < cap {
                    let item = Some(have.with_count(cap));
                    lemma_tally_put(m.state, slots[i].back, item, id, damage);
                    let next = Merged {
                        state: m.state.write(slots, i, item),
                        stack: m.stack.with_count(m.stack.count - (cap - have.count)),
                        moved: true,
                    };
                    lemma_top_up_conserves(
                        kind,
                        slots,
                        next,
                        start,
                        end,
                        reverse,
                        k + 1,
                        s,
                        id,
                        damage,
                    );
                } else {
                    lemma_top_up_conserves(
                        kind,
                        slots,
                        m,
                        start,
                        end,
                        reverse,
                        k + 1,
                        s,
                        id,
                        damage,
                    );
                }
            },
            None => {
                lemma_top_up_conserves(kind, slots, m, start, end, reverse, k + 1, s, id, damage);
            },
        }
    }
}

proof fn lemma_place_conserves(
    kind: WindowKind,
    slots: Seq<Slot>,
    m: Merged,
    start: int,
    end: int,
    reverse: bool,
    k: int,
    s: int,
    id: int,
    damage: int,
)
    requires
        fits(kind, slots, m.state),
        0 <= s < slots.len(),
        s < start || s >= end,
        k >= 0,
        0 <= start,
        start < end ==> end <= slots.len(),
    ensures
        ({
            let r = merge_place(slots, m, start, end, reverse, k);
            &&& fits(kind, slots, r.state)
            &&& tally(r.state, id, damage) + held(Some(r.stack), id, damage) == tally(
                m.state,
                id,
                damage,
            ) + held(Some(m.stack), id, damage)
            &&& r.state.read(slots, s) == m.state.read(slots, s)
            &&& r.state.inv.len() == m.state.inv.len()
        }),
    decreases end - start - k,
{
    if k < end - start {
        let i = visited(start, end, reverse, k);
        let put = min_of(m.stack.count, slots[i].spec_limit());
        lemma_tally_put(m.state, slots[i].back, Some(m.stack.with_count(put)), id, damage);
        lemma_place_conserves(kind, slots, m, start, end, reverse, k + 1, s, id, damage);
    }
}

/// Merging moves items; it does not make or lose any.
pub proof fn lemma_merge_conserves(
    kind: WindowKind,
    slots: Seq<Slot>,
    st: WindowState,
    stack: ItemModel,
    start: int,
    end: int,
    reverse: bool,
    s: int,
    id: int,
    damage: int,
)
    requires
        fits(kind, slots, st),
        0 <= s < slots.len(),
        s < start || s >= end,
        0 <= start,
        start < end ==> end <= slots.len(),
    ensures
        ({
            let r = merge_spec(slots, st, stack, start, end, reverse);
            &&& fits(kind, slots, r.state)
            &&& tally(r.state, id, damage) + held(Some(r.stack), id, damage) == tally(
                st,
                id,
                damage,
            ) + held(Some(stack), id, damage)
            &&& r.state.read(slots, s) == st.read(slots, s)
            &&& r.state.inv.len() == st.inv.len()
        }),
{
    let m0 = Merged { state: st, stack, moved: false };
    lemma_top_up_conserves(kind, slots, m0, start, end, reverse, 0, s, id, damage);
    let m1 = if spec_max_stack(stack) > 1 {
        merge_top_up(slots, m0, start, end, reverse, 0)
    } else {
        m0
    };
    lemma_place_conserves(kind, slots, m1, start, end, reverse, 0, s, id, damage);
}

/// One shift-click transfer makes and loses no items.
pub proof fn lemma_transfer_conserves(
    kind: WindowKind,
    slots: Seq<Slot>,
    st: WindowState,
    s: int,
    id: int,
    damage: int,
)
    requires
        fits(kind, slots, st),
        0 <= s < slots.len(),
        st.read(slots, s) is Some ==> st.read(slots, s)->0.count >= 0,
    ensures
        ({
            let (next, moved) = transfer_spec(kind, slots, st.inv.len() as int, st, s);
            &&& tally(next, id, damage) == tally(st, id, damage)
            &&& fits(kind, slots, next)
            &&& next.inv.len() == st.inv.len()
            &&& next.read(slots, s) is Some ==> next.read(slots, s)->0.count >= 0
        }),
{
    let own = st.inv.len() as int;
    match st.read(slots, s) {
        Some(original) => {
            match transfer_range(kind, own, slots.len() as int, s) {
                Some((start, end, reverse)) => {
                    lemma_merge_conserves(
                        kind,
                        slots,
                        st,
                        original,
                        start,
                        end,
                        reverse,
                        s,
                        id,
                        damage,
                    );
                    lemma_merge_shrinks(slots, st, original, start, end, reverse);
                    let m = merge_spec(slots, st, original, start, end, reverse);
                    lemma_tally_put(
                        m.state,
                        slots[s].back,
                        m.stack.remaining(m.stack.count),
                        id,
                        damage,
                    );
                },
                None => {},
            }
        },
        None => {},
    }
}

proof fn lemma_transfer_rest_conserves(
    kind: WindowKind,
    slots: Seq<Slot>,
    st: WindowState,
    s: int,
    item: int,
    id: int,
    damage: int,
)
    requires
        fits(kind, slots, st),
        0 <= s < slots.len(),
        st.read(slots, s) is Some ==> st.read(slots, s)->0.count >= 0,
    ensures
        tally(transfer_rest(kind, slots, st.inv.len() as int, st, s, item), id, damage) == tally(
            st,
            id,
            damage,
        ),
    decreases count_at(slots, st, s),
{
    let own = st.inv.len() as int;
    match st.read(slots, s) {
        Some(now) => {
            if now.id == item {
                lemma_transfer_conserves(kind, slots, st, s, id, damage);
                let (next, moved) = transfer_spec(kind, slots, own, st, s);
                if moved is Some && count_at(slots, next, s) < count_at(slots, st, s) {
                    lemma_transfer_rest_conserves(kind, slots, next, s, item, id, damage);
                }
            }
        },
        None => {},
    }
}

proof fn lemma_sweep_conserves(
    kind: WindowKind,
    slots: Seq<Slot>,
    st: WindowState,
    cur: ItemModel,
    partial_only: bool,
    backwards: bool,
    i: int,
    id: int,
    damage: int,
)
    requires
        fits(kind, slots, st),
        i >= 0,
        counts_sane(slots, st),
    ensures
        ({
            let (next, after) = collect_sweep(slots, st, cur, partial_only, backwards, i);
            &&& fits(kind, slots, next)
            &&& counts_sane(slots, next)
            &&& next.cursor == st.cursor
            &&& after == cur.with_count(after.count)
            &&& cur.count <= after.count
            &&& after.count <= spec_max_stack(cur) || after.count == cur.count
            &&& tally(next, id, damage) + held(Some(after), id, damage) == tally(st, id, damage)
                + held(Some(cur), id, damage)
        }),
    decreases slots.len() - i,
{
    if i < slots.len() && cur.count < spec_max_stack(cur) {
        let idx = if backwards {
            slots.len() - 1 - i
        } else {
            i
        };
        match st.read(slots, idx) {
            Some(other) => {
                if spec_stackable(other, cur) && (!partial_only || other.count != spec_max_stack(
                    other,
                )) {
                    let take = min_of(spec_max_stack(cur) - cur.count, other.count);
                    let item = other.remaining(other.count - take);
                    lemma_tally_put(st, slots[idx].back, item, id, damage);
                    law_write_then_read(kind, slots, st, idx, item);
                    lemma_sweep_conserves(
                        kind,
                        slots,
                        st.write(slots, idx, item),
                        cur.with_count(cur.count + take),
                        partial_only,
                        backwards,
                        i + 1,
                        id,
                        damage,
                    );
                } else {
                    lemma_sweep_conserves(
                        kind,
                        slots,
                        st,
                        cur,
                        partial_only,
                        backwards,
                        i + 1,
                        id,
                        damage,
                    );
                }
            },
            None => {
                lemma_sweep_conserves(
                    kind,
                    slots,
                    st,
                    cur,
                    partial_only,
                    backwards,
                    i + 1,
                    id,
                    damage,
                );
            },
        }
    }
}

/// No stack in the window counts below zero, as holds of every stack: the count
/// is a byte.
pub open spec fn counts_sane(slots: Seq<Slot>, st: WindowState) -> bool {
    forall|s: int|
        0 <= s < slots.len() ==> (#[trigger] st.read(slots, s) matches Some(item) ==> item.count
            >= 0)
}

/// No slot holds more than it may.
pub open spec fn within_limits(slots: Seq<Slot>, st: WindowState) -> bool {
    forall|s: int|
        0 <= s < slots.len() ==> (#[trigger] st.read(slots, s) matches Some(item) ==> item.count
            <= slots[s].spec_limit())
}

/// The painted slots are slots of the window.
pub open spec fn painted_inside(slots: Seq<Slot>, painted: Seq<usize>) -> bool {
    forall|k: int| 0 <= k < painted.len() ==> (#[trigger] painted[k]) < slots.len()
}

proof fn lemma_deposit_conserves(
    kind: WindowKind,
    slots: Seq<Slot>,
    st: WindowState,
    c: ItemModel,
    painted: Seq<usize>,
    k: int,
    remaining: int,
    id: int,
    damage: int,
)
    requires
        fits(kind, slots, st),
        painted_inside(slots, painted),
        0 <= k <= painted.len(),
        c.count >= 0,
        within_limits(slots, st),
    ensures
        ({
            let (next, left) = drag_deposit(slots, st, c, painted, k, remaining);
            let per = spec_drag_amount(st.drag_mode, c, painted.len() as int);
            &&& fits(kind, slots, next)
            &&& next.cursor == st.cursor
            &&& tally(next, id, damage) + held(Some(c.with_count(left)), id, damage) == tally(
                st,
                id,
                damage,
            ) + held(Some(c.with_count(remaining)), id, damage)
            &&& left <= remaining
            &&& c.count < painted.len() ==> left == remaining
            &&& left >= remaining - (painted.len() - k) * per
        }),
    decreases painted.len() - k,
{
    let per = spec_drag_amount(st.drag_mode, c, painted.len() as int);
    let n = painted.len() as int;
    assert(per >= 0) by {
        if st.drag_mode == 0 {
            vstd::arithmetic::div_mod::lemma_div_pos_is_pos(
                c.count,
                if n < 1 {
                    1
                } else {
                    n
                },
            );
        }
    }
    assert((n - k) * per >= 0) by (nonlinear_arith)
        requires
            n - k >= 0,
            per >= 0,
    ;
    if k < painted.len() {
        let s = painted[k] as int;
        let existing = st.read(slots, s);
        assert((n - k) * per == (n - (k + 1)) * per + per) by (nonlinear_arith);
        if spec_can_add(existing, c) && slots[s].spec_item_valid() && c.count >= painted.len() {
            let have = count_of(existing);
            let amount = drag_total(slots[s], st.drag_mode, c, n, have);
            let item = Some(c.with_count(amount));
            lemma_tally_put(st, slots[s].back, item, id, damage);
            law_write_then_read(kind, slots, st, s, item);
            let next = st.write(slots, s, item);
            assert forall|t: int| 0 <= t < slots.len() implies (#[trigger] next.read(
                slots,
                t,
            ) matches Some(x) ==> x.count <= slots[t].spec_limit()) by {
                if t != s {
                    assert(next.read(slots, t) == st.read(slots, t));
                }
            }
            lemma_deposit_conserves(
                kind,
                slots,
                next,
                c,
                painted,
                k + 1,
                remaining - (amount - have),
                id,
                damage,
            );
        } else {
            lemma_deposit_conserves(kind, slots, st, c, painted, k + 1, remaining, id, damage);
        }
    }
}

/// A drag that splits evenly or places one each keeps every item: what is not
/// deposited stays on the cursor.
proof fn lemma_drag_end_conserves(
    kind: WindowKind,
    slots: Seq<Slot>,
    st: WindowState,
    id: int,
    damage: int,
)
    requires
        fits(kind, slots, st),
        painted_inside(slots, st.drag_slots),
        within_limits(slots, st),
        st.drag_mode == 0 || st.drag_mode == 1,
        st.cursor matches Some(c) ==> 0 <= c.count <= 255,
    ensures
        tally(drag_end_spec(slots, st), id, damage) == tally(st, id, damage),
{
    match st.cursor {
        Some(c) if st.drag_slots.len() > 0 => {
            let n = st.drag_slots.len() as int;
            let (next, left) = drag_deposit(slots, st, c, st.drag_slots, 0, c.count);
            lemma_deposit_conserves(kind, slots, st, c, st.drag_slots, 0, c.count, id, damage);
            let per = spec_drag_amount(st.drag_mode, c, n);
            if c.count >= n {
                assert(n * per <= c.count) by {
                    if st.drag_mode == 0 {
                        vstd::arithmetic::div_mod::lemma_fundamental_div_mod(c.count, n);
                        vstd::arithmetic::div_mod::lemma_mod_bound(c.count, n);
                    } else {
                        assert(n * 1 == n);
                    }
                }
            }
            assert(0 <= left <= 255);
            assert(tally(next.with_cursor(carried(c, left)).drag_reset(), id, damage) == total(
                next.inv,
                id,
                damage,
            ) + total(next.player, id, damage) + held(carried(c, left), id, damage));
        },
        _ => {},
    }
}

/// No click makes or loses items, but for the three that are meant to: dropping
/// from the cursor or a slot, copying a stack in creative mode, and the creative
/// drag that fills slots. For a drag, no slot may hold more than its limit.
pub proof fn law_clicks_conserve_items(
    kind: WindowKind,
    slots: Seq<Slot>,
    st: WindowState,
    slot_id: i16,
    button: i8,
    mode: i8,
    creative: bool,
    id: int,
    damage: int,
)
    requires
        fits(kind, slots, st),
        counts_sane(slots, st),
        st.cursor matches Some(c) ==> 0 <= c.count <= 255,
        click_defined(slots, st, slot_id, button, mode),
        painted_inside(slots, st.drag_slots),
        mode == 5 ==> within_limits(slots, st) && (st.drag_mode == 0 || st.drag_mode == 1),
        !(slot_id == OUTSIDE && (mode == 0 || mode == 1)),
        mode != 3,
        mode != 4,
    ensures
        tally(
            slot_click_spec(kind, slots, st, slot_id, button, mode, creative).0,
            id,
            damage,
        ) == tally(st, id, damage),
{
    let s = slot_id as int;
    let inside = 0 <= s < slots.len();
    let own = st.inv.len() as int;
    if mode == 5 {
        let event = (button & 3) as int;
        let now = WindowState { drag_event: event, ..st };
        assert forall|t: int| 0 <= t < slots.len() implies #[trigger] now.read(slots, t) == st.read(
            slots,
            t,
        ) by {}
        if event == 2 {
            lemma_drag_end_conserves(kind, slots, now, id, damage);
        }
    } else if st.drag_event != 0 {
    } else if (mode == 0 || mode == 1) && (button == 0 || button == 1) {
        if inside && mode == 1 {
            lemma_transfer_conserves(kind, slots, st, s, id, damage);
            let (next, moved) = transfer_spec(kind, slots, own, st, s);
            if moved is Some {
                lemma_transfer_rest_conserves(kind, slots, next, s, moved->0.id, id, damage);
            }
        } else if inside {
            lemma_pick_place_conserves(kind, slots, st, s, button as int, id, damage);
        }
    } else if mode == 2 && 0 <= button < 9 {
        if inside {
            let back = SlotBack::Player((36 + button) as usize);
            let hot = st.at(back);
            let seen = st.read(slots, s);
            lemma_tally_put(st, back, seen, id, damage);
            lemma_tally_put(st.put(back, seen), slots[s].back, hot, id, damage);
            lemma_tally_put(st, back, None, id, damage);
            lemma_tally_put(st.put(back, None), slots[s].back, hot, id, damage);
        }
    } else if mode == 6 && inside {
        match st.cursor {
            Some(cur) => {
                if st.read(slots, s) is None {
                    lemma_sweep_conserves(kind, slots, st, cur, true, button != 0, 0, id, damage);
                    let (st1, cur1) = collect_sweep(slots, st, cur, true, button != 0, 0);
                    lemma_sweep_conserves(
                        kind,
                        slots,
                        st1,
                        cur1,
                        false,
                        button != 0,
                        0,
                        id,
                        damage,
                    );
                }
            },
            None => {},
        }
    }
}

proof fn lemma_pick_place_conserves(
    kind: WindowKind,
    slots: Seq<Slot>,
    st: WindowState,
    s: int,
    button: int,
    id: int,
    damage: int,
)
    requires
        fits(kind, slots, st),
        counts_sane(slots, st),
        0 <= s < slots.len(),
        button == 0 || button == 1,
        st.cursor matches Some(c) ==> c.count >= 0,
        button == 1 ==> (st.cursor matches Some(c) ==> c.count > 0 || match st.read(slots, s) {
            None => !slots[s].spec_item_valid(),
            Some(ss) => !(slots[s].spec_item_valid() && spec_stackable(c, ss) && added_count(
                slots[s],
                c,
                ss.count,
                1,
            ) > 0),
        }),
    ensures
        tally(pick_place_spec(slots, st, s, button), id, damage) == tally(st, id, damage),
{
    let slot = slots[s];
    match (st.cursor, st.read(slots, s)) {
        (None, None) => {},
        (Some(cur), None) => {
            let take = placed_count(slot, cur, button);
            lemma_tally_put(st, slot.back, Some(cur.with_count(take)), id, damage);
        },
        (None, Some(ss)) => {
            let take = taken_count(ss.count, button);
            lemma_tally_put(st, slot.back, ss.remaining(ss.count - take), id, damage);
        },
        (Some(cur), Some(ss)) => {
            let put = added_count(slot, cur, ss.count, button);
            lemma_tally_put(st, slot.back, Some(ss.with_count(ss.count + put)), id, damage);
            lemma_tally_put(st, slot.back, Some(cur), id, damage);
            lemma_tally_put(st, slot.back, None, id, damage);
        },
    }
}

/// Dropping takes exactly what is dropped: everything carried, one carried item,
/// one item of a slot, or the whole stack of a slot.
pub proof fn law_drops_lose_what_is_dropped(
    kind: WindowKind,
    slots: Seq<Slot>,
    st: WindowState,
    s: int,
    button: int,
    id: int,
    damage: int,
)
    requires
        fits(kind, slots, st),
        0 <= s < slots.len(),
        st.cursor matches Some(c) ==> c.count > 0,
        st.read(slots, s) matches Some(ss) ==> ss.count > 0,
    ensures
        tally(drop_cursor_spec(st, button), id, damage) == tally(st, id, damage) - if button == 0 {
            held(st.cursor, id, damage)
        } else {
            min_of(1, held(st.cursor, id, damage))
        },
        tally(drop_spec(slots, st, s, button), id, damage) == tally(st, id, damage) - if button
            == 0 {
            min_of(1, held(st.read(slots, s), id, damage))
        } else {
            held(st.read(slots, s), id, damage)
        },
{
    match st.read(slots, s) {
        Some(ss) => {
            lemma_tally_put(st, slots[s].back, ss.remaining(ss.count - 1), id, damage);
            lemma_tally_put(st, slots[s].back, None, id, damage);
        },
        None => {},
    }
}

/// A click of any other kind while a drag is collecting slots only ends the
/// drag.
pub proof fn law_other_click_cancels_drag(
    kind: WindowKind,
    slots: Seq<Slot>,
    st: WindowState,
    slot_id: i16,
    button: i8,
    mode: i8,
    creative: bool,
)
    requires
        st.drag_event != 0,
        mode != 5,
    ensures
        slot_click_spec(kind, slots, st, slot_id, button, mode, creative) == (
            st.drag_reset(),
            None::<ItemModel>,
        ),
{
}

/// Picking a stack up and putting it back with the left button restores the
/// window, when the slot takes the stack whole.
pub proof fn law_pick_up_then_place_restores(
    kind: WindowKind,
    slots: Seq<Slot>,
    st: WindowState,
    s: i16,
    creative: bool,
)
    requires
        fits(kind, slots, st),
        0 <= s < slots.len(),
        st.drag_event == 0,
        st.cursor is None,
        slots[s as int].spec_item_valid(),
        st.read(slots, s as int) matches Some(ss) ==> 0 < ss.count
            <= slots[s as int].spec_limit(),
    ensures
        ({
            let once = slot_click_spec(kind, slots, st, s, 0, 0, creative).0;
            let twice = slot_click_spec(kind, slots, once, s, 0, 0, creative).0;
            &&& once.cursor == st.read(slots, s as int)
            &&& once.read(slots, s as int) is None
            &&& twice == st
        }),
{
    let i = s as int;
    match st.read(slots, i) {
        Some(ss) => {
            law_write_then_read(kind, slots, st, i, None);
            let once = slot_click_spec(kind, slots, st, s, 0, 0, creative).0;
            assert(ss.with_count(ss.count) == ss);
            assert(once == st.write(slots, i, None).with_cursor(Some(ss)));
            let twice = slot_click_spec(kind, slots, once, s, 0, 0, creative).0;
            assert(twice == once.write(slots, i, Some(ss)).with_cursor(None));
            assert(twice =~= st);
        },
        None => {},
    }
}

/// Pressing the same number key twice over a slot of the player's own rows
/// restores the window.
pub proof fn law_hotbar_swap_undoes_itself(
    kind: WindowKind,
    slots: Seq<Slot>,
    st: WindowState,
    s: i16,
    hotbar: i8,
    creative: bool,
)
    requires
        fits(kind, slots, st),
        0 <= s < slots.len(),
        0 <= hotbar < 9,
        st.drag_event == 0,
        slots[s as int].spec_is_player(),
        slots[s as int].spec_item_valid(),
    ensures
        ({
            let once = slot_click_spec(kind, slots, st, s, hotbar, 2, creative).0;
            slot_click_spec(kind, slots, once, s, hotbar, 2, creative).0 == st
        }),
{
    let back = SlotBack::Player((36 + hotbar) as usize);
    let i = s as int;
    let seen = st.read(slots, i);
    let hot = st.at(back);
    let once = slot_click_spec(kind, slots, st, s, hotbar, 2, creative).0;
    lemma_tally_put(st, back, seen, 0, 0);
    lemma_tally_put(st.put(back, seen), slots[i].back, hot, 0, 0);
    lemma_tally_put(once, back, once.read(slots, i), 0, 0);
    lemma_tally_put(once.put(back, once.read(slots, i)), slots[i].back, once.at(back), 0, 0);
    assert(slot_click_spec(kind, slots, once, s, hotbar, 2, creative).0 =~= st);
}

/// A double-click never carries more than a stack can hold, and never less than
/// before.
pub proof fn law_collect_fills_one_stack(
    kind: WindowKind,
    slots: Seq<Slot>,
    st: WindowState,
    s: int,
    button: int,
)
    requires
        fits(kind, slots, st),
        counts_sane(slots, st),
        0 <= s < slots.len(),
        st.cursor is Some,
        0 <= st.cursor->0.count <= spec_max_stack(st.cursor->0),
    ensures
        ({
            let after = collect_spec(slots, st, s, button).cursor;
            &&& after is Some
            &&& after->0 == st.cursor->0.with_count(after->0.count)
            &&& st.cursor->0.count <= after->0.count <= spec_max_stack(after->0)
        }),
{
    let cur = st.cursor->0;
    lemma_sweep_conserves(kind, slots, st, cur, true, button != 0, 0, 0, 0);
    let (st1, cur1) = collect_sweep(slots, st, cur, true, button != 0, 0);
    lemma_sweep_conserves(kind, slots, st1, cur1, false, button != 0, 0, 0, 0);
}

} // verus!
