//! A click leaves no empty and no overfull stack.

use vstd::prelude::*;
use crate::container::click::{
    added_count, carried, click_defined, collect_sweep, count_at, count_of, drag_deposit,
    drag_total, merge_place, merge_spec, merge_top_up, min_of, placed_count, slot_click_spec,
    spec_can_add, spec_drag_amount, taken_count, transfer_range, transfer_rest, transfer_spec,
    visited, Merged,
};
use crate::container::laws::{fits, painted_inside};
use crate::container::layout::{own_slots, player_rows, window_metrics};
use crate::container::state::{
    back_in_range, Slot, SlotBack, SlotKind, WindowKind, WindowState, PLAYER_SLOTS,
};
use crate::item::{spec_max_stack, spec_stackable, ItemModel};

verus! {

/// A place holds nothing, or from one item to as many as stack.
pub open spec fn in_limits(item: Option<ItemModel>) -> bool {
    item matches Some(stack) ==> 1 <= stack.count <= spec_max_stack(stack)
}

/// All places behind the window, those of the player and the cursor hold nothing, or from
/// one item to as many as stack.
pub open spec fn stacks_in_limits(st: WindowState) -> bool {
    &&& forall|i: int| 0 <= i < st.inv.len() ==> in_limits(#[trigger] st.inv[i])
    &&& forall|i: int| 0 <= i < st.player.len() ==> in_limits(#[trigger] st.player[i])
    &&& in_limits(st.cursor)
}

/// The slots for single items hold no more than one.
pub open spec fn singles_are_single(slots: Seq<Slot>, st: WindowState) -> bool {
    forall|s: int|
        0 <= s < slots.len() && (#[trigger] slots[s]).kind == SlotKind::Limit1 ==> count_of(
            st.read(slots, s),
        ) <= 1
}

proof fn lemma_put_in_limits(st: WindowState, back: SlotBack, item: Option<ItemModel>)
    requires
        stacks_in_limits(st),
        in_limits(item),
        back_in_range(back, st.inv.len() as int, st.player.len() as int),
    ensures
        stacks_in_limits(st.put(back, item)),
        in_limits(st.at(back)),
{
}

proof fn lemma_write_in_limits(
    kind: WindowKind,
    slots: Seq<Slot>,
    st: WindowState,
    s: int,
    item: Option<ItemModel>,
)
    requires
        fits(kind, slots, st),
        0 <= s < slots.len(),
        stacks_in_limits(st),
        in_limits(item),
    ensures
        fits(kind, slots, st.write(slots, s, item)),
        stacks_in_limits(st.write(slots, s, item)),
        in_limits(st.read(slots, s)),
{
    lemma_put_in_limits(st, slots[s].back, item);
}

proof fn lemma_read_in_limits(kind: WindowKind, slots: Seq<Slot>, st: WindowState, s: int)
    requires
        fits(kind, slots, st),
        0 <= s < slots.len(),
        stacks_in_limits(st),
    ensures
        in_limits(st.read(slots, s)),
{
    lemma_put_in_limits(st, slots[s].back, None);
}

proof fn lemma_top_up_in_limits(
    kind: WindowKind,
    slots: Seq<Slot>,
    m: Merged,
    start: int,
    end: int,
    reverse: bool,
    k: int,
)
    requires
        fits(kind, slots, m.state),
        stacks_in_limits(m.state),
        0 <= m.stack.count <= spec_max_stack(m.stack),
        k >= 0,
        0 <= start,
        start < end ==> end <= slots.len(),
    ensures
        ({
            let r = merge_top_up(slots, m, start, end, reverse, k);
            &&& fits(kind, slots, r.state)
            &&& stacks_in_limits(r.state)
            &&& 0 <= r.stack.count <= spec_max_stack(r.stack)
            &&& r.stack.id == m.stack.id
            &&& r.state.inv.len() == m.state.inv.len()
        }),
    decreases end - start - k,
{
    if k < end - start && m.stack.count != 0 {
        let i = visited(start, end, reverse, k);
        let cap = spec_max_stack(m.stack);
        lemma_read_in_limits(kind, slots, m.state, i);
        match m.state.read(slots, i) {
            Some(have) => {
                if spec_stackable(have, m.stack) && have.count + m.stack.count <= cap {
                    let item = Some(have.with_count(have.count + m.stack.count));
                    lemma_write_in_limits(kind, slots, m.state, i, item);
                    let next = Merged {
                        state: m.state.write(slots, i, item),
                        stack: m.stack.with_count(0),
                        moved: true,
                    };
                    lemma_top_up_in_limits(kind, slots, next, start, end, reverse, k + 1);
                } else if spec_stackable(have, m.stack) && have.count < cap {
                    let item = Some(have.with_count(cap));
                    lemma_write_in_limits(kind, slots, m.state, i, item);
                    let next = Merged {
                        state: m.state.write(slots, i, item),
                        stack: m.stack.with_count(m.stack.count - (cap - have.count)),
                        moved: true,
                    };
                    lemma_top_up_in_limits(kind, slots, next, start, end, reverse, k + 1);
                } else {
                    lemma_top_up_in_limits(kind, slots, m, start, end, reverse, k + 1);
                }
            },
            None => {
                lemma_top_up_in_limits(kind, slots, m, start, end, reverse, k + 1);
            },
        }
    }
}

proof fn lemma_place_in_limits(
    kind: WindowKind,
    slots: Seq<Slot>,
    m: Merged,
    start: int,
    end: int,
    reverse: bool,
    k: int,
)
    requires
        fits(kind, slots, m.state),
        stacks_in_limits(m.state),
        1 <= m.stack.count <= spec_max_stack(m.stack),
        k >= 0,
        0 <= start,
        start < end ==> end <= slots.len(),
    ensures
        ({
            let r = merge_place(slots, m, start, end, reverse, k);
            &&& fits(kind, slots, r.state)
            &&& stacks_in_limits(r.state)
            &&& 0 <= r.stack.count <= spec_max_stack(r.stack)
            &&& r.state.inv.len() == m.state.inv.len()
        }),
    decreases end - start - k,
{
    if k < end - start {
        let i = visited(start, end, reverse, k);
        let put = min_of(m.stack.count, slots[i].spec_limit());
        lemma_write_in_limits(kind, slots, m.state, i, Some(m.stack.with_count(put)));
        lemma_place_in_limits(kind, slots, m, start, end, reverse, k + 1);
    }
}

proof fn lemma_transfer_in_limits(kind: WindowKind, slots: Seq<Slot>, st: WindowState, s: int)
    requires
        fits(kind, slots, st),
        stacks_in_limits(st),
        0 <= s < slots.len(),
    ensures
        ({
            let next = transfer_spec(kind, slots, st.inv.len() as int, st, s).0;
            &&& fits(kind, slots, next)
            &&& stacks_in_limits(next)
            &&& next.inv.len() == st.inv.len()
        }),
{
    let own = st.inv.len() as int;
    lemma_read_in_limits(kind, slots, st, s);
    match st.read(slots, s) {
        Some(original) => {
            match transfer_range(kind, own, slots.len() as int, s) {
                Some((start, end, reverse)) => {
                    let m0 = Merged { state: st, stack: original, moved: false };
                    lemma_top_up_in_limits(kind, slots, m0, start, end, reverse, 0);
                    let m1 = if spec_max_stack(original) > 1 {
                        merge_top_up(slots, m0, start, end, reverse, 0)
                    } else {
                        m0
                    };
                    if m1.stack.count > 0 {
                        lemma_place_in_limits(kind, slots, m1, start, end, reverse, 0);
                    }
                    let m = merge_spec(slots, st, original, start, end, reverse);
                    lemma_write_in_limits(
                        kind,
                        slots,
                        m.state,
                        s,
                        m.stack.remaining(m.stack.count),
                    );
                },
                None => {},
            }
        },
        None => {},
    }
}

proof fn lemma_transfer_rest_in_limits(
    kind: WindowKind,
    slots: Seq<Slot>,
    st: WindowState,
    s: int,
    item: int,
)
    requires
        fits(kind, slots, st),
        stacks_in_limits(st),
        0 <= s < slots.len(),
    ensures
        stacks_in_limits(transfer_rest(kind, slots, st.inv.len() as int, st, s, item)),
    decreases count_at(slots, st, s),
{
    match st.read(slots, s) {
        Some(now) => {
            if now.id == item {
                lemma_transfer_in_limits(kind, slots, st, s);
                let (next, moved) = transfer_spec(kind, slots, st.inv.len() as int, st, s);
                if moved is Some && count_at(slots, next, s) < count_at(slots, st, s) {
                    lemma_transfer_rest_in_limits(kind, slots, next, s, item);
                }
            }
        },
        None => {},
    }
}

proof fn lemma_sweep_in_limits(
    kind: WindowKind,
    slots: Seq<Slot>,
    st: WindowState,
    cur: ItemModel,
    partial_only: bool,
    backwards: bool,
    i: int,
)
    requires
        fits(kind, slots, st),
        stacks_in_limits(st),
        in_limits(Some(cur)),
        i >= 0,
    ensures
        ({
            let (next, full) = collect_sweep(slots, st, cur, partial_only, backwards, i);
            &&& fits(kind, slots, next)
            &&& stacks_in_limits(next)
            &&& in_limits(Some(full))
        }),
    decreases slots.len() - i,
{
    if i < slots.len() && cur.count < spec_max_stack(cur) {
        let idx = if backwards {
            slots.len() - 1 - i
        } else {
            i
        };
        lemma_read_in_limits(kind, slots, st, idx);
        match st.read(slots, idx) {
            Some(other) => {
                if spec_stackable(other, cur) && (!partial_only || other.count != spec_max_stack(
                    other,
                )) {
                    let take = min_of(spec_max_stack(cur) - cur.count, other.count);
                    let item = other.remaining(other.count - take);
                    lemma_write_in_limits(kind, slots, st, idx, item);
                    lemma_sweep_in_limits(
                        kind,
                        slots,
                        st.write(slots, idx, item),
                        cur.with_count(cur.count + take),
                        partial_only,
                        backwards,
                        i + 1,
                    );
                } else {
                    lemma_sweep_in_limits(kind, slots, st, cur, partial_only, backwards, i + 1);
                }
            },
            None => {
                lemma_sweep_in_limits(kind, slots, st, cur, partial_only, backwards, i + 1);
            },
        }
    }
}

proof fn lemma_deposit_in_limits(
    kind: WindowKind,
    slots: Seq<Slot>,
    st: WindowState,
    c: ItemModel,
    painted: Seq<usize>,
    k: int,
    remaining: int,
)
    requires
        fits(kind, slots, st),
        stacks_in_limits(st),
        singles_are_single(slots, st),
        in_limits(Some(c)),
        painted_inside(slots, painted),
        0 <= k <= painted.len(),
        remaining <= c.count,
    ensures
        ({
            let (next, left) = drag_deposit(slots, st, c, painted, k, remaining);
            &&& stacks_in_limits(next)
            &&& left <= c.count
        }),
    decreases painted.len() - k,
{
    if k < painted.len() {
        let s = painted[k] as int;
        let n = painted.len() as int;
        let existing = st.read(slots, s);
        lemma_read_in_limits(kind, slots, st, s);
        if spec_can_add(existing, c) && slots[s].spec_item_valid() && c.count >= n {
            let have = count_of(existing);
            let amount = spec_drag_amount(st.drag_mode, c, n);
            assert(c.count / n >= 1) by (nonlinear_arith)
                requires
                    c.count >= n,
                    n >= 1,
            ;
            assert(amount >= 1);
            let total = drag_total(slots[s], st.drag_mode, c, n, have);
            let item = Some(c.with_count(total));
            assert(have <= total);
            lemma_write_in_limits(kind, slots, st, s, item);
            let next = st.write(slots, s, item);
            assert forall|t: int|
                0 <= t < slots.len() && (#[trigger] slots[t]).kind == SlotKind::Limit1 implies count_of(
                next.read(slots, t),
            ) <= 1 by {
                crate::container::laws::law_write_then_read(kind, slots, st, s, item);
                if t != s {
                    assert(next.read(slots, t) == st.read(slots, t));
                }
            }
            lemma_deposit_in_limits(
                kind,
                slots,
                next,
                c,
                painted,
                k + 1,
                remaining - (total - have),
            );
        } else {
            lemma_deposit_in_limits(kind, slots, st, c, painted, k + 1, remaining);
        }
    }
}

/// Every click has a meaning where no stack is empty, and it leaves every stack with at
/// least one item and no more than stack: an emptied stack is gone, and none is
/// overfull. For a drag, no slot for a single item may hold more.
pub proof fn law_clicks_keep_stacks_in_limits(
    kind: WindowKind,
    slots: Seq<Slot>,
    st: WindowState,
    slot_id: i16,
    button: i8,
    mode: i8,
    creative: bool,
)
    requires
        fits(kind, slots, st),
        painted_inside(slots, st.drag_slots),
        stacks_in_limits(st),
        mode == 5 ==> singles_are_single(slots, st),
    ensures
        click_defined(slots, st, slot_id, button, mode),
        stacks_in_limits(slot_click_spec(kind, slots, st, slot_id, button, mode, creative).0),
{
    let s = slot_id as int;
    let inside = 0 <= s < slots.len();
    let own = st.inv.len() as int;
    if inside {
        lemma_read_in_limits(kind, slots, st, s);
    }
    if mode == 5 {
        let now = WindowState { drag_event: (button & 3) as int, ..st };
        assert forall|t: int| 0 <= t < slots.len() implies #[trigger] now.read(slots, t) == st.read(
            slots,
            t,
        ) by {}
        if st.cursor is Some {
            let c = st.cursor->0;
            assert(singles_are_single(slots, now));
            lemma_deposit_in_limits(kind, slots, now, c, now.drag_slots, 0, c.count);
            let (next, left) = drag_deposit(slots, now, c, now.drag_slots, 0, c.count);
            assert(in_limits(carried(c, left)));
            assert(stacks_in_limits(next.with_cursor(carried(c, left)).drag_reset()));
        }
    } else if st.drag_event != 0 {
    } else if (mode == 0 || mode == 1) && (button == 0 || button == 1) {
        if inside && mode == 1 {
            lemma_transfer_in_limits(kind, slots, st, s);
            let (next, moved) = transfer_spec(kind, slots, own, st, s);
            if moved is Some {
                lemma_transfer_rest_in_limits(kind, slots, next, s, moved->0.id);
            }
        } else if inside {
            lemma_pick_place_in_limits(kind, slots, st, s, button as int);
        }
    } else if mode == 2 && 0 <= button < 9 {
        if inside {
            let back = SlotBack::Player((36 + button) as usize);
            let hot = st.at(back);
            let seen = st.read(slots, s);
            lemma_put_in_limits(st, back, seen);
            lemma_put_in_limits(st.put(back, seen), slots[s].back, hot);
            lemma_put_in_limits(st, back, None);
            lemma_put_in_limits(st.put(back, None), slots[s].back, hot);
        }
    } else if mode == 4 && inside {
        match st.read(slots, s) {
            Some(ss) => {
                lemma_write_in_limits(kind, slots, st, s, ss.remaining(ss.count - 1));
                lemma_write_in_limits(kind, slots, st, s, None);
            },
            None => {},
        }
    } else if mode == 6 && inside {
        match st.cursor {
            Some(cur) => {
                lemma_sweep_in_limits(kind, slots, st, cur, true, button != 0, 0);
                let (st1, cur1) = collect_sweep(slots, st, cur, true, button != 0, 0);
                lemma_sweep_in_limits(kind, slots, st1, cur1, false, button != 0, 0);
            },
            None => {},
        }
    }
}

/// In a chest, whose slots all take full stacks, every click, a drag too, leaves every
/// stack with at least one item and no more than stack.
pub proof fn law_chest_clicks_keep_stacks_in_limits(
    rows: u8,
    st: WindowState,
    slot_id: i16,
    button: i8,
    mode: i8,
    creative: bool,
)
    requires
        st.inv.len() == rows * 9,
        st.player.len() == PLAYER_SLOTS,
        painted_inside(chest_slots(rows), st.drag_slots),
        stacks_in_limits(st),
    ensures
        click_defined(chest_slots(rows), st, slot_id, button, mode),
        stacks_in_limits(
            slot_click_spec(
                WindowKind::Chest(rows),
                chest_slots(rows),
                st,
                slot_id,
                button,
                mode,
                creative,
            ).0,
        ),
{
    law_clicks_keep_stacks_in_limits(
        WindowKind::Chest(rows),
        chest_slots(rows),
        st,
        slot_id,
        button,
        mode,
        creative,
    );
}

/// The slots of an open chest.
pub open spec fn chest_slots(rows: u8) -> Seq<Slot> {
    let kind = WindowKind::Chest(rows);
    let (main_y, hot_y, _, _) = window_metrics(kind);
    own_slots(kind, rows * 9) + player_rows(main_y, hot_y)
}

proof fn lemma_pick_place_in_limits(
    kind: WindowKind,
    slots: Seq<Slot>,
    st: WindowState,
    s: int,
    button: int,
)
    requires
        fits(kind, slots, st),
        stacks_in_limits(st),
        0 <= s < slots.len(),
        button == 0 || button == 1,
    ensures
        stacks_in_limits(crate::container::click::pick_place_spec(slots, st, s, button)),
{
    let slot = slots[s];
    lemma_read_in_limits(kind, slots, st, s);
    match (st.cursor, st.read(slots, s)) {
        (None, None) => {},
        (Some(cur), None) => {
            let take = placed_count(slot, cur, button);
            lemma_write_in_limits(kind, slots, st, s, Some(cur.with_count(take)));
        },
        (None, Some(ss)) => {
            let take = taken_count(ss.count, button);
            lemma_write_in_limits(kind, slots, st, s, ss.remaining(ss.count - take));
        },
        (Some(cur), Some(ss)) => {
            let put = added_count(slot, cur, ss.count, button);
            if spec_stackable(cur, ss) && put > 0 {
                lemma_write_in_limits(kind, slots, st, s, Some(ss.with_count(ss.count + put)));
            }
            lemma_write_in_limits(kind, slots, st, s, Some(cur));
            lemma_write_in_limits(kind, slots, st, s, None);
        },
    }
}

} // verus!
