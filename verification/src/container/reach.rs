//! A click reaches only the places that the window shows.

use vstd::prelude::*;
use crate::container::click::{
    collect_sweep, count_at, count_of, drag_deposit, drag_total, merge_place, merge_spec,
    merge_top_up, min_of, slot_click_spec, spec_can_add, transfer_range, transfer_rest,
    transfer_spec, visited, Merged,
};
use crate::container::laws::{fits, painted_inside};
use crate::container::state::{Slot, SlotBack, WindowKind, WindowState};
use crate::item::{spec_max_stack, spec_stackable, ItemModel};

verus! {

/// The window shows this place.
pub open spec fn shown(slots: Seq<Slot>, back: SlotBack) -> bool {
    exists|s: int| 0 <= s < slots.len() && (#[trigger] slots[s]).back == back
}

/// Places that the window does not show hold the same in both states.
pub open spec fn unshown_same(slots: Seq<Slot>, a: WindowState, b: WindowState) -> bool {
    &&& a.inv.len() == b.inv.len()
    &&& a.player.len() == b.player.len()
    &&& forall|back: SlotBack| !shown(slots, back) ==> #[trigger] a.at(back) == b.at(back)
}

proof fn lemma_write_reach(
    kind: WindowKind,
    slots: Seq<Slot>,
    st: WindowState,
    s: int,
    item: Option<ItemModel>,
)
    requires
        fits(kind, slots, st),
        0 <= s < slots.len(),
    ensures
        fits(kind, slots, st.write(slots, s, item)),
        unshown_same(slots, st, st.write(slots, s, item)),
{
    assert(shown(slots, slots[s].back));
    let after = st.write(slots, s, item);
    assert forall|back: SlotBack| !shown(slots, back) implies #[trigger] st.at(back) == after.at(
        back,
    ) by {
        assert(back != slots[s].back);
    }
}

proof fn lemma_top_up_reach(
    kind: WindowKind,
    slots: Seq<Slot>,
    m: Merged,
    start: int,
    end: int,
    reverse: bool,
    k: int,
)
    requires
        fits(kind, slots, m.state),
        k >= 0,
        0 <= start,
        start < end ==> end <= slots.len(),
    ensures
        fits(kind, slots, merge_top_up(slots, m, start, end, reverse, k).state),
        unshown_same(slots, m.state, merge_top_up(slots, m, start, end, reverse, k).state),
    decreases end - start - k,
{
    if k < end - start && m.stack.count != 0 {
        let i = visited(start, end, reverse, k);
        let cap = spec_max_stack(m.stack);
        match m.state.read(slots, i) {
            Some(have) => {
                if spec_stackable(have, m.stack) && have.count + m.stack.count <= cap {
                    let item = Some(have.with_count(have.count + m.stack.count));
                    lemma_write_reach(kind, slots, m.state, i, item);
                    let next = Merged {
                        state: m.state.write(slots, i, item),
                        stack: m.stack.with_count(0),
                        moved: true,
                    };
                    lemma_top_up_reach(kind, slots, next, start, end, reverse, k + 1);
                } else if spec_stackable(have, m.stack) && have.count < cap {
                    let item = Some(have.with_count(cap));
                    lemma_write_reach(kind, slots, m.state, i, item);
                    let next = Merged {
                        state: m.state.write(slots, i, item),
                        stack: m.stack.with_count(m.stack.count - (cap - have.count)),
                        moved: true,
                    };
                    lemma_top_up_reach(kind, slots, next, start, end, reverse, k + 1);
                } else {
                    lemma_top_up_reach(kind, slots, m, start, end, reverse, k + 1);
                }
            },
            None => {
                lemma_top_up_reach(kind, slots, m, start, end, reverse, k + 1);
            },
        }
    }
}

proof fn lemma_place_reach(
    kind: WindowKind,
    slots: Seq<Slot>,
    m: Merged,
    start: int,
    end: int,
    reverse: bool,
    k: int,
)
    requires
        fits(kind, slots, m.state),
        k >= 0,
        0 <= start,
        start < end ==> end <= slots.len(),
    ensures
        fits(kind, slots, merge_place(slots, m, start, end, reverse, k).state),
        unshown_same(slots, m.state, merge_place(slots, m, start, end, reverse, k).state),
    decreases end - start - k,
{
    if k < end - start {
        let i = visited(start, end, reverse, k);
        let put = min_of(m.stack.count, slots[i].spec_limit());
        lemma_write_reach(kind, slots, m.state, i, Some(m.stack.with_count(put)));
        lemma_place_reach(kind, slots, m, start, end, reverse, k + 1);
    }
}

proof fn lemma_transfer_reach(kind: WindowKind, slots: Seq<Slot>, st: WindowState, s: int)
    requires
        fits(kind, slots, st),
        0 <= s < slots.len(),
    ensures
        ({
            let next = transfer_spec(kind, slots, st.inv.len() as int, st, s).0;
            &&& fits(kind, slots, next)
            &&& unshown_same(slots, st, next)
        }),
{
    let own = st.inv.len() as int;
    match st.read(slots, s) {
        Some(original) => {
            match transfer_range(kind, own, slots.len() as int, s) {
                Some((start, end, reverse)) => {
                    let m0 = Merged { state: st, stack: original, moved: false };
                    lemma_top_up_reach(kind, slots, m0, start, end, reverse, 0);
                    let m1 = if spec_max_stack(original) > 1 {
                        merge_top_up(slots, m0, start, end, reverse, 0)
                    } else {
                        m0
                    };
                    lemma_place_reach(kind, slots, m1, start, end, reverse, 0);
                    let m = merge_spec(slots, st, original, start, end, reverse);
                    lemma_write_reach(
                        kind,
                        slots,
                        m.state,
                        s,
                        m.stack.remaining(m.stack.count),
                    );
                },
                None => {},
            }
        },
        None => {},
    }
}

proof fn lemma_transfer_rest_reach(
    kind: WindowKind,
    slots: Seq<Slot>,
    st: WindowState,
    s: int,
    item: int,
)
    requires
        fits(kind, slots, st),
        0 <= s < slots.len(),
    ensures
        unshown_same(
            slots,
            st,
            transfer_rest(kind, slots, st.inv.len() as int, st, s, item),
        ),
    decreases count_at(slots, st, s),
{
    match st.read(slots, s) {
        Some(now) => {
            if now.id == item {
                lemma_transfer_reach(kind, slots, st, s);
                let (next, moved) = transfer_spec(kind, slots, st.inv.len() as int, st, s);
                if moved is Some && count_at(slots, next, s) < count_at(slots, st, s) {
                    lemma_transfer_rest_reach(kind, slots, next, s, item);
                }
            }
        },
        None => {},
    }
}

proof fn lemma_sweep_reach(
    kind: WindowKind,
    slots: Seq<Slot>,
    st: WindowState,
    cur: ItemModel,
    partial_only: bool,
    backwards: bool,
    i: int,
)
    requires
        fits(kind, slots, st),
        i >= 0,
    ensures
        ({
            let next = collect_sweep(slots, st, cur, partial_only, backwards, i).0;
            &&& fits(kind, slots, next)
            &&& unshown_same(slots, st, next)
        }),
    decreases slots.len() - i,
{
    if i < slots.len() && cur.count < spec_max_stack(cur) {
        let idx = if backwards {
            slots.len() - 1 - i
        } else {
            i
        };
        match st.read(slots, idx) {
            Some(other) => {
                if spec_stackable(other, cur) && (!partial_only || other.count != spec_max_stack(
                    other,
                )) {
                    let take = min_of(spec_max_stack(cur) - cur.count, other.count);
                    let item = other.remaining(other.count - take);
                    lemma_write_reach(kind, slots, st, idx, item);
                    lemma_sweep_reach(
                        kind,
                        slots,
                        st.write(slots, idx, item),
                        cur.with_count(cur.count + take),
                        partial_only,
                        backwards,
                        i + 1,
                    );
                } else {
                    lemma_sweep_reach(kind, slots, st, cur, partial_only, backwards, i + 1);
                }
            },
            None => {
                lemma_sweep_reach(kind, slots, st, cur, partial_only, backwards, i + 1);
            },
        }
    }
}

proof fn lemma_deposit_reach(
    kind: WindowKind,
    slots: Seq<Slot>,
    st: WindowState,
    c: ItemModel,
    painted: Seq<usize>,
    k: int,
    remaining: int,
)
    requires
        fits(kind, slots, st),
        painted_inside(slots, painted),
        0 <= k <= painted.len(),
    ensures
        unshown_same(slots, st, drag_deposit(slots, st, c, painted, k, remaining).0),
    decreases painted.len() - k,
{
    if k < painted.len() {
        let s = painted[k] as int;
        let existing = st.read(slots, s);
        if spec_can_add(existing, c) && slots[s].spec_item_valid() && c.count >= painted.len() {
            let have = count_of(existing);
            let amount = drag_total(slots[s], st.drag_mode, c, painted.len() as int, have);
            let item = Some(c.with_count(amount));
            lemma_write_reach(kind, slots, st, s, item);
            lemma_deposit_reach(
                kind,
                slots,
                st.write(slots, s, item),
                c,
                painted,
                k + 1,
                remaining - (amount - have),
            );
        } else {
            lemma_deposit_reach(kind, slots, st, c, painted, k + 1, remaining);
        }
    }
}

/// No click of any kind changes a place that the window does not show: with a
/// chest open, the armor and craft grid of the player stay as they are.
pub proof fn law_clicks_stay_in_the_window(
    kind: WindowKind,
    slots: Seq<Slot>,
    st: WindowState,
    slot_id: i16,
    button: i8,
    mode: i8,
    creative: bool,
)
    requires
        fits(kind, slots, st),
        painted_inside(slots, st.drag_slots),
    ensures
        unshown_same(
            slots,
            st,
            slot_click_spec(kind, slots, st, slot_id, button, mode, creative).0,
        ),
{
    let s = slot_id as int;
    let inside = 0 <= s < slots.len();
    let after = slot_click_spec(kind, slots, st, slot_id, button, mode, creative).0;
    if mode == 5 {
        let now = WindowState { drag_event: (button & 3) as int, ..st };
        if st.cursor is Some {
            let c = st.cursor->0;
            lemma_deposit_reach(kind, slots, now, c, now.drag_slots, 0, c.count);
            let next = drag_deposit(slots, now, c, now.drag_slots, 0, c.count).0;
            assert(unshown_same(slots, now, next));
            assert forall|back: SlotBack| #[trigger] st.at(back) == now.at(back) by {}
            assert forall|back: SlotBack, item: Option<ItemModel>| #[trigger]
                next.with_cursor(item).drag_reset().at(back) == next.at(back) by {}
        }
        assert forall|back: SlotBack| !shown(slots, back) implies #[trigger] st.at(back)
            == after.at(back) by {}
    } else if inside {
        if mode == 1 {
            lemma_transfer_reach(kind, slots, st, s);
            let (next, moved) = transfer_spec(kind, slots, st.inv.len() as int, st, s);
            if moved is Some {
                lemma_transfer_rest_reach(kind, slots, next, s, moved->0.id);
            }
        } else if mode == 2 && 0 <= button < 9 {
            let back = SlotBack::Player((36 + button) as usize);
            let h = slots.len() - 9 + button;
            assert(slots[h].back == back);
            assert(st.put(back, st.read(slots, s)) == st.write(slots, h, st.read(slots, s)));
            assert(st.put(back, None) == st.write(slots, h, None));
            lemma_write_reach(kind, slots, st, h, st.read(slots, s));
            lemma_write_reach(kind, slots, st, h, None);
            lemma_write_reach(
                kind,
                slots,
                st.write(slots, h, st.read(slots, s)),
                s,
                st.at(back),
            );
            lemma_write_reach(kind, slots, st.write(slots, h, None), s, st.at(back));
        } else if mode == 6 && st.cursor is Some {
            let cur = st.cursor->0;
            lemma_sweep_reach(kind, slots, st, cur, true, button != 0, 0);
            let (st1, cur1) = collect_sweep(slots, st, cur, true, button != 0, 0);
            lemma_sweep_reach(kind, slots, st1, cur1, false, button != 0, 0);
        } else {
            lemma_write_reach(kind, slots, st, s, after.read(slots, s));
            assert forall|back: SlotBack| !shown(slots, back) implies #[trigger] st.at(back)
                == after.at(back) by {
                assert(back != slots[s].back);
            }
        }
    }
}

} // verus!
