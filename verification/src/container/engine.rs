//! Running clicks on an open window.

use vstd::prelude::*;
use crate::container::click::{
    added_count, carried, click_defined, clone_spec, collect_spec, collect_sweep, count_at,
    drag_deposit, drag_end_spec, drag_spec, drop_cursor_spec, drop_spec, hotbar_swap_spec,
    merge_place, merge_spec, merge_top_up, pick_place_spec, shift_spec, slot_click_spec,
    spec_can_add, spec_drag_amount, spec_valid_drag_mode, transfer_range, transfer_rest,
    transfer_spec, visited, Merged, OUTSIDE,
};
use crate::container::state::{
    back_in_range, Container, Slot, SlotBack, WindowKind, WindowState, PLAYER_SLOTS,
};
use crate::item::{
    copy_stack, inventory_view, max_stack, spec_max_stack, spec_stackable, stack_view, stackable,
    ItemModel, SlotItem,
};
use crate::packets::ServerboundPacket;

verus! {

pub fn is_valid_drag_mode(mode: i32, creative: bool) -> (yes: bool)
    ensures
        yes == spec_valid_drag_mode(mode as int, creative),
{
    mode == 0 || mode == 1 || (mode == 2 && creative)
}

/// Whether a stack can be painted onto a slot's contents.
pub fn can_add_to_slot(existing: &Option<SlotItem>, stack: &SlotItem) -> (yes: bool)
    ensures
        yes == spec_can_add(stack_view(*existing), stack@),
{
    match existing {
        None => true,
        Some(have) => stackable(have, stack) && have.count <= max_stack(stack),
    }
}

/// The per-slot amount a drag deposits (excluding what is already there).
pub fn compute_drag_amount(drag_mode: i32, cursor: &SlotItem, num_slots: usize) -> (amount: i32)
    requires
        num_slots <= i32::MAX,
    ensures
        amount == spec_drag_amount(drag_mode as int, cursor@, num_slots as int),
        0 <= amount <= 255,
{
    match drag_mode {
        0 => {
            let n: i32 = if num_slots < 1 {
                1
            } else {
                num_slots as i32
            };
            proof {
                vstd::arithmetic::div_mod::lemma_div_pos_is_pos(cursor.count as int, n as int);
                vstd::arithmetic::div_mod::lemma_div_is_ordered_by_denominator(
                    cursor.count as int,
                    1,
                    n as int,
                );
            }
            (cursor.count as i32) / n
        },
        1 => 1,
        _ => max_stack(cursor) as i32,
    }
}

impl Container {
    /// The number of the container's own places.
    pub fn container_size(&self) -> (n: usize)
        ensures
            n == self.container_inv@.len(),
    {
        self.container_inv.len()
    }

    pub fn reset_drag(&mut self)
        requires
            old(self).wf(),
        ensures
            final(self).wf(),
            final(self).same_window(old(self)),
            final(self).action == old(self).action,
            forall|player: Seq<Option<SlotItem>>, cursor: Option<SlotItem>|
                (#[trigger] final(self).state(player, cursor)) == old(self).state(
                    player,
                    cursor,
                ).drag_reset(),
    {
        self.drag_event = 0;
        self.drag_slots.clear();
        assert(self.container_inv == old(self).container_inv);
    }

    /// Merge a stack into window slots `[start, end)`. Returns whether anything
    /// moved; `stack` keeps what is left.
    pub fn merge(
        &mut self,
        stack: &mut SlotItem,
        start: usize,
        end: usize,
        reverse: bool,
        player: &mut Vec<Option<SlotItem>>,
    ) -> (moved: bool)
        requires
            old(self).wf(),
            old(player)@.len() >= PLAYER_SLOTS,
            start < end ==> end <= old(self).slots@.len(),
        ensures
            final(self).wf(),
            final(self).same_window(old(self)),
            final(self).action == old(self).action,
            final(player)@.len() == old(player)@.len(),
            forall|cursor: Option<SlotItem>|
                ({
                    let m = merge_spec(
                        old(self).slots@,
                        #[trigger] old(self).state(old(player)@, cursor),
                        old(stack)@,
                        start as int,
                        end as int,
                        reverse,
                    );
                    &&& final(self).state(final(player)@, cursor) == m.state
                    &&& final(stack)@ == m.stack
                    &&& moved == m.moved
                }),
    {
        let ghost slots = self.slots@;
        let mut flag = false;
        let n: usize = if start < end {
            end - start
        } else {
            0
        };
        if max_stack(stack) > 1 {
            let mut k: usize = 0;
            while k < n && stack.count > 0
                invariant
                    self.wf(),
                    self.same_window(old(self)),
                    self.action == old(self).action,
                    player@.len() == old(player)@.len(),
                    player@.len() >= PLAYER_SLOTS,
                    slots == self.slots@,
                    k <= n,
                    n == (if start < end { end - start } else { 0 }),
                    start < end ==> end <= slots.len(),
                    stack.id == old(stack).id,
                    forall|cursor: Option<SlotItem>|
                        merge_top_up(
                            slots,
                            Merged {
                                state: #[trigger] old(self).state(old(player)@, cursor),
                                stack: old(stack)@,
                                moved: false,
                            },
                            start as int,
                            end as int,
                            reverse,
                            0,
                        ) == merge_top_up(
                            slots,
                            Merged {
                                state: self.state(player@, cursor),
                                stack: stack@,
                                moved: flag,
                            },
                            start as int,
                            end as int,
                            reverse,
                            k as int,
                        ),
                decreases n - k,
            {
                let i: usize = if reverse {
                    end - 1 - k
                } else {
                    start + k
                };
                if let Some(have) = self.get(i, player) {
                    if stackable(&have, stack) {
                        let sum: u16 = have.count as u16 + stack.count as u16;
                        let cap: u16 = max_stack(stack) as u16;
                        if sum <= cap {
                            stack.count = 0;
                            self.set(i, player, Some(have.with_count(sum as u8)));
                            flag = true;
                        } else if (have.count as u16) < cap {
                            stack.count = stack.count - (cap - have.count as u16) as u8;
                            self.set(i, player, Some(have.with_count(cap as u8)));
                            flag = true;
                        }
                    }
                }
                k += 1;
            }
        }
        let ghost mid = *self;
        let ghost player_mid = player@;
        let ghost stack_mid = stack@;
        let ghost flag_mid = flag;
        if stack.count > 0 {
            let mut k: usize = 0;
            let mut placed = false;
            while k < n && !placed
                invariant
                    self.wf(),
                    self.same_window(old(self)),
                    self.action == old(self).action,
                    player@.len() == old(player)@.len(),
                    player@.len() >= PLAYER_SLOTS,
                    slots == self.slots@,
                    k <= n,
                    n == (if start < end { end - start } else { 0 }),
                    start < end ==> end <= slots.len(),
                    !placed ==> *self == mid && player@ == player_mid && stack@ == stack_mid
                        && flag == flag_mid,
                    forall|cursor: Option<SlotItem>|
                        merge_place(
                            slots,
                            Merged {
                                state: #[trigger] mid.state(player_mid, cursor),
                                stack: stack_mid,
                                moved: flag_mid,
                            },
                            start as int,
                            end as int,
                            reverse,
                            0,
                        ) == if placed {
                            Merged { state: self.state(player@, cursor), stack: stack@, moved: flag }
                        } else {
                            merge_place(
                                slots,
                                Merged {
                                    state: mid.state(player_mid, cursor),
                                    stack: stack_mid,
                                    moved: flag_mid,
                                },
                                start as int,
                                end as int,
                                reverse,
                                k as int,
                            )
                        },
                decreases n - k,
            {
                let i: usize = if reverse {
                    end - 1 - k
                } else {
                    start + k
                };
                if self.get(i, player).is_none() && self.slots[i].is_item_valid() {
                    let limit = self.slots[i].stack_limit();
                    let put: u8 = if stack.count < limit {
                        stack.count
                    } else {
                        limit
                    };
                    self.set(i, player, Some(stack.with_count(put)));
                    stack.count = stack.count - put;
                    flag = true;
                    placed = true;
                }
                k += 1;
            }
        }
        flag
    }
}

/// Every slot of the window has a place behind it in this state.
pub open spec fn backed(slots: Seq<Slot>, st: WindowState) -> bool {
    forall|s: int|
        0 <= s < slots.len() ==> back_in_range(
            (#[trigger] slots[s]).back,
            st.inv.len() as int,
            st.player.len() as int,
        )
}

/// A merge only shrinks the stack it takes from, and keeps what it is and the
/// sizes of the inventories.
pub proof fn lemma_top_up_shrinks(
    slots: Seq<Slot>,
    m: Merged,
    start: int,
    end: int,
    reverse: bool,
    k: int,
)
    requires
        m.stack.count >= 0,
    ensures
        ({
            let r = merge_top_up(slots, m, start, end, reverse, k);
            &&& 0 <= r.stack.count <= m.stack.count
            &&& r.stack == m.stack.with_count(r.stack.count)
            &&& r.state.inv.len() == m.state.inv.len()
            &&& r.state.player.len() == m.state.player.len()
            &&& r.moved == (m.moved || r.stack.count < m.stack.count)
            &&& !r.moved ==> r.state == m.state
        }),
    decreases end - start - k,
{
    if k < end - start && m.stack.count != 0 {
        let i = visited(start, end, reverse, k);
        let cap = spec_max_stack(m.stack);
        match m.state.read(slots, i) {
            Some(have) => {
                if spec_stackable(have, m.stack) && have.count + m.stack.count <= cap {
                    let next = Merged {
                        state: m.state.write(
                            slots,
                            i,
                            Some(have.with_count(have.count + m.stack.count)),
                        ),
                        stack: m.stack.with_count(0),
                        moved: true,
                    };
                    lemma_top_up_shrinks(slots, next, start, end, reverse, k + 1);
                } else if spec_stackable(have, m.stack) && have.count < cap {
                    let next = Merged {
                        state: m.state.write(slots, i, Some(have.with_count(cap))),
                        stack: m.stack.with_count(m.stack.count - (cap - have.count)),
                        moved: true,
                    };
                    lemma_top_up_shrinks(slots, next, start, end, reverse, k + 1);
                } else {
                    lemma_top_up_shrinks(slots, m, start, end, reverse, k + 1);
                }
            },
            None => {
                lemma_top_up_shrinks(slots, m, start, end, reverse, k + 1);
            },
        }
    }
}

pub proof fn lemma_place_shrinks(
    slots: Seq<Slot>,
    m: Merged,
    start: int,
    end: int,
    reverse: bool,
    k: int,
)
    requires
        m.stack.count > 0,
        backed(slots, m.state),
        start < end ==> 0 <= start && end <= slots.len(),
        k >= 0,
    ensures
        ({
            let r = merge_place(slots, m, start, end, reverse, k);
            &&& 0 <= r.stack.count <= m.stack.count
            &&& r.stack == m.stack.with_count(r.stack.count)
            &&& r.state.inv.len() == m.state.inv.len()
            &&& r.state.player.len() == m.state.player.len()
            &&& r.moved == (m.moved || r.stack.count < m.stack.count)
            &&& !r.moved ==> r.state == m.state
        }),
    decreases end - start - k,
{
    if k < end - start {
        let i = visited(start, end, reverse, k);
        assert(back_in_range(
            slots[i].back,
            m.state.inv.len() as int,
            m.state.player.len() as int,
        ));
        lemma_place_shrinks(slots, m, start, end, reverse, k + 1);
    }
}

/// A merge moves something exactly when the stack shrinks.
pub proof fn lemma_merge_shrinks(
    slots: Seq<Slot>,
    state: WindowState,
    stack: ItemModel,
    start: int,
    end: int,
    reverse: bool,
)
    requires
        stack.count >= 0,
        backed(slots, state),
        start < end ==> 0 <= start && end <= slots.len(),
    ensures
        ({
            let r = merge_spec(slots, state, stack, start, end, reverse);
            &&& 0 <= r.stack.count <= stack.count
            &&& r.stack == stack.with_count(r.stack.count)
            &&& r.state.inv.len() == state.inv.len()
            &&& r.state.player.len() == state.player.len()
            &&& r.moved == (r.stack.count < stack.count)
            &&& !r.moved ==> r.state == state
        }),
{
    let m0 = Merged { state, stack, moved: false };
    lemma_top_up_shrinks(slots, m0, start, end, reverse, 0);
    let m1 = if spec_max_stack(stack) > 1 {
        merge_top_up(slots, m0, start, end, reverse, 0)
    } else {
        m0
    };
    if m1.stack.count > 0 {
        lemma_place_shrinks(slots, m1, start, end, reverse, 0);
    }
}

/// A transfer that reports a moved stack leaves fewer items in its slot; one
/// that reports nothing changes nothing.
pub proof fn lemma_transfer_shrinks(
    kind: WindowKind,
    slots: Seq<Slot>,
    own: int,
    st: WindowState,
    s: int,
)
    requires
        0 <= s < slots.len(),
        backed(slots, st),
        own >= 0,
        kind == WindowKind::Player ==> slots.len() == PLAYER_SLOTS,
        st.read(slots, s) is Some ==> st.read(slots, s)->0.count >= 0,
    ensures
        ({
            let (next, moved) = transfer_spec(kind, slots, own, st, s);
            &&& moved is Some ==> count_at(slots, next, s) < count_at(slots, st, s)
            &&& moved is None ==> next == st
            &&& next.inv.len() == st.inv.len()
            &&& next.player.len() == st.player.len()
        }),
{
    match st.read(slots, s) {
        Some(original) => {
            match transfer_range(kind, own, slots.len() as int, s) {
                Some((start, end, reverse)) => {
                    lemma_merge_shrinks(slots, st, original, start, end, reverse);
                },
                None => {},
            }
        },
        None => {},
    }
}

impl Container {
    /// Shift-click transfer of the player window: craft and armor to main and
    /// hotbar, main to hotbar, hotbar to main.
    pub fn transfer_player(
        &mut self,
        s: usize,
        stack: &mut SlotItem,
        player: &mut Vec<Option<SlotItem>>,
    ) -> (moved: bool)
        requires
            old(self).wf(),
            old(self).kind == WindowKind::Player,
            old(player)@.len() >= PLAYER_SLOTS,
        ensures
            final(self).wf(),
            final(self).same_window(old(self)),
            final(self).action == old(self).action,
            final(player)@.len() == old(player)@.len(),
            forall|cursor: Option<SlotItem>|
                ({
                    let st = #[trigger] old(self).state(old(player)@, cursor);
                    match transfer_range(WindowKind::Player, 0, 45, s as int) {
                        Some((start, end, reverse)) => {
                            let m = merge_spec(
                                old(self).slots@,
                                st,
                                old(stack)@,
                                start,
                                end,
                                reverse,
                            );
                            &&& final(self).state(final(player)@, cursor) == m.state
                            &&& final(stack)@ == m.stack
                            &&& moved == m.moved
                        },
                        None => {
                            &&& final(self).state(final(player)@, cursor) == st
                            &&& final(stack)@ == old(stack)@
                            &&& !moved
                        },
                    }
                }),
    {
        match s {
            0..=8 => self.merge(stack, 9, 45, false, player),
            9..=35 => self.merge(stack, 36, 45, false, player),
            36..=44 => self.merge(stack, 9, 36, false, player),
            _ => false,
        }
    }

    /// Shift-click transfer: moves the stack in window slot `s` to the opposite
    /// region. Returns a copy of the stack as it was, or nothing if none moved.
    pub fn transfer_stack_in_slot(
        &mut self,
        s: usize,
        player: &mut Vec<Option<SlotItem>>,
    ) -> (moved: Option<SlotItem>)
        requires
            old(self).wf(),
            s < old(self).slots@.len(),
            old(player)@.len() >= PLAYER_SLOTS,
        ensures
            final(self).wf(),
            final(self).same_window(old(self)),
            final(self).action == old(self).action,
            final(player)@.len() == old(player)@.len(),
            forall|cursor: Option<SlotItem>|
                transfer_spec(
                    old(self).kind,
                    old(self).slots@,
                    old(self).container_inv@.len() as int,
                    #[trigger] old(self).state(old(player)@, cursor),
                    s as int,
                ) == (final(self).state(final(player)@, cursor), stack_view(moved)),
    {
        let original = match self.get(s, player) {
            Some(item) => item,
            None => {
                assert(self.state(player@, None).read(self.slots@, s as int) is None);
                return None;
            },
        };
        let mut stack = original.clone();
        let own = self.container_size();
        let total = self.slots.len();
        let moved = match self.kind {
            WindowKind::Player => self.transfer_player(s, &mut stack, player),
            _ => {
                if s < own {
                    self.merge(&mut stack, own, total, true, player)
                } else {
                    self.merge(&mut stack, 0, own, false, player)
                }
            },
        };
        if !moved {
            return None;
        }
        let left = stack.count;
        self.set(s, player, stack.remaining(left));
        if left == original.count {
            return None;
        }
        Some(original)
    }
}

impl Container {
    /// A shift-click on slot `s`, repeated while the slot still holds the item.
    pub fn click_shift(&mut self, s: usize, player: &mut Vec<Option<SlotItem>>) -> (moved: Option<
        SlotItem,
    >)
        requires
            old(self).wf(),
            s < old(self).slots@.len(),
            old(player)@.len() >= PLAYER_SLOTS,
        ensures
            final(self).wf(),
            final(self).same_window(old(self)),
            final(self).action == old(self).action,
            final(player)@.len() == old(player)@.len(),
            forall|cursor: Option<SlotItem>|
                shift_spec(
                    old(self).kind,
                    old(self).slots@,
                    old(self).container_inv@.len() as int,
                    #[trigger] old(self).state(old(player)@, cursor),
                    s as int,
                ) == (final(self).state(final(player)@, cursor), stack_view(moved)),
    {
        let ghost kind = self.kind;
        let ghost slots = self.slots@;
        let ghost own = self.container_inv@.len() as int;
        let moved = self.transfer_stack_in_slot(s, player);
        if let Some(m) = &moved {
            let ghost first = *self;
            let ghost player_first = player@;
            let mut going = true;
            while going
                invariant
                    self.wf(),
                    self.same_window(old(self)),
                    self.action == old(self).action,
                    player@.len() == old(player)@.len(),
                    player@.len() >= PLAYER_SLOTS,
                    s < slots.len(),
                    slots == self.slots@,
                    kind == self.kind,
                    own == self.container_inv@.len(),
                    forall|cursor: Option<SlotItem>|
                        transfer_rest(
                            kind,
                            slots,
                            own,
                            #[trigger] first.state(player_first, cursor),
                            s as int,
                            m.id as int,
                        ) == if going {
                            transfer_rest(
                                kind,
                                slots,
                                own,
                                self.state(player@, cursor),
                                s as int,
                                m.id as int,
                            )
                        } else {
                            self.state(player@, cursor)
                        },
                decreases (if going { 1int } else { 0int }) + count_at(
                    slots,
                    self.state(player@, None),
                    s as int,
                ),
            {
                let ghost before = *self;
                let ghost player_before = player@;
                match self.get(s, player) {
                    Some(now) => {
                        if now.id != m.id {
                            going = false;
                        } else {
                            proof {
                                lemma_transfer_shrinks(
                                    kind,
                                    slots,
                                    own,
                                    self.state(player@, None),
                                    s as int,
                                );
                            }
                            let step = self.transfer_stack_in_slot(s, player);
                            if step.is_none() {
                                going = false;
                            }
                            proof {
                                let b = before.state(player_before, None);
                                let a = self.state(player@, None);
                                assert(transfer_spec(kind, slots, own, b, s as int) == (
                                    a,
                                    stack_view(step),
                                ));
                                assert forall|cursor: Option<SlotItem>| true implies count_at(
                                    slots,
                                    #[trigger] before.state(player_before, cursor),
                                    s as int,
                                ) == count_at(slots, b, s as int) by {}
                                assert forall|cursor: Option<SlotItem>| true implies count_at(
                                    slots,
                                    #[trigger] self.state(player@, cursor),
                                    s as int,
                                ) == count_at(slots, a, s as int) by {}
                            }
                        }
                    },
                    None => {
                        going = false;
                    },
                }
            }
        }
        moved
    }

    /// A plain click on slot `s`: pick up, place, swap or merge. Returns a copy of
    /// the clicked stack.
    pub fn click_pick_place(
        &mut self,
        s: usize,
        button: i8,
        player: &mut Vec<Option<SlotItem>>,
        cursor: &mut Option<SlotItem>,
    ) -> (clicked: Option<SlotItem>)
        requires
            old(self).wf(),
            old(self).drag_event == 0,
            s < old(self).slots@.len(),
            s <= i16::MAX,
            button == 0 || button == 1,
            old(player)@.len() >= PLAYER_SLOTS,
            click_defined(
                old(self).slots@,
                old(self).state(old(player)@, *old(cursor)),
                s as i16,
                button,
                0,
            ),
        ensures
            final(self).wf(),
            final(self).same_window(old(self)),
            final(self).action == old(self).action,
            final(player)@.len() == old(player)@.len(),
            final(self).state(final(player)@, *final(cursor)) == pick_place_spec(
                old(self).slots@,
                old(self).state(old(player)@, *old(cursor)),
                s as int,
                button as int,
            ),
            stack_view(clicked) == old(self).state(old(player)@, *old(cursor)).read(
                old(self).slots@,
                s as int,
            ),
    {
        let ghost st = self.state(player@, *cursor);
        let ghost slots = self.slots@;
        let slot_stack = self.get(s, player);
        assert(stack_view(slot_stack) == st.read(slots, s as int));
        let held = copy_stack(cursor);
        let slot = self.slots[s];
        match (&held, &slot_stack) {
            (Some(cur), None) => {
                if slot.is_item_valid() {
                    let wanted: u8 = if button == 0 {
                        cur.count
                    } else {
                        1
                    };
                    let limit = slot.stack_limit();
                    let take: u8 = if wanted < limit {
                        wanted
                    } else {
                        limit
                    };
                    self.set(s, player, Some(cur.with_count(take)));
                    *cursor = cur.remaining(cur.count - take);
                }
            },
            (None, Some(ss)) => {
                let take: u8 = if button == 0 {
                    ss.count
                } else {
                    ss.count / 2 + ss.count % 2
                };
                *cursor = Some(ss.with_count(take));
                self.set(s, player, ss.remaining(ss.count - take));
            },
            (Some(cur), Some(ss)) => {
                if slot.is_item_valid() {
                    if stackable(cur, ss) {
                        let limit = slot.stack_limit();
                        let most = max_stack(cur);
                        let cap: u8 = if limit < most {
                            limit
                        } else {
                            most
                        };
                        let space: u8 = if ss.count < cap {
                            cap - ss.count
                        } else {
                            0
                        };
                        let wanted: u8 = if button == 0 {
                            cur.count
                        } else {
                            1
                        };
                        let put: u8 = if wanted < space {
                            wanted
                        } else {
                            space
                        };
                        assert(put == added_count(slot, cur@, ss@.count, button as int));
                        if put > 0 {
                            self.set(s, player, Some(ss.with_count(ss.count + put)));
                            *cursor = cur.remaining(cur.count - put);
                        }
                    } else if cur.count <= slot.stack_limit() {
                        self.set(s, player, Some(cur.clone()));
                        *cursor = Some(ss.clone());
                    }
                } else if stackable(cur, ss) && max_stack(cur) > 1 && ss.count as u16
                    + cur.count as u16 <= max_stack(cur) as u16 {
                    *cursor = Some(cur.with_count(cur.count + ss.count));
                    self.set(s, player, None);
                }
            },
            (None, None) => {},
        }
        slot_stack
    }

    /// A number key over slot `s`: exchange with hotbar place `hotbar`.
    pub fn click_hotbar_swap(
        &mut self,
        s: usize,
        hotbar: usize,
        player: &mut Vec<Option<SlotItem>>,
    )
        requires
            old(self).wf(),
            s < old(self).slots@.len(),
            hotbar < 9,
            old(player)@.len() >= PLAYER_SLOTS,
        ensures
            final(self).wf(),
            final(self).same_window(old(self)),
            final(self).action == old(self).action,
            final(player)@.len() == old(player)@.len(),
            forall|cursor: Option<SlotItem>|
                (#[trigger] final(self).state(final(player)@, cursor)) == hotbar_swap_spec(
                    old(self).slots@,
                    old(self).state(old(player)@, cursor),
                    s as int,
                    hotbar as int,
                ),
    {
        let ghost slots = self.slots@;
        let place: usize = 36 + hotbar;
        let ghost back = SlotBack::Player(place);
        let slot = self.slots[s];
        let slot_stack = self.get(s, player);
        let hot = copy_stack(&player[place]);
        let into_slot_ok = hot.is_none() || (slot.is_player() && slot.is_item_valid());
        let ghost st = self.state(player@, None);
        assert(st.at(back) == stack_view(hot));
        if slot_stack.is_some() {
            if into_slot_ok {
                let ghost value = stack_view(slot_stack);
                player.set(place, slot_stack);
                assert(inventory_view(player@) =~= inventory_view(old(player)@).update(
                    place as int,
                    value,
                ));
                self.set(s, player, hot);
            }
        } else if hot.is_some() {
            if slot.is_item_valid() {
                player.set(place, None);
                assert(inventory_view(player@) =~= inventory_view(old(player)@).update(
                    place as int,
                    None,
                ));
                self.set(s, player, hot);
            }
        }
    }

    /// A drop from slot `s`: one item with button 0, the stack otherwise.
    pub fn click_drop(&mut self, s: usize, button: i8, player: &mut Vec<Option<SlotItem>>)
        requires
            old(self).wf(),
            s < old(self).slots@.len(),
            old(player)@.len() >= PLAYER_SLOTS,
            button == 0 ==> (old(self).state(old(player)@, None).read(
                old(self).slots@,
                s as int,
            ) matches Some(ss) ==> ss.count > 0),
        ensures
            final(self).wf(),
            final(self).same_window(old(self)),
            final(self).action == old(self).action,
            final(player)@.len() == old(player)@.len(),
            forall|cursor: Option<SlotItem>|
                (#[trigger] final(self).state(final(player)@, cursor)) == drop_spec(
                    old(self).slots@,
                    old(self).state(old(player)@, cursor),
                    s as int,
                    button as int,
                ),
    {
        if let Some(ss) = self.get(s, player) {
            assert(self.state(player@, None).read(self.slots@, s as int) == Some(ss@));
            if button == 0 {
                let left: u8 = ss.count - 1;
                self.set(s, player, ss.remaining(left));
            } else {
                self.set(s, player, None);
            }
        }
    }

    /// One sweep of a double-click collect.
    pub fn collect_once(
        &mut self,
        cur: &mut SlotItem,
        partial_only: bool,
        backwards: bool,
        player: &mut Vec<Option<SlotItem>>,
    )
        requires
            old(self).wf(),
            old(player)@.len() >= PLAYER_SLOTS,
        ensures
            final(self).wf(),
            final(self).same_window(old(self)),
            final(self).action == old(self).action,
            final(player)@.len() == old(player)@.len(),
            forall|cursor: Option<SlotItem>|
                collect_sweep(
                    old(self).slots@,
                    #[trigger] old(self).state(old(player)@, cursor),
                    old(cur)@,
                    partial_only,
                    backwards,
                    0,
                ) == (final(self).state(final(player)@, cursor), final(cur)@),
    {
        let ghost slots = self.slots@;
        let len = self.slots.len();
        let mut i: usize = 0;
        while i < len && cur.count < max_stack(cur)
            invariant
                self.wf(),
                self.same_window(old(self)),
                self.action == old(self).action,
                player@.len() == old(player)@.len(),
                player@.len() >= PLAYER_SLOTS,
                slots == self.slots@,
                len == slots.len(),
                i <= len,
                forall|cursor: Option<SlotItem>|
                    collect_sweep(
                        slots,
                        #[trigger] old(self).state(old(player)@, cursor),
                        old(cur)@,
                        partial_only,
                        backwards,
                        0,
                    ) == collect_sweep(
                        slots,
                        self.state(player@, cursor),
                        cur@,
                        partial_only,
                        backwards,
                        i as int,
                    ),
            decreases len - i,
        {
            let idx: usize = if backwards {
                len - 1 - i
            } else {
                i
            };
            if let Some(other) = self.get(idx, player) {
                if stackable(&other, cur) && (!partial_only || other.count != max_stack(&other)) {
                    let room: u8 = max_stack(cur) - cur.count;
                    let take: u8 = if room < other.count {
                        room
                    } else {
                        other.count
                    };
                    cur.count = cur.count + take;
                    self.set(idx, player, other.remaining(other.count - take));
                }
            }
            i += 1;
        }
    }

    /// A double-click on slot `s`: collect matching items onto the cursor.
    pub fn click_collect(
        &mut self,
        s: usize,
        button: i8,
        player: &mut Vec<Option<SlotItem>>,
        cursor: &mut Option<SlotItem>,
    )
        requires
            old(self).wf(),
            s < old(self).slots@.len(),
            old(player)@.len() >= PLAYER_SLOTS,
        ensures
            final(self).wf(),
            final(self).same_window(old(self)),
            final(self).action == old(self).action,
            final(player)@.len() == old(player)@.len(),
            final(self).state(final(player)@, *final(cursor)) == collect_spec(
                old(self).slots@,
                old(self).state(old(player)@, *old(cursor)),
                s as int,
                button as int,
            ),
    {
        let ghost held = *cursor;
        let ghost st = self.state(player@, held);
        let slot_stack = self.get(s, player);
        assert(stack_view(slot_stack) == st.read(self.slots@, s as int));
        let carried_now = copy_stack(cursor);
        if let Some(mut cur) = carried_now {
            if slot_stack.is_none() {
                self.collect_once(&mut cur, true, button != 0, player);
                let ghost st1 = self.state(player@, held);
                self.collect_once(&mut cur, false, button != 0, player);
                let ghost st2 = self.state(player@, held);
                *cursor = Some(cur);
                assert(self.state(player@, *cursor) == st2.with_cursor(stack_view(*cursor)));
            }
        }
    }
}

/// Whether a list of slot indices holds `s`.
pub fn contains_index(list: &Vec<usize>, s: usize) -> (found: bool)
    ensures
        found == list@.contains(s),
{
    let mut i: usize = 0;
    while i < list.len()
        invariant
            i <= list.len(),
            forall|j: int| 0 <= j < i ==> list@[j] != s,
        decreases list.len() - i,
    {
        if list[i] == s {
            return true;
        }
        i += 1;
    }
    false
}

impl Container {
    /// The end of a drag: deposit into the painted slots and forget them.
    pub fn drag_end(&mut self, player: &mut Vec<Option<SlotItem>>, cursor: &mut Option<SlotItem>)
        requires
            old(self).wf(),
            old(player)@.len() >= PLAYER_SLOTS,
        ensures
            final(self).wf(),
            final(self).same_window(old(self)),
            final(self).action == old(self).action,
            final(player)@.len() == old(player)@.len(),
            final(self).state(final(player)@, *final(cursor)) == drag_end_spec(
                old(self).slots@,
                old(self).state(old(player)@, *old(cursor)),
            ),
    {
        let ghost st = self.state(player@, *cursor);
        let ghost held = *cursor;
        let ghost slots = self.slots@;
        let ghost painted = self.drag_slots@;
        let n = self.drag_slots.len();
        let carrying = copy_stack(cursor);
        if n > 0 {
            if let Some(c) = carrying {
                let mut remaining: i32 = c.count as i32;
                let mut k: usize = 0;
                while k < n
                    invariant
                        self.wf(),
                        self.same_window(old(self)),
                        self.action == old(self).action,
                        self.drag_slots@ == painted,
                        self.drag_mode == old(self).drag_mode,
                        player@.len() == old(player)@.len(),
                        player@.len() >= PLAYER_SLOTS,
                        slots == self.slots@,
                        n == painted.len(),
                        k <= n,
                        n > c.count ==> remaining == c.count,
                        n <= c.count ==> -255 * k <= remaining - c.count <= 255 * k,
                        drag_deposit(slots, st, c@, painted, 0, c@.count) == drag_deposit(
                            slots,
                            self.state(player@, held),
                            c@,
                            painted,
                            k as int,
                            remaining as int,
                        ),
                    decreases n - k,
                {
                    let s = self.drag_slots[k];
                    assert(self.drag_slots@[k as int] < slots.len());
                    let existing = self.get(s, player);
                    assert(stack_view(existing) == self.state(player@, held).read(
                        slots,
                        s as int,
                    ));
                    let slot = self.slots[s];
                    if can_add_to_slot(&existing, &c) && slot.is_item_valid() && c.count as usize
                        >= n {
                        let have: i32 = match &existing {
                            Some(e) => e.count as i32,
                            None => 0,
                        };
                        let per = compute_drag_amount(self.drag_mode, &c, n);
                        let most = max_stack(&c);
                        let room = slot.stack_limit();
                        let limit: i32 = if most < room {
                            most as i32
                        } else {
                            room as i32
                        };
                        let total: i32 = if per + have < limit {
                            per + have
                        } else {
                            limit
                        };
                        remaining = remaining - (total - have);
                        self.set(s, player, Some(c.with_count(total as u8)));
                    }
                    k += 1;
                }
                assert(n <= c.count ==> remaining <= 255 * 256) by (nonlinear_arith)
                    requires
                        n <= c.count ==> remaining - c.count <= 255 * n,
                        c.count <= 255,
                ;
                *cursor = if remaining > 0 {
                    assert(remaining as u8 == remaining % 256) by (bit_vector)
                        requires
                            remaining > 0,
                    ;
                    Some(c.with_count(remaining as u8))
                } else {
                    None
                };
                assert(stack_view(*cursor) == carried(c@, remaining as int));
            }
        }
        self.reset_drag();
    }

    /// One step of a paint-drag.
    pub fn click_drag(
        &mut self,
        slot_id: i16,
        button: i8,
        player: &mut Vec<Option<SlotItem>>,
        cursor: &mut Option<SlotItem>,
        creative: bool,
    )
        requires
            old(self).wf(),
            old(player)@.len() >= PLAYER_SLOTS,
        ensures
            final(self).wf(),
            final(self).same_window(old(self)),
            final(self).action == old(self).action,
            final(player)@.len() == old(player)@.len(),
            final(self).state(final(player)@, *final(cursor)) == drag_spec(
                old(self).slots@,
                old(self).state(old(player)@, *old(cursor)),
                slot_id as int,
                button,
                creative,
            ),
    {
        let prev = self.drag_event;
        let event: i32 = (button & 3) as i32;
        self.drag_event = event;
        assert(self.state(player@, *cursor) == (WindowState {
            drag_event: event as int,
            ..old(self).state(old(player)@, *cursor)
        }));
        if (prev != 1 || event != 2) && prev != event {
            self.reset_drag();
        } else if cursor.is_none() {
            self.reset_drag();
        } else if event == 0 {
            self.drag_mode = ((button >> 2) & 3) as i32;
            if is_valid_drag_mode(self.drag_mode, creative) {
                self.drag_event = 1;
                self.drag_slots.clear();
            } else {
                self.reset_drag();
            }
        } else if event == 1 {
            if slot_id >= 0 && (slot_id as usize) < self.slots.len() {
                let s = slot_id as usize;
                let ghost now = self.state(player@, *cursor);
                let existing = self.get(s, player);
                assert(stack_view(existing) == now.read(self.slots@, s as int));
                if let Some(c) = &*cursor {
                    if can_add_to_slot(&existing, c) && self.slots[s].is_item_valid()
                        && c.count as usize > self.drag_slots.len() && !contains_index(
                        &self.drag_slots,
                        s,
                    ) {
                        self.drag_slots.push(s);
                    }
                }
            }
        } else if event == 2 {
            self.drag_end(player, cursor);
        } else {
            self.reset_drag();
        }
    }

    /// A click on the window. Returns the stack snapshot that the click packet
    /// carries.
    pub fn slot_click(
        &mut self,
        slot_id: i16,
        button: i8,
        mode: i8,
        player: &mut Vec<Option<SlotItem>>,
        cursor: &mut Option<SlotItem>,
        creative: bool,
    ) -> (clicked: Option<SlotItem>)
        requires
            old(self).wf(),
            old(player)@.len() >= PLAYER_SLOTS,
            click_defined(
                old(self).slots@,
                old(self).state(old(player)@, *old(cursor)),
                slot_id,
                button,
                mode,
            ),
        ensures
            final(self).wf(),
            final(self).same_window(old(self)),
            final(self).action == old(self).action,
            final(player)@.len() == old(player)@.len(),
            slot_click_spec(
                old(self).kind,
                old(self).slots@,
                old(self).state(old(player)@, *old(cursor)),
                slot_id,
                button,
                mode,
                creative,
            ) == (final(self).state(final(player)@, *final(cursor)), stack_view(clicked)),
    {
        let ghost st = self.state(player@, *cursor);
        let inside = slot_id >= 0 && (slot_id as usize) < self.slots.len();
        if mode == 5 {
            self.click_drag(slot_id, button, player, cursor, creative);
        } else if self.drag_event != 0 {
            self.reset_drag();
        } else if (mode == 0 || mode == 1) && (button == 0 || button == 1) {
            if slot_id == OUTSIDE {
                let held = copy_stack(cursor);
                if let Some(c) = held {
                    if button == 0 {
                        *cursor = None;
                    } else {
                        *cursor = c.remaining(c.count - 1);
                    }
                }
                assert(self.state(player@, *cursor) == drop_cursor_spec(st, button as int));
            } else if !inside {
            } else if mode == 1 {
                return self.click_shift(slot_id as usize, player);
            } else {
                return self.click_pick_place(slot_id as usize, button, player, cursor);
            }
        } else if mode == 2 && 0 <= button && button < 9 {
            if inside {
                self.click_hotbar_swap(slot_id as usize, button as usize, player);
            }
        } else if mode == 3 && creative && cursor.is_none() && slot_id >= 0 {
            if inside {
                if let Some(ss) = self.get(slot_id as usize, player) {
                    assert(st.read(self.slots@, slot_id as int) == Some(ss@));
                    *cursor = Some(ss.with_count(max_stack(&ss)));
                }
                assert(self.state(player@, *cursor) == clone_spec(
                    self.slots@,
                    st,
                    slot_id as int,
                ));
            }
        } else if mode == 4 && cursor.is_none() && slot_id >= 0 {
            if inside {
                assert(st == self.state(player@, None));
                self.click_drop(slot_id as usize, button, player);
            }
        } else if mode == 6 && inside {
            self.click_collect(slot_id as usize, button, player, cursor);
        }
        None
    }

    /// The next click number; it wraps at the end of its range.
    pub fn next_action(&mut self) -> (action: i16)
        requires
            old(self).wf(),
        ensures
            final(self).wf(),
            final(self).same_window(old(self)),
            action == spec_next_action(old(self).action),
            final(self).action == action,
            forall|player: Seq<Option<SlotItem>>, cursor: Option<SlotItem>|
                (#[trigger] final(self).state(player, cursor)) == old(self).state(player, cursor),
    {
        self.action = self.action.wrapping_add(1);
        self.action
    }

    /// A click, run locally and reported: returns the packet to send. `slot_id` is
    /// a window slot index, or [`OUTSIDE`] for outside the window.
    pub fn window_click(
        &mut self,
        slot_id: i16,
        button: i8,
        mode: i8,
        player: &mut Vec<Option<SlotItem>>,
        cursor: &mut Option<SlotItem>,
        creative: bool,
    ) -> (packets: Vec<ServerboundPacket>)
        requires
            old(self).wf(),
            old(player)@.len() >= PLAYER_SLOTS,
            click_defined(
                old(self).slots@,
                old(self).state(old(player)@, *old(cursor)),
                slot_id,
                button,
                mode,
            ),
        ensures
            final(self).wf(),
            final(self).same_window(old(self)),
            final(self).action == spec_next_action(old(self).action),
            final(player)@.len() == old(player)@.len(),
            packets@.len() == 1,
            is_click_packet(
                packets@[0],
                old(self).window_id,
                slot_id,
                button,
                spec_next_action(old(self).action),
                mode,
                slot_click_spec(
                    old(self).kind,
                    old(self).slots@,
                    old(self).state(old(player)@, *old(cursor)),
                    slot_id,
                    button,
                    mode,
                    creative,
                ).1,
            ),
            final(self).state(final(player)@, *final(cursor)) == slot_click_spec(
                old(self).kind,
                old(self).slots@,
                old(self).state(old(player)@, *old(cursor)),
                slot_id,
                button,
                mode,
                creative,
            ).0,
    {
        let action_number = self.next_action();
        let clicked_item = self.slot_click(slot_id, button, mode, player, cursor, creative);
        let mut packets: Vec<ServerboundPacket> = Vec::new();
        packets.push(
            ServerboundPacket::ClickWindow {
                window_id: self.window_id,
                slot: slot_id,
                button,
                action_number,
                mode,
                clicked_item,
            },
        );
        packets
    }
}

/// The click number after `action`.
pub open spec fn spec_next_action(action: i16) -> i16 {
    if action == i16::MAX {
        i16::MIN
    } else {
        (action + 1) as i16
    }
}

/// The packet reports exactly this click.
pub open spec fn is_click_packet(
    packet: ServerboundPacket,
    window: u8,
    slot_id: i16,
    with_button: i8,
    number: i16,
    with_mode: i8,
    item: Option<ItemModel>,
) -> bool {
    packet matches ServerboundPacket::ClickWindow {
        window_id,
        slot,
        button,
        action_number,
        mode,
        clicked_item,
    } && window_id == window && slot == slot_id && button == with_button && action_number == number
        && mode == with_mode && stack_view(clicked_item) == item
}

} // verus!
