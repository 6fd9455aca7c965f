//! What the server tells an open window: slot contents, properties and trade
//! offers.

use vstd::prelude::*;
use crate::container::state::{Container, Slot, WindowState, PLAYER_SLOTS};
use crate::container::trades::MerchantRecipe;
use crate::item::{inventory_view, stack_view, ItemModel, SlotItem};

verus! {

/// A slot count read as a 16-bit signed number.
pub open spec fn as_short(n: int) -> int {
    if n % 65536 < 32768 {
        n % 65536
    } else {
        n % 65536 - 65536
    }
}

/// The window after the stacks `items[k..]` are written to slots `k..`; stacks
/// beyond the window's slots are ignored.
pub open spec fn items_written(
    slots: Seq<Slot>,
    st: WindowState,
    items: Seq<Option<ItemModel>>,
    k: int,
) -> WindowState
    decreases items.len() - k,
{
    if k >= items.len() || k >= slots.len() {
        st
    } else {
        items_written(slots, st.write(slots, k, items[k]), items, k + 1)
    }
}

impl Container {
    /// The slots of the window, in order.
    pub fn slots(&self) -> (slots: &Vec<Slot>)
        ensures
            slots@ == self.slots@,
    {
        &self.slots
    }

    /// The villager trade offers.
    pub fn trades(&self) -> (trades: &Vec<MerchantRecipe>)
        ensures
            trades@ == self.trades@,
    {
        &self.trades
    }

    /// The currently selected trade index.
    pub fn selected_trade(&self) -> (index: usize)
        ensures
            index == self.selected_trade,
    {
        self.selected_trade
    }

    /// The offer to select among `n`: the one asked for, or the last.
    pub open spec fn offer_kept(index: usize, n: int) -> usize {
        if index < n {
            index
        } else if n == 0 {
            0
        } else {
            (n - 1) as usize
        }
    }

    /// Replace the trade offers, keeping the selection valid.
    pub fn set_trades(&mut self, trades: Vec<MerchantRecipe>)
        requires
            old(self).wf(),
        ensures
            final(self).wf(),
            *final(self) == (Container {
                trades,
                selected_trade: Container::offer_kept(
                    old(self).selected_trade,
                    trades@.len() as int,
                ),
                ..*old(self)
            }),
    {
        if self.selected_trade >= trades.len() {
            self.selected_trade = if trades.len() == 0 {
                0
            } else {
                trades.len() - 1
            };
        }
        self.trades = trades;
    }

    /// Select a trade, clamped to the available offers.
    pub fn set_selected_trade(&mut self, index: usize)
        requires
            old(self).wf(),
        ensures
            final(self).wf(),
            *final(self) == (Container {
                selected_trade: Container::offer_kept(index, old(self).trades@.len() as int),
                ..*old(self)
            }),
    {
        let last: usize = if self.trades.len() == 0 {
            0
        } else {
            self.trades.len() - 1
        };
        self.selected_trade = if index < last {
            index
        } else {
            last
        };
    }

    /// The contents of one slot of this window, as the server reports them.
    /// Slots are counted as 16-bit numbers; others are ignored.
    pub fn apply_set_slot(
        &mut self,
        slot: i16,
        item: Option<SlotItem>,
        player: &mut Vec<Option<SlotItem>>,
    )
        requires
            old(self).wf(),
            old(player)@.len() >= PLAYER_SLOTS,
        ensures
            final(self).wf(),
            final(self).same_window(old(self)),
            final(self).action == old(self).action,
            final(player)@.len() == old(player)@.len(),
            forall|cursor: Option<SlotItem>|
                (#[trigger] final(self).state(final(player)@, cursor)) == if 0 <= slot < as_short(
                    old(self).slots@.len() as int,
                ) {
                    old(self).state(old(player)@, cursor).write(
                        old(self).slots@,
                        slot as int,
                        stack_view(item),
                    )
                } else {
                    old(self).state(old(player)@, cursor)
                },
    {
        let n: usize = self.slots.len();
        let count: i16 = n as i16;
        assert(n % 65536 < 32768 ==> n as i16 == n % 65536) by (bit_vector);
        assert(n % 65536 >= 32768 ==> n as i16 == n % 65536 - 65536) by (bit_vector);
        if 0 <= slot && slot < count {
            self.set(slot as usize, player, item);
        }
    }

    /// The contents of the whole window, as the server reports them: the
    /// container's own slots first, then the player's.
    pub fn apply_window_items(
        &mut self,
        items: Vec<Option<SlotItem>>,
        player: &mut Vec<Option<SlotItem>>,
    )
        requires
            old(self).wf(),
            old(player)@.len() >= PLAYER_SLOTS,
        ensures
            final(self).wf(),
            final(self).same_window(old(self)),
            final(self).action == old(self).action,
            final(player)@.len() == old(player)@.len(),
            forall|cursor: Option<SlotItem>|
                items_written(
                    old(self).slots@,
                    #[trigger] old(self).state(old(player)@, cursor),
                    inventory_view(items@),
                    0,
                ) == final(self).state(final(player)@, cursor),
    {
        let ghost slots = self.slots@;
        let ghost values = inventory_view(items@);
        let mut i: usize = 0;
        while i < items.len() && i < self.slots.len()
            invariant
                self.wf(),
                self.same_window(old(self)),
                self.action == old(self).action,
                player@.len() == old(player)@.len(),
                player@.len() >= PLAYER_SLOTS,
                slots == self.slots@,
                i <= items.len(),
                values == inventory_view(items@),
                forall|cursor: Option<SlotItem>|
                    items_written(
                        slots,
                        #[trigger] old(self).state(old(player)@, cursor),
                        values,
                        0,
                    ) == items_written(slots, self.state(player@, cursor), values, i as int),
            decreases items.len() - i,
        {
            let item = crate::item::copy_stack(&items[i]);
            self.set(i, player, item);
            i += 1;
        }
    }

    /// A window property; ids beyond the known ones are ignored.
    pub fn set_property(&mut self, id: i16, value: i16)
        requires
            old(self).wf(),
        ensures
            final(self).wf(),
            final(self).properties@ == if 0 <= id < 8 {
                old(self).properties@.update(id as int, value)
            } else {
                old(self).properties@
            },
            *final(self) == (Container { properties: final(self).properties, ..*old(self) }),
    {
        if 0 <= id && id < 8 {
            self.properties[id as usize] = value;
        }
    }
}

} // verus!
