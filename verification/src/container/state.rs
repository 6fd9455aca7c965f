//! The state of an open window: its slots, and reading and writing the stacks
//! behind them.

use vstd::prelude::*;
use crate::container::trades::MerchantRecipe;
use crate::item::{copy_stack, inventory_view, stack_view, ItemModel, SlotItem};

verus! {

/// Slots of the shared player inventory: result, craft grid, armor, main, hotbar.
pub const PLAYER_SLOTS: usize = 45;

/// The backing place a window slot reads and writes: the container's own
/// inventory, or the shared player inventory.
#[derive(Debug, Clone, Copy, PartialEq, Eq, Structural)]
pub enum SlotBack {
    Container(usize),
    Player(usize),
}

/// What a slot accepts.
#[derive(Debug, Clone, Copy, PartialEq, Eq, Structural)]
pub enum SlotKind {
    /// Plain storage slot (any item, stacks to 64).
    Normal,
    /// Result slot: items cannot be placed into it.
    Output,
    /// Single-item slot (armor, enchant input, brewing bottle).
    Limit1,
}

/// One window slot: its backing place, GUI position (relative to the window
/// origin) and behaviour.
#[derive(Debug, Clone, Copy, PartialEq, Eq, Structural)]
pub struct Slot {
    pub back: SlotBack,
    pub x: i32,
    pub y: i32,
    pub kind: SlotKind,
}

impl Slot {
    pub open spec fn spec_item_valid(self) -> bool {
        self.kind != SlotKind::Output
    }

    pub open spec fn spec_limit(self) -> int {
        if self.kind == SlotKind::Limit1 {
            1
        } else {
            64
        }
    }

    pub open spec fn spec_is_player(self) -> bool {
        self.back is Player
    }

    /// Whether an item can be placed into the slot.
    pub fn is_item_valid(&self) -> (yes: bool)
        ensures
            yes == self.spec_item_valid(),
    {
        self.kind != SlotKind::Output
    }

    /// Whether the slot's stack can be taken: always, for the slots modelled.
    pub fn can_take(&self) -> (yes: bool)
        ensures
            yes,
    {
        true
    }

    /// How many items the slot holds at most.
    pub fn stack_limit(&self) -> (limit: u8)
        ensures
            limit == self.spec_limit(),
    {
        match self.kind {
            SlotKind::Limit1 => 1,
            _ => 64,
        }
    }

    /// Whether the slot shows a place of the player inventory.
    pub fn is_player(&self) -> (yes: bool)
        ensures
            yes == self.spec_is_player(),
    {
        matches!(self.back, SlotBack::Player(_))
    }
}

/// Container type: drives the layout and the shift-click ranges.
#[derive(Clone, Copy, PartialEq, Eq, Debug, Structural)]
pub enum WindowKind {
    Player,
    Chest(u8),
    Dispenser,
    Hopper,
    Furnace,
    Crafting,
    Brewing,
    Enchant,
    Anvil,
    Beacon,
    Villager,
}

/// An open window: its slots, own inventory, drag state and transaction counter.
#[derive(Debug)]
pub struct Container {
    pub window_id: u8,
    pub kind: WindowKind,
    pub title: String,
    /// The container's own inventory (empty for the player window).
    pub container_inv: Vec<Option<SlotItem>>,
    pub slots: Vec<Slot>,
    /// Window properties (furnace cook/burn, brewing time, enchant levels and seed).
    pub properties: [i16; 8],
    /// Window size in GUI px.
    pub x_size: i32,
    pub y_size: i32,
    /// Drag progress: 0 idle, 1 collecting slots, 2 ending.
    pub drag_event: i32,
    /// Drag distribution: 0 even split, 1 one each, 2 fill.
    pub drag_mode: i32,
    /// Window slots painted so far, in the order they were reached.
    pub drag_slots: Vec<usize>,
    /// The number of the last click sent.
    pub action: i16,
    /// Villager trade offers; empty for other windows.
    pub trades: Vec<MerchantRecipe>,
    /// The selected trade.
    pub selected_trade: usize,
}

/// Everything a click reads or changes: the stacks behind the window, the
/// carried stack and the drag in progress.
#[verifier::ext_equal]
pub struct WindowState {
    pub inv: Seq<Option<ItemModel>>,
    pub player: Seq<Option<ItemModel>>,
    pub cursor: Option<ItemModel>,
    pub drag_event: int,
    pub drag_mode: int,
    pub drag_slots: Seq<usize>,
}

impl WindowState {
    /// The stack behind a backing place.
    pub open spec fn at(self, back: SlotBack) -> Option<ItemModel> {
        match back {
            SlotBack::Container(i) => if i < self.inv.len() {
                self.inv[i as int]
            } else {
                None
            },
            SlotBack::Player(i) => if i < self.player.len() {
                self.player[i as int]
            } else {
                None
            },
        }
    }

    /// The state with `item` behind a backing place.
    pub open spec fn put(self, back: SlotBack, item: Option<ItemModel>) -> WindowState {
        match back {
            SlotBack::Container(i) => WindowState { inv: self.inv.update(i as int, item), ..self },
            SlotBack::Player(i) => WindowState {
                player: self.player.update(i as int, item),
                ..self
            },
        }
    }

    /// The stack in window slot `s`.
    pub open spec fn read(self, slots: Seq<Slot>, s: int) -> Option<ItemModel> {
        self.at(slots[s].back)
    }

    /// The state with `item` in window slot `s`.
    pub open spec fn write(self, slots: Seq<Slot>, s: int, item: Option<ItemModel>) -> WindowState {
        self.put(slots[s].back, item)
    }

    pub open spec fn with_cursor(self, item: Option<ItemModel>) -> WindowState {
        WindowState { cursor: item, ..self }
    }

    /// The state with no drag in progress. The chosen distribution is kept.
    pub open spec fn drag_reset(self) -> WindowState {
        WindowState { drag_event: 0, drag_slots: Seq::empty(), ..self }
    }
}

/// The backing place exists in inventories of these sizes.
pub open spec fn back_in_range(back: SlotBack, inv_len: int, player_len: int) -> bool {
    match back {
        SlotBack::Container(i) => i < inv_len,
        SlotBack::Player(i) => i < player_len,
    }
}

/// The slot list of a window over a container inventory of `inv_len` places:
/// every slot has a place of its own, and the last 36 slots are the player's
/// main inventory and hotbar.
pub open spec fn slots_wf(slots: Seq<Slot>, inv_len: int) -> bool {
    &&& slots.len() >= 36
    &&& forall|s: int|
        0 <= s < slots.len() ==> back_in_range(
            (#[trigger] slots[s]).back,
            inv_len,
            PLAYER_SLOTS as int,
        )
    &&& forall|s: int, t: int|
        0 <= s < t < slots.len() ==> (#[trigger] slots[s]).back != (#[trigger] slots[t]).back
    &&& forall|k: int|
        slots.len() - 36 <= k < slots.len() ==> (#[trigger] slots[k]).back == SlotBack::Player(
            (k - slots.len() + PLAYER_SLOTS) as usize,
        )
}

impl Container {
    /// The invariant of an open window.
    pub open spec fn wf(&self) -> bool {
        &&& slots_wf(self.slots@, self.container_inv@.len() as int)
        &&& self.kind == WindowKind::Player ==> self.slots@.len() == PLAYER_SLOTS
        &&& forall|k: int|
            0 <= k < self.drag_slots@.len() ==> (#[trigger] self.drag_slots@[k]) < self.slots@.len()
        &&& self.drag_slots@.no_duplicates()
        &&& self.selected_trade < self.trades@.len() || self.selected_trade == 0
    }

    /// The state that clicks on this window work on.
    pub open spec fn state(
        &self,
        player: Seq<Option<SlotItem>>,
        cursor: Option<SlotItem>,
    ) -> WindowState {
        WindowState {
            inv: inventory_view(self.container_inv@),
            player: inventory_view(player),
            cursor: stack_view(cursor),
            drag_event: self.drag_event as int,
            drag_mode: self.drag_mode as int,
            drag_slots: self.drag_slots@,
        }
    }

    /// Two stages of the same window: nothing but stacks, the drag and the click
    /// number differs.
    pub open spec fn same_window(&self, other: &Container) -> bool {
        &&& self.window_id == other.window_id
        &&& self.kind == other.kind
        &&& self.title == other.title
        &&& self.slots == other.slots
        &&& self.properties == other.properties
        &&& self.x_size == other.x_size
        &&& self.y_size == other.y_size
        &&& self.trades == other.trades
        &&& self.selected_trade == other.selected_trade
        &&& self.container_inv@.len() == other.container_inv@.len()
    }

    /// Read a window slot.
    pub fn get(&self, slot: usize, player: &Vec<Option<SlotItem>>) -> (item: Option<SlotItem>)
        requires
            slot < self.slots@.len(),
        ensures
            forall|cursor: Option<SlotItem>|
                stack_view(item) == (#[trigger] self.state(player@, cursor)).read(
                    self.slots@,
                    slot as int,
                ),
    {
        match self.slots[slot].back {
            SlotBack::Container(i) => if i < self.container_inv.len() {
                copy_stack(&self.container_inv[i])
            } else {
                None
            },
            SlotBack::Player(i) => if i < player.len() {
                copy_stack(&player[i])
            } else {
                None
            },
        }
    }

    /// The stack shown in a window slot; nothing beyond the window's slots.
    pub fn slot_item(&self, slot: usize, player: &Vec<Option<SlotItem>>) -> (item: Option<SlotItem>)
        ensures
            slot >= self.slots@.len() ==> item is None,
            slot < self.slots@.len() ==> stack_view(item) == self.state(player@, None).read(
                self.slots@,
                slot as int,
            ),
    {
        if slot < self.slots.len() {
            self.get(slot, player)
        } else {
            None
        }
    }

    /// Write a window slot.
    pub fn set(&mut self, slot: usize, player: &mut Vec<Option<SlotItem>>, item: Option<SlotItem>)
        requires
            old(self).wf(),
            slot < old(self).slots@.len(),
            old(player)@.len() >= PLAYER_SLOTS,
        ensures
            final(self).wf(),
            final(self).same_window(old(self)),
            final(self).action == old(self).action,
            final(player)@.len() == old(player)@.len(),
            forall|cursor: Option<SlotItem>|
                (#[trigger] final(self).state(final(player)@, cursor)) == old(self).state(
                    old(player)@,
                    cursor,
                ).write(old(self).slots@, slot as int, stack_view(item)),
    {
        let ghost value = stack_view(item);
        assert(back_in_range(
            self.slots@[slot as int].back,
            self.container_inv@.len() as int,
            PLAYER_SLOTS as int,
        ));
        match self.slots[slot].back {
            SlotBack::Container(i) => {
                self.container_inv.set(i, item);
                assert(inventory_view(self.container_inv@) =~= inventory_view(
                    old(self).container_inv@,
                ).update(i as int, value));
            },
            SlotBack::Player(i) => {
                player.set(i, item);
                assert(inventory_view(player@) =~= inventory_view(old(player)@).update(
                    i as int,
                    value,
                ));
            },
        }
        assert forall|cursor: Option<SlotItem>|
            (#[trigger] self.state(player@, cursor)) == old(self).state(old(player)@, cursor).write(
                old(self).slots@,
                slot as int,
                value,
            ) by {
            assert(self.state(player@, cursor) =~= old(self).state(old(player)@, cursor).write(
                old(self).slots@,
                slot as int,
                value,
            ));
        }
    }
}

} // verus!
