//! The player inventory, the open window and the carried stack, and what clicks
//! and the server do to them.

use vstd::prelude::*;
use crate::container::click::{click_defined, slot_click_spec, OUTSIDE};
use crate::container::engine::{is_click_packet, spec_next_action};
use crate::container::layout::{
    kind_of_type, own_slots, player_rows, player_window_slots, window_metrics,
};
use crate::container::state::{Container, WindowKind, WindowState, PLAYER_SLOTS};
use crate::container::trades::MerchantRecipe;
use crate::container::updates::{as_short, items_written};
use crate::item::{
    inventory_view, max_stack, spec_max_stack, spec_stackable, stack_view, stackable, ItemModel,
    SlotItem,
};
use crate::nbt::be_i32;
use crate::packets::ServerboundPacket;
use crate::text::copy_text;
use super::rules::{armor_points, spec_armor_points};

verus! {

/// The player inventory and the window over it.
#[derive(Debug)]
pub struct Windows {
    /// The 45 places of the player: craft output, craft grid, armor, main, hotbar.
    pub inventory: Vec<Option<SlotItem>>,
    /// The stack carried on the cursor.
    pub cursor_item: Option<SlotItem>,
    /// The open window, the player's own or one the server opened.
    pub open_container: Option<Container>,
    /// A paint-drag runs; it is reported when the button is released.
    pub drag_active: bool,
    /// 0 splits evenly, 1 gives one each, 2 fills.
    pub drag_button: i8,
    /// The window slots painted so far.
    pub drag_slots: Vec<i16>,
    /// The server opened a window that is not shown yet.
    pub window_open_pending: bool,
    /// The server closed the window that is still shown.
    pub window_close_pending: bool,
}

impl Windows {
    pub open spec fn wf(&self) -> bool {
        &&& self.inventory@.len() == PLAYER_SLOTS
        &&& self.open_container matches Some(c) ==> c.wf()
    }

    /// What clicks on the open window work on.
    pub open spec fn state(&self) -> WindowState {
        self.open_container->0.state(self.inventory@, self.cursor_item)
    }

    /// Nothing but stacks and the window's own drag differs.
    pub open spec fn same_screen(&self, other: &Windows) -> bool {
        &&& self.drag_active == other.drag_active
        &&& self.drag_button == other.drag_button
        &&& self.drag_slots == other.drag_slots
        &&& self.window_open_pending == other.window_open_pending
        &&& self.window_close_pending == other.window_close_pending
    }
}

/// `n` empty places.
fn empty_places(n: usize) -> (places: Vec<Option<SlotItem>>)
    ensures
        places@.len() == n,
        forall|i: int| 0 <= i < n ==> (#[trigger] places@[i]) is None,
{
    let mut places: Vec<Option<SlotItem>> = Vec::new();
    while places.len() < n
        invariant
            places@.len() <= n,
            forall|i: int| 0 <= i < places@.len() ==> (#[trigger] places@[i]) is None,
        decreases n - places@.len(),
    {
        places.push(None);
    }
    places
}

/// The first `PLAYER_SLOTS` of a list of stacks, with empty places for those it
/// lacks.
pub open spec fn fitted(items: Seq<Option<ItemModel>>) -> Seq<Option<ItemModel>> {
    Seq::new(
        PLAYER_SLOTS as nat,
        |i: int|
            if i < items.len() {
                items[i]
            } else {
                None
            },
    )
}

/// The clicks that report a drag: its start, the slots in order, its end. Each is
/// a slot and a button.
pub open spec fn drag_clicks(painted: Seq<i16>, base: i8) -> Seq<(i16, i8)> {
    seq![(OUTSIDE, base)] + Seq::new(painted.len(), |i: int| (painted[i], base | 1)) + seq![
        (OUTSIDE, base | 2),
    ]
}

/// The window after the first `n` of a list of drag clicks.
pub open spec fn after_clicks(
    kind: WindowKind,
    slots: Seq<crate::container::state::Slot>,
    st: WindowState,
    clicks: Seq<(i16, i8)>,
    creative: bool,
    n: int,
) -> WindowState
    decreases n,
{
    if n <= 0 {
        st
    } else {
        slot_click_spec(
            kind,
            slots,
            after_clicks(kind, slots, st, clicks, creative, n - 1),
            clicks[n - 1].0,
            clicks[n - 1].1,
            5,
            creative,
        ).0
    }
}

/// The click number after `n` more clicks.
pub open spec fn action_after(action: i16, n: int) -> i16
    decreases n,
{
    if n <= 0 {
        action
    } else {
        spec_next_action(action_after(action, n - 1))
    }
}

/// The open window was clicked: its stacks and the carried one change as the click
/// has it, and one packet reports it. Without a window nothing happens.
pub open spec fn window_clicked(
    before: Windows,
    slot: i16,
    button: i8,
    mode: i8,
    creative: bool,
    after: Windows,
    packets: Seq<ServerboundPacket>,
) -> bool {
    &&& after.same_screen(&before)
    &&& match before.open_container {
        None => packets.len() == 0 && after == before,
        Some(c) => {
            let (state, item) = slot_click_spec(
                c.kind,
                c.slots@,
                before.state(),
                slot,
                button,
                mode,
                creative,
            );
            &&& after.open_container matches Some(d) && d.same_window(&c) && d.action
                == spec_next_action(c.action)
            &&& after.state() == state
            &&& packets.len() == 1
            &&& is_click_packet(
                packets[0],
                c.window_id,
                slot,
                button,
                spec_next_action(c.action),
                mode,
                item,
            )
        },
    }
}

/// The drag was reported: its start, every painted slot and its end, as clicks. A drag
/// over fewer than two slots reports nothing.
pub open spec fn drag_reported(
    before: Windows,
    creative: bool,
    after: Windows,
    packets: Seq<ServerboundPacket>,
) -> bool {
    &&& !after.drag_active
    &&& after.drag_button == before.drag_button
    &&& after.window_open_pending == before.window_open_pending
    &&& after.window_close_pending == before.window_close_pending
    &&& !before.drag_active ==> packets.len() == 0 && after == before
    &&& before.drag_active ==> after.drag_slots@ == Seq::<i16>::empty()
    &&& before.drag_active && (before.drag_slots@.len() <= 1 || before.open_container is None)
        ==> packets.len() == 0 && after == (Windows {
        drag_active: false,
        drag_slots: after.drag_slots,
        ..before
    })
    &&& before.drag_active && before.drag_slots@.len() > 1 && before.open_container is Some ==> {
        let c = before.open_container->0;
        let clicks = drag_clicks(before.drag_slots@, before.drag_button << 2);
        &&& after.open_container matches Some(d) && d.same_window(&c) && d.action == action_after(
            c.action,
            clicks.len() as int,
        )
        &&& after.state() == after_clicks(
            c.kind,
            c.slots@,
            before.state(),
            clicks,
            creative,
            clicks.len() as int,
        )
        &&& packets.len() == clicks.len()
        &&& forall|i: int|
            0 <= i < clicks.len() ==> is_click_packet(
                #[trigger] packets[i],
                c.window_id,
                clicks[i].0,
                clicks[i].1,
                action_after(c.action, i + 1),
                5,
                None,
            )
    }
}

/// The player closed the window: the packet says so, if one was open. What was carried is
/// the server's to return.
pub open spec fn closed_by_player(
    before: Windows,
    after: Windows,
    packet: Option<ServerboundPacket>,
) -> bool {
    &&& after.drag_slots@ == Seq::<i16>::empty()
    &&& after == (Windows {
        cursor_item: None,
        open_container: None,
        drag_active: false,
        drag_slots: after.drag_slots,
        ..before
    })
    &&& packet == match before.open_container {
        Some(c) => Some(ServerboundPacket::CloseWindow { window_id: c.window_id }),
        None => None,
    }
}

/// A paint-drag was begun, if something is carried.
pub open spec fn drag_begun(before: Windows, button: i8, after: Windows) -> bool {
    &&& before.cursor_item is None ==> after == before
    &&& before.cursor_item is Some ==> {
        &&& after.drag_slots@ == Seq::<i16>::empty()
        &&& after == (Windows {
            drag_active: true,
            drag_button: button,
            drag_slots: after.drag_slots,
            ..before
        })
    }
}

/// A paint-drag was given up.
pub open spec fn drag_dropped(before: Windows, after: Windows) -> bool {
    &&& after.drag_slots@ == Seq::<i16>::empty()
    &&& after == (Windows { drag_active: false, drag_slots: after.drag_slots, ..before })
}

/// A villager's offer was chosen, the nearest there is; the packet asks the server for it.
pub open spec fn offer_chosen(
    before: Windows,
    index: usize,
    after: Windows,
    packet: Option<ServerboundPacket>,
) -> bool {
    match before.open_container {
        None => packet is None && after == before,
        Some(c) => {
            let chosen = if index < c.trades@.len() {
                index
            } else if c.trades@.len() == 0 {
                0
            } else {
                (c.trades@.len() - 1) as usize
            };
            &&& after == (Windows {
                open_container: Some(Container { selected_trade: chosen, ..c }),
                ..before
            })
            &&& packet is Some
            &&& trade_request(packet->0, chosen as int)
        },
    }
}

/// The player's own window, just opened.
pub open spec fn is_player_window(c: Container) -> bool {
    &&& c.kind == WindowKind::Player
    &&& c.window_id == 0
    &&& c.fresh()
    &&& c.title@ == Seq::<char>::empty()
    &&& c.container_inv@.len() == 0
    &&& c.slots@ == player_window_slots()
    &&& c.x_size == 176
    &&& c.y_size == 166
}

impl Windows {
    /// An empty inventory and no window.
    pub fn new() -> (w: Windows)
        ensures
            w.wf(),
            w.empty_screen(),
            forall|i: int| 0 <= i < PLAYER_SLOTS ==> (#[trigger] w.inventory@[i]) is None,
    {
        Windows {
            inventory: empty_places(PLAYER_SLOTS),
            cursor_item: None,
            open_container: None,
            drag_active: false,
            drag_button: 0,
            drag_slots: Vec::new(),
            window_open_pending: false,
            window_close_pending: false,
        }
    }

    /// No window, nothing carried, no drag.
    pub open spec fn empty_screen(&self) -> bool {
        &&& self.cursor_item is None
        &&& self.open_container is None
        &&& !self.drag_active
        &&& self.drag_button == 0
        &&& self.drag_slots@ == Seq::<i16>::empty()
        &&& !self.window_open_pending
        &&& !self.window_close_pending
    }

    /// Open the player's own inventory.
    pub fn open_player_inventory(&mut self)
        requires
            old(self).wf(),
        ensures
            final(self).wf(),
            final(self).open_container matches Some(c) && is_player_window(c),
            *final(self) == (Windows {
                open_container: final(self).open_container,
                ..*old(self)
            }),
    {
        self.open_container = Some(Container::player());
    }

    /// The stack in the selected hotbar slot.
    pub fn held_item(&self, selected_slot: i32) -> (held: &Option<SlotItem>)
        requires
            self.wf(),
            0 <= selected_slot < 9,
        ensures
            *held == self.inventory@[36 + selected_slot],
    {
        &self.inventory[36 + selected_slot as usize]
    }

    /// Whether a click meets no empty stack: every click on non-empty stacks has
    /// a meaning.
    pub fn click_has_meaning(&self, slot: i16) -> (yes: bool)
        ensures
            yes && self.open_container is Some ==> forall|button: i8, mode: i8| #[trigger]
                click_defined(self.open_container->0.slots@, self.state(), slot, button, mode),
            yes == ((self.cursor_item matches Some(item) ==> item.count > 0)
                && match self.open_container {
                Some(c) => 0 <= slot < c.slots@.len() ==> match c.state(
                    self.inventory@,
                    self.cursor_item,
                ).read(c.slots@, slot as int) {
                    Some(item) => item.count > 0,
                    None => true,
                },
                None => true,
            }),
    {
        let carried = match &self.cursor_item {
            Some(item) => item.count > 0,
            None => true,
        };
        let clicked = match &self.open_container {
            Some(c) => if slot >= 0 && (slot as usize) < c.slots.len() {
                let item = c.get(slot as usize, &self.inventory);
                assert(stack_view(item) == c.state(self.inventory@, self.cursor_item).read(
                    c.slots@,
                    slot as int,
                ));
                match item {
                    Some(item) => item.count > 0,
                    None => true,
                }
            } else {
                true
            },
            None => true,
        };
        carried && clicked
    }

    /// Click on the open window. Without one nothing happens.
    pub fn container_click(&mut self, slot: i16, button: i8, mode: i8, creative: bool) -> (packets:
        Vec<ServerboundPacket>)
        requires
            old(self).wf(),
            old(self).open_container matches Some(c) ==> click_defined(
                c.slots@,
                old(self).state(),
                slot,
                button,
                mode,
            ),
        ensures
            final(self).wf(),
            window_clicked(*old(self), slot, button, mode, creative, *final(self), packets@),
    {
        match &mut self.open_container {
            Some(container) => container.window_click(
                slot,
                button,
                mode,
                &mut self.inventory,
                &mut self.cursor_item,
                creative,
            ),
            None => Vec::new(),
        }
    }

    /// Abandon the drag in progress.
    pub fn container_drag_cancel(&mut self)
        requires
            old(self).wf(),
        ensures
            final(self).wf(),
            drag_dropped(*old(self), *final(self)),
    {
        self.drag_active = false;
        self.drag_slots = Vec::new();
    }

    /// Close the window: the packet that says so, if one was open. The carried
    /// stack is the server's to return.
    pub fn container_close(&mut self) -> (packet: Option<ServerboundPacket>)
        requires
            old(self).wf(),
        ensures
            final(self).wf(),
            closed_by_player(*old(self), *final(self), packet),
    {
        self.container_drag_cancel();
        self.cursor_item = None;
        let mut closed: Option<Container> = None;
        std::mem::swap(&mut closed, &mut self.open_container);
        match closed {
            Some(c) => Some(ServerboundPacket::CloseWindow { window_id: c.window_id }),
            None => None,
        }
    }

    /// Begin a paint-drag, when something is carried.
    pub fn container_drag_begin(&mut self, button: i8)
        requires
            old(self).wf(),
        ensures
            final(self).wf(),
            drag_begun(*old(self), button, *final(self)),
    {
        if self.cursor_item.is_some() {
            self.drag_active = true;
            self.drag_button = button;
            self.drag_slots = Vec::new();
        }
    }

    /// Whether the drag may paint a slot: one of the window's, not painted yet,
    /// with room for the carried kind, and no more slots than carried items
    /// unless the drag fills.
    pub open spec fn paintable(&self, slot: i16) -> bool {
        &&& self.drag_active
        &&& !self.drag_slots@.contains(slot)
        &&& self.cursor_item is Some
        &&& self.open_container is Some
        &&& 0 <= slot < self.open_container->0.slots@.len()
        &&& self.drag_button == 2 || self.drag_slots@.len() < self.cursor_item->0.count
        &&& match self.state().read(self.open_container->0.slots@, slot as int) {
            None => true,
            Some(item) => spec_stackable(item, self.cursor_item->0@) && item.count
                < spec_max_stack(self.cursor_item->0@),
        }
    }

    /// Paint a slot, if it may be painted.
    pub fn container_drag_add(&mut self, slot: i16)
        requires
            old(self).wf(),
        ensures
            final(self).wf(),
            final(self).drag_slots@ == if old(self).paintable(slot) {
                old(self).drag_slots@.push(slot)
            } else {
                old(self).drag_slots@
            },
            *final(self) == (Windows { drag_slots: final(self).drag_slots, ..*old(self) }),
    {
        if !self.drag_active || slot < 0 || contains_short(&self.drag_slots, slot) {
            return ;
        }
        let may = match (&self.cursor_item, &self.open_container) {
            (Some(carried), Some(window)) => if slot as usize >= window.slots.len() {
                false
            } else if self.drag_button != 2 && self.drag_slots.len() >= carried.count as usize {
                false
            } else {
                let item = window.get(slot as usize, &self.inventory);
                assert(stack_view(item) == self.state().read(window.slots@, slot as int));
                match item {
                    None => true,
                    Some(item) => stackable(&item, carried) && item.count < max_stack(carried),
                }
            },
            _ => false,
        };
        if may {
            self.drag_slots.push(slot);
        }
    }

    /// Report the drag: its start, every painted slot and its end, as clicks. A
    /// drag over fewer than two slots reports nothing.
    pub fn container_drag_commit(&mut self, creative: bool) -> (packets: Vec<ServerboundPacket>)
        requires
            old(self).wf(),
        ensures
            final(self).wf(),
            drag_reported(*old(self), creative, *final(self), packets@),
    {
        let mut packets: Vec<ServerboundPacket> = Vec::new();
        if !self.drag_active {
            return packets;
        }
        self.drag_active = false;
        let mut painted: Vec<i16> = Vec::new();
        std::mem::swap(&mut painted, &mut self.drag_slots);
        if painted.len() <= 1 || self.open_container.is_none() {
            return packets;
        }
        let base: i8 = self.drag_button << 2;
        let ghost c = self.open_container->0;
        let ghost start = self.state();
        let ghost clicks = drag_clicks(painted@, base);
        let n: u128 = painted.len() as u128;
        let mut i: u128 = 0;
        while i < n + 2
            invariant
                self.wf(),
                i <= n + 2,
                n == painted@.len() <= usize::MAX,
                clicks == drag_clicks(painted@, base),
                c == old(self).open_container->0,
                !self.drag_active,
                self.drag_slots@ == Seq::<i16>::empty(),
                self.drag_button == old(self).drag_button,
                self.window_open_pending == old(self).window_open_pending,
                self.window_close_pending == old(self).window_close_pending,
                self.open_container matches Some(d) && d.same_window(&c) && d.action
                    == action_after(c.action, i as int),
                self.state() == after_clicks(c.kind, c.slots@, start, clicks, creative, i as int),
                packets@.len() == i,
                forall|k: int|
                    0 <= k < i ==> is_click_packet(
                        #[trigger] packets@[k],
                        c.window_id,
                        clicks[k].0,
                        clicks[k].1,
                        action_after(c.action, k + 1),
                        5,
                        None,
                    ),
            decreases n + 2 - i,
        {
            let (slot, button): (i16, i8) = if i == 0 {
                (OUTSIDE, base)
            } else if i <= n {
                (painted[(i - 1) as usize], base | 1)
            } else {
                (OUTSIDE, base | 2)
            };
            assert(clicks[i as int] == (slot, button));
            let mut sent = self.container_click(slot, button, 5, creative);
            let ghost before = packets@;
            if let Some(packet) = sent.pop() {
                packets.push(packet);
            }
            i += 1;
        }
        packets
    }
}

/// Whether a list holds a number.
fn contains_short(list: &Vec<i16>, n: i16) -> (yes: bool)
    ensures
        yes == list@.contains(n),
{
    let mut i: usize = 0;
    while i < list.len()
        invariant
            i <= list@.len(),
            forall|j: int| 0 <= j < i ==> list@[j] != n,
        decreases list@.len() - i,
    {
        if list[i] == n {
            return true;
        }
        i += 1;
    }
    false
}

/// A number as four bytes, highest first.
fn be_bytes(n: i32) -> (bytes: Vec<u8>)
    ensures
        bytes@.len() == 4,
        be_i32(bytes@, 0) == n,
{
    let u: u64 = if n < 0 {
        (n as i64 + 0x1_0000_0000) as u64
    } else {
        n as u64
    };
    let mut bytes: Vec<u8> = Vec::new();
    bytes.push((u / 0x100_0000) as u8);
    bytes.push((u / 0x1_0000 % 0x100) as u8);
    bytes.push((u / 0x100 % 0x100) as u8);
    bytes.push((u % 0x100) as u8);
    bytes
}

/// The message that asks the server for a trade.
pub open spec fn trade_request(packet: ServerboundPacket, index: int) -> bool {
    packet matches ServerboundPacket::PluginMessage { channel, data } && channel@ == "MC|TrSel"@
        && data@.len() == 4 && be_i32(data@, 0) == index
}

/// The server opened a window: it replaces the one that was open, and a drag ends.
pub open spec fn window_opened(
    before: Windows,
    window_id: u8,
    inventory_type: Seq<char>,
    title: Seq<char>,
    slots: u8,
    after: Windows,
) -> bool {
    &&& after.inventory == before.inventory
    &&& after.cursor_item == before.cursor_item
    &&& !after.drag_active
    &&& after.drag_button == before.drag_button
    &&& after.drag_slots@ == Seq::<i16>::empty()
    &&& after.window_open_pending
    &&& after.window_close_pending == before.window_close_pending
    &&& (after.open_container matches Some(c) && {
        &&& c.window_id == window_id
        &&& c.kind == kind_of_type(inventory_type, slots as int)
        &&& c.title@ == title
        &&& c.fresh()
        &&& c.slots@ == own_slots(c.kind, slots as int) + player_rows(
            window_metrics(c.kind).0,
            window_metrics(c.kind).1,
        )
        &&& c.x_size == window_metrics(c.kind).2
        &&& c.y_size == window_metrics(c.kind).3
        &&& c.container_inv@.len() == if own_slots(c.kind, slots as int).len() < slots {
            slots as int
        } else {
            own_slots(c.kind, slots as int).len() as int
        }
        &&& forall|i: int|
            0 <= i < c.container_inv@.len() ==> (#[trigger] c.container_inv@[i]) is None
    })
}

/// The server closed a window, if it is the open one.
pub open spec fn window_closed(
    before: Windows,
    window_id: u8,
    after: Windows,
) -> bool {
    &&& (before.open_container matches Some(c) && c.window_id == window_id ==> {
        &&& after.open_container is None
        &&& after.cursor_item is None
        &&& !after.drag_active
        &&& after.drag_slots@ == Seq::<i16>::empty()
        &&& after.window_close_pending
        &&& after.inventory == before.inventory
        &&& after.window_open_pending == before.window_open_pending
        &&& after.drag_button == before.drag_button
    })
    &&& (!(before.open_container matches Some(c) && c.window_id == window_id)
        ==> after == before)
}

/// The server set a property of the open window.
pub open spec fn property_set(
    before: Windows,
    window_id: u8,
    property: i16,
    value: i16,
    after: Windows,
) -> bool {
    &&& after == (Windows {
        open_container: after.open_container,
        ..before
    })
    &&& match before.open_container {
        Some(c) => after.open_container matches Some(d) && d == (Container {
            properties: d.properties,
            ..c
        }) && d.properties@ == if c.window_id == window_id && 0 <= property < 8 {
            c.properties@.update(property as int, value)
        } else {
            c.properties@
        },
        None => after.open_container is None,
    }
}

/// The server set one slot: the carried stack, a slot of the open window, or a place
/// of the player inventory.
pub open spec fn slot_set(
    before: Windows,
    window_id: i8,
    slot: i16,
    item: Option<SlotItem>,
    after: Windows,
) -> bool {
    &&& after.same_screen(&before)
    &&& ({
        let ours = before.open_container matches Some(c) && c.window_id as i8
            == window_id;
        if window_id == -1 && slot == -1 {
            after == (Windows { cursor_item: item, ..before })
        } else if ours {
            let c = before.open_container->0;
            &&& after.open_container matches Some(d) && d.same_window(&c) && d.action
                == c.action
            &&& after.cursor_item == before.cursor_item
            &&& after.state() == if 0 <= slot < as_short(c.slots@.len() as int) {
                before.state().write(c.slots@, slot as int, stack_view(item))
            } else {
                before.state()
            }
        } else if window_id == 0 && 0 <= slot < PLAYER_SLOTS {
            &&& after.inventory@ == before.inventory@.update(slot as int, item)
            &&& after == (Windows {
                inventory: after.inventory,
                ..before
            })
        } else {
            after == before
        }
    })
}

/// The server set all slots of a window, or the player inventory.
pub open spec fn all_slots_set(
    before: Windows,
    window_id: u8,
    items: Seq<Option<SlotItem>>,
    after: Windows,
) -> bool {
    &&& after.same_screen(&before)
    &&& after.cursor_item == before.cursor_item
    &&& ({
        let ours = before.open_container matches Some(c) && c.window_id == window_id;
        if ours {
            let c = before.open_container->0;
            &&& after.open_container matches Some(d) && d.same_window(&c) && d.action
                == c.action
            &&& after.state() == items_written(
                c.slots@,
                before.state(),
                inventory_view(items),
                0,
            )
        } else if window_id == 0 {
            &&& inventory_view(after.inventory@) == fitted(inventory_view(items))
            &&& after == (Windows {
                inventory: after.inventory,
                ..before
            })
        } else {
            after == before
        }
    })
}

impl Windows {
    /// Select a villager trade: the nearest one there is. Returns the message
    /// that asks the server for it, when a window is open.
    pub fn merchant_select(&mut self, index: usize) -> (packet: Option<ServerboundPacket>)
        requires
            old(self).wf(),
            old(self).open_container matches Some(c) ==> c.trades@.len() <= i32::MAX,
        ensures
            final(self).wf(),
            offer_chosen(*old(self), index, *final(self), packet),
    {
        match &mut self.open_container {
            Some(container) => {
                container.set_selected_trade(index);
                Some(
                    ServerboundPacket::PluginMessage {
                        channel: copy_text("MC|TrSel"),
                        data: be_bytes(container.selected_trade() as i32),
                    },
                )
            },
            None => None,
        }
    }

    /// The server opened a window; it replaces the one that was open.
    pub fn handle_open_window(&mut self, window_id: u8, inventory_type: &str, title: String, slots: u8)
        requires
            old(self).wf(),
        ensures
            final(self).wf(),
            window_opened(*old(self), window_id, inventory_type@, title@, slots, *final(self)),
    {
        self.open_container = Some(
            Container::open(window_id, inventory_type, title, slots as usize),
        );
        self.container_drag_cancel();
        self.window_open_pending = true;
    }

    /// The server closed a window; nothing happens if another one is open.
    pub fn handle_close_window_s(&mut self, window_id: u8)
        requires
            old(self).wf(),
        ensures
            final(self).wf(),
            window_closed(*old(self), window_id, *final(self)),
    {
        let ours = match &self.open_container {
            Some(c) => c.window_id == window_id,
            None => false,
        };
        if ours {
            self.open_container = None;
            self.cursor_item = None;
            self.container_drag_cancel();
            self.window_close_pending = true;
        }
    }

    /// The server sets a property of a window.
    pub fn handle_window_property(&mut self, window_id: u8, property: i16, value: i16)
        requires
            old(self).wf(),
        ensures
            final(self).wf(),
            property_set(*old(self), window_id, property, value, *final(self)),
    {
        match &mut self.open_container {
            Some(container) => if container.window_id == window_id {
                container.set_property(property, value);
            },
            None => {},
        }
    }

    /// The server sets one slot: the carried stack, a slot of the open window, or
    /// with no such window open a place of the player inventory.
    pub fn handle_set_slot(&mut self, window_id: i8, slot: i16, item: Option<SlotItem>)
        requires
            old(self).wf(),
        ensures
            final(self).wf(),
            slot_set(*old(self), window_id, slot, item, *final(self)),
    {
        if window_id == -1 && slot == -1 {
            self.cursor_item = item;
            return ;
        }
        let ours = match &self.open_container {
            Some(c) => (#[verifier::truncate] (c.window_id as i8)) == window_id,
            None => false,
        };
        if ours {
            match &mut self.open_container {
                Some(container) => container.apply_set_slot(slot, item, &mut self.inventory),
                None => {},
            }
            assert(self.state() == if 0 <= slot < as_short(
                old(self).open_container->0.slots@.len() as int,
            ) {
                old(self).state().write(
                    old(self).open_container->0.slots@,
                    slot as int,
                    stack_view(item),
                )
            } else {
                old(self).state()
            });
        } else if window_id == 0 && slot >= 0 && (slot as usize) < self.inventory.len() {
            self.inventory.set(slot as usize, item);
        }
    }

    /// The server sets all slots of a window, or with no such window open the
    /// player inventory.
    pub fn handle_window_items(&mut self, window_id: u8, items: Vec<Option<SlotItem>>)
        requires
            old(self).wf(),
        ensures
            final(self).wf(),
            all_slots_set(*old(self), window_id, items@, *final(self)),
    {
        let ours = match &self.open_container {
            Some(c) => c.window_id == window_id,
            None => false,
        };
        if ours {
            match &mut self.open_container {
                Some(container) => container.apply_window_items(items, &mut self.inventory),
                None => {},
            }
            assert(items_written(
                old(self).open_container->0.slots@,
                old(self).state(),
                inventory_view(items@),
                0,
            ) == self.state());
        } else if window_id == 0 {
            let ghost given = inventory_view(items@);
            let mut places = items;
            places.truncate(PLAYER_SLOTS);
            while places.len() < PLAYER_SLOTS
                invariant
                    places@.len() <= PLAYER_SLOTS,
                    forall|i: int|
                        0 <= i < places@.len() ==> stack_view(#[trigger] places@[i]) == fitted(
                            given,
                        )[i],
                    places@.len() >= given.len() || places@.len() == PLAYER_SLOTS,
                decreases PLAYER_SLOTS - places@.len(),
            {
                places.push(None);
            }
            self.inventory = places;
            assert(inventory_view(self.inventory@) =~= fitted(given));
        }
    }

    /// The server's trade offers for the open window.
    pub fn handle_trades(&mut self, window_id: i32, trades: Vec<MerchantRecipe>)
        requires
            old(self).wf(),
        ensures
            final(self).wf(),
            *final(self) == (Windows {
                open_container: final(self).open_container,
                ..*old(self)
            }),
            match old(self).open_container {
                Some(c) => final(self).open_container == if c.window_id == window_id {
                    Some(
                        Container {
                            trades,
                            selected_trade: Container::offer_kept(
                                c.selected_trade,
                                trades@.len() as int,
                            ),
                            ..c
                        },
                    )
                } else {
                    Some(c)
                },
                None => final(self).open_container is None,
            },
    {
        match &mut self.open_container {
            Some(container) => if container.window_id as i32 == window_id {
                container.set_trades(trades);
            },
            None => {},
        }
    }

    /// It is known that the server opened a window.
    pub open spec fn opening_taken(self) -> Windows {
        Windows { window_open_pending: false, ..self }
    }

    /// It is known that the server closed the window.
    pub open spec fn closing_taken(self) -> Windows {
        Windows { window_close_pending: false, ..self }
    }

    /// Whether the server opened a window since the last call.
    pub fn take_window_open(&mut self) -> (opened: bool)
        requires
            old(self).wf(),
        ensures
            final(self).wf(),
            opened == old(self).window_open_pending,
            *final(self) == old(self).opening_taken(),
    {
        let opened = self.window_open_pending;
        self.window_open_pending = false;
        opened
    }

    /// Whether the server closed the window since the last call.
    pub fn take_window_close(&mut self) -> (closed: bool)
        requires
            old(self).wf(),
        ensures
            final(self).wf(),
            closed == old(self).window_close_pending,
            *final(self) == old(self).closing_taken(),
    {
        let closed = self.window_close_pending;
        self.window_close_pending = false;
        closed
    }

    /// The armor points of the four worn pieces.
    pub fn armor(&self) -> (points: i32)
        requires
            self.wf(),
        ensures
            points == worn_points(inventory_view(self.inventory@), 4),
            0 <= points <= 32,
    {
        let mut points: i32 = 0;
        let mut i: usize = 0;
        while i < 4
            invariant
                i <= 4,
                self.wf(),
                points == worn_points(inventory_view(self.inventory@), i as int),
                0 <= points <= 8 * i,
            decreases 4 - i,
        {
            if let Some(item) = &self.inventory[5 + i] {
                points = points + armor_points(item.id);
            }
            i += 1;
        }
        points
    }
}

/// The armor points of the first `n` worn pieces.
pub open spec fn worn_points(inventory: Seq<Option<ItemModel>>, n: int) -> int
    decreases n,
{
    if n <= 0 {
        0
    } else {
        worn_points(inventory, n - 1) + match inventory[5 + n - 1] {
            Some(item) => spec_armor_points(item.id),
            None => 0,
        }
    }
}

} // verus!
