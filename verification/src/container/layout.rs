//! Which slots a window has and where they are drawn.

use vstd::prelude::*;
use crate::container::state::{slots_wf, Container, Slot, SlotBack, SlotKind, WindowKind};
use crate::item::SlotItem;
use crate::text::{same_text, trim_prefix, without_prefix};

verus! {

pub open spec fn container_slot(i: int, x: int, y: int, kind: SlotKind) -> Slot {
    Slot { back: SlotBack::Container(i as usize), x: x as i32, y: y as i32, kind }
}

pub open spec fn player_slot(i: int, x: int, y: int, kind: SlotKind) -> Slot {
    Slot { back: SlotBack::Player(i as usize), x: x as i32, y: y as i32, kind }
}

/// The 27 main and 9 hotbar slots of the player, three rows of nine from
/// `main_y` and one row at `hot_y`.
pub open spec fn player_rows(main_y: int, hot_y: int) -> Seq<Slot> {
    Seq::new(
        36,
        |i: int|
            if i < 27 {
                player_slot(9 + i, 8 + (i % 9) * 18, main_y + (i / 9) * 18, SlotKind::Normal)
            } else {
                player_slot(9 + i, 8 + (i - 27) * 18, hot_y, SlotKind::Normal)
            },
    )
}

/// A grid of `n` plain slots, `columns` wide, backed from `first` on.
pub open spec fn grid(first: int, n: int, columns: int, x: int, y: int) -> Seq<Slot> {
    Seq::new(
        n as nat,
        |i: int|
            container_slot(
                first + i,
                x + (i % columns) * 18,
                y + (i / columns) * 18,
                SlotKind::Normal,
            ),
    )
}

/// The slots that belong to the container itself.
pub open spec fn own_slots(kind: WindowKind, size: int) -> Seq<Slot> {
    match kind {
        WindowKind::Player => Seq::empty(),
        WindowKind::Chest(rows) => grid(0, rows * 9, 9, 8, 18),
        WindowKind::Dispenser => grid(0, 9, 3, 62, 17),
        WindowKind::Hopper => grid(0, 5, 5, 44, 20),
        WindowKind::Furnace => seq![
            container_slot(0, 56, 17, SlotKind::Normal),
            container_slot(1, 56, 53, SlotKind::Normal),
            container_slot(2, 116, 35, SlotKind::Output),
        ],
        WindowKind::Crafting => seq![container_slot(0, 124, 35, SlotKind::Output)] + grid(
            1,
            9,
            3,
            30,
            17,
        ),
        WindowKind::Brewing => seq![
            container_slot(0, 56, 46, SlotKind::Limit1),
            container_slot(1, 79, 53, SlotKind::Limit1),
            container_slot(2, 102, 46, SlotKind::Limit1),
            container_slot(3, 79, 17, SlotKind::Normal),
        ],
        WindowKind::Enchant => Seq::new(
            if size < 1 {
                1
            } else {
                size as nat
            },
            |i: int| container_slot(i, 25 + i * 18, 47, SlotKind::Limit1),
        ),
        WindowKind::Anvil => seq![
            container_slot(0, 27, 47, SlotKind::Normal),
            container_slot(1, 76, 47, SlotKind::Normal),
            container_slot(2, 134, 47, SlotKind::Output),
        ],
        WindowKind::Beacon => seq![container_slot(0, 136, 110, SlotKind::Limit1)],
        WindowKind::Villager => seq![
            container_slot(0, 36, 52, SlotKind::Normal),
            container_slot(1, 62, 52, SlotKind::Normal),
            container_slot(2, 120, 52, SlotKind::Output),
        ],
    }
}

/// Where the player's rows start and how large the window is:
/// `(main_y, hot_y, x_size, y_size)`.
pub open spec fn window_metrics(kind: WindowKind) -> (int, int, int, int) {
    match kind {
        WindowKind::Chest(rows) => (
            103 + (rows - 4) * 18,
            161 + (rows - 4) * 18,
            176,
            114 + rows * 18,
        ),
        WindowKind::Hopper => (51, 109, 176, 133),
        WindowKind::Beacon => (132, 190, 230, 219),
        _ => (84, 142, 176, 166),
    }
}

/// The slots of the player window: result, craft grid, armor, main, hotbar.
pub open spec fn player_window_slots() -> Seq<Slot> {
    seq![
        player_slot(0, 144, 36, SlotKind::Output),
        player_slot(1, 88, 26, SlotKind::Normal),
        player_slot(2, 106, 26, SlotKind::Normal),
        player_slot(3, 88, 44, SlotKind::Normal),
        player_slot(4, 106, 44, SlotKind::Normal),
        player_slot(5, 8, 8, SlotKind::Limit1),
        player_slot(6, 8, 26, SlotKind::Limit1),
        player_slot(7, 8, 44, SlotKind::Limit1),
        player_slot(8, 8, 62, SlotKind::Limit1),
    ] + player_rows(84, 142)
}

/// The rows of a chest-shaped window for a slot count that travels as a byte.
pub open spec fn chest_rows(slots: int) -> u8 {
    ((if slots < 1 {
        1
    } else {
        slots % 256
    } + 8) / 9) as u8
}

/// The kind of window an inventory type and a slot count ask for.
pub open spec fn kind_of_type(inventory_type: Seq<char>, slots: int) -> WindowKind {
    let t = without_prefix(inventory_type, "minecraft:"@);
    if t == "chest"@ || t == "container"@ || t == "EntityHorse"@ {
        WindowKind::Chest(chest_rows(slots))
    } else if t == "dispenser"@ || t == "dropper"@ {
        WindowKind::Dispenser
    } else if t == "hopper"@ {
        WindowKind::Hopper
    } else if t == "furnace"@ {
        WindowKind::Furnace
    } else if t == "crafting_table"@ || t == "workbench"@ {
        WindowKind::Crafting
    } else if t == "brewing_stand"@ {
        WindowKind::Brewing
    } else if t == "enchanting_table"@ {
        WindowKind::Enchant
    } else if t == "anvil"@ {
        WindowKind::Anvil
    } else if t == "beacon"@ {
        WindowKind::Beacon
    } else if t == "villager"@ {
        WindowKind::Villager
    } else {
        WindowKind::Chest(chest_rows(slots))
    }
}

impl WindowKind {
    /// Map an inventory type and container slot count to a kind. Unknown types
    /// fall back to a chest-shaped grid.
    pub fn from_type(inventory_type: &str, slots: usize) -> (kind: WindowKind)
        ensures
            kind == kind_of_type(inventory_type@, slots as int),
    {
        let name = trim_prefix(inventory_type, "minecraft:");
        let t = name.as_str();
        let byte: u8 = if slots < 1 {
            1
        } else {
            (slots % 256) as u8
        };
        let rows: u8 = ((byte as u16 + 8) / 9) as u8;
        if same_text(t, "chest") || same_text(t, "container") || same_text(t, "EntityHorse") {
            WindowKind::Chest(rows)
        } else if same_text(t, "dispenser") || same_text(t, "dropper") {
            WindowKind::Dispenser
        } else if same_text(t, "hopper") {
            WindowKind::Hopper
        } else if same_text(t, "furnace") {
            WindowKind::Furnace
        } else if same_text(t, "crafting_table") || same_text(t, "workbench") {
            WindowKind::Crafting
        } else if same_text(t, "brewing_stand") {
            WindowKind::Brewing
        } else if same_text(t, "enchanting_table") {
            WindowKind::Enchant
        } else if same_text(t, "anvil") {
            WindowKind::Anvil
        } else if same_text(t, "beacon") {
            WindowKind::Beacon
        } else if same_text(t, "villager") {
            WindowKind::Villager
        } else {
            WindowKind::Chest(rows)
        }
    }
}

/// Append the 27 main and 9 hotbar player slots at the given y offsets.
pub fn add_player_inv(slots: &mut Vec<Slot>, main_y: i32, hot_y: i32)
    requires
        i32::MIN <= main_y <= i32::MAX - 36,
    ensures
        final(slots)@ == old(slots)@ + player_rows(main_y as int, hot_y as int),
{
    let ghost before = slots@;
    let ghost rows = player_rows(main_y as int, hot_y as int);
    let mut i: usize = 0;
    while i < 27
        invariant
            i <= 27,
            i32::MIN <= main_y <= i32::MAX - 36,
            rows == player_rows(main_y as int, hot_y as int),
            slots@ == before + rows.take(i as int),
        decreases 27 - i,
    {
        slots.push(
            Slot {
                back: SlotBack::Player(9 + i),
                x: 8 + (i % 9) as i32 * 18,
                y: main_y + (i / 9) as i32 * 18,
                kind: SlotKind::Normal,
            },
        );
        i += 1;
        assert(rows.take(i as int) =~= rows.take(i - 1).push(rows[i - 1]));
        assert(slots@ =~= before + rows.take(i as int));
    }
    let mut j: usize = 0;
    while j < 9
        invariant
            j <= 9,
            rows == player_rows(main_y as int, hot_y as int),
            slots@ == before + rows.take(27 + j),
        decreases 9 - j,
    {
        slots.push(
            Slot {
                back: SlotBack::Player(36 + j),
                x: 8 + j as i32 * 18,
                y: hot_y,
                kind: SlotKind::Normal,
            },
        );
        j += 1;
        assert(rows.take(27 + j) =~= rows.take(27 + j - 1).push(rows[27 + j - 1]));
        assert(slots@ =~= before + rows.take(27 + j));
    }
    assert(rows.take(36) =~= rows);
}

/// Append a grid of `n` plain slots.
fn add_grid(slots: &mut Vec<Slot>, first: usize, n: usize, columns: usize, x: i32, y: i32)
    requires
        n <= 4590,
        0 < columns <= 9,
        first <= 1,
        0 <= x <= 1000,
        0 <= y <= 1000,
    ensures
        final(slots)@ == old(slots)@ + grid(
            first as int,
            n as int,
            columns as int,
            x as int,
            y as int,
        ),
{
    let ghost before = slots@;
    let ghost g = grid(first as int, n as int, columns as int, x as int, y as int);
    let mut i: usize = 0;
    assert(g.take(0) =~= Seq::empty());
    while i < n
        invariant
            i <= n <= 4590,
            0 < columns <= 9,
            first <= 1,
            0 <= x <= 1000,
            0 <= y <= 1000,
            g == grid(first as int, n as int, columns as int, x as int, y as int),
            slots@ == before + g.take(i as int),
        decreases n - i,
    {
        proof {
            vstd::arithmetic::div_mod::lemma_div_is_ordered_by_denominator(
                i as int,
                1,
                columns as int,
            );
            vstd::arithmetic::div_mod::lemma_div_pos_is_pos(i as int, columns as int);
        }
        slots.push(
            Slot {
                back: SlotBack::Container(first + i),
                x: x + (i % columns) as i32 * 18,
                y: y + (i / columns) as i32 * 18,
                kind: SlotKind::Normal,
            },
        );
        i += 1;
        assert(g.take(i as int) =~= g.take(i - 1).push(g[i - 1]));
        assert(slots@ =~= before + g.take(i as int));
    }
    assert(g.take(n as int) =~= g);
}

/// Append one slot of the container.
fn add_slot(slots: &mut Vec<Slot>, i: usize, x: i32, y: i32, kind: SlotKind)
    ensures
        final(slots)@ == old(slots)@.push(container_slot(i as int, x as int, y as int, kind)),
{
    slots.push(Slot { back: SlotBack::Container(i), x, y, kind });
}

/// The container's own slots, in order.
fn build_own_slots(kind: WindowKind, size: usize) -> (slots: Vec<Slot>)
    requires
        kind == WindowKind::Enchant ==> size <= 119_304_646,
    ensures
        slots@ == own_slots(kind, size as int),
{
    let mut slots: Vec<Slot> = Vec::new();
    match kind {
        WindowKind::Player => {},
        WindowKind::Chest(rows) => {
            add_grid(&mut slots, 0, rows as usize * 9, 9, 8, 18);
        },
        WindowKind::Dispenser => {
            add_grid(&mut slots, 0, 9, 3, 62, 17);
        },
        WindowKind::Hopper => {
            add_grid(&mut slots, 0, 5, 5, 44, 20);
        },
        WindowKind::Furnace => {
            add_slot(&mut slots, 0, 56, 17, SlotKind::Normal);
            add_slot(&mut slots, 1, 56, 53, SlotKind::Normal);
            add_slot(&mut slots, 2, 116, 35, SlotKind::Output);
        },
        WindowKind::Crafting => {
            add_slot(&mut slots, 0, 124, 35, SlotKind::Output);
            add_grid(&mut slots, 1, 9, 3, 30, 17);
        },
        WindowKind::Brewing => {
            add_slot(&mut slots, 0, 56, 46, SlotKind::Limit1);
            add_slot(&mut slots, 1, 79, 53, SlotKind::Limit1);
            add_slot(&mut slots, 2, 102, 46, SlotKind::Limit1);
            add_slot(&mut slots, 3, 79, 17, SlotKind::Normal);
        },
        WindowKind::Enchant => {
            let n: usize = if size < 1 {
                1
            } else {
                size
            };
            let ghost whole = own_slots(kind, size as int);
            let mut i: usize = 0;
            while i < n
                invariant
                    i <= n <= 119_304_646,
                    kind == WindowKind::Enchant,
                    n == (if size < 1 { 1 } else { size }),
                    whole == own_slots(kind, size as int),
                    slots@ == whole.take(i as int),
                decreases n - i,
            {
                add_slot(&mut slots, i, 25 + i as i32 * 18, 47, SlotKind::Limit1);
                i += 1;
                assert(whole.take(i as int) =~= whole.take(i - 1).push(whole[i - 1]));
            }
            assert(whole.take(n as int) =~= whole);
        },
        WindowKind::Anvil => {
            add_slot(&mut slots, 0, 27, 47, SlotKind::Normal);
            add_slot(&mut slots, 1, 76, 47, SlotKind::Normal);
            add_slot(&mut slots, 2, 134, 47, SlotKind::Output);
        },
        WindowKind::Beacon => {
            add_slot(&mut slots, 0, 136, 110, SlotKind::Limit1);
        },
        WindowKind::Villager => {
            add_slot(&mut slots, 0, 36, 52, SlotKind::Normal);
            add_slot(&mut slots, 1, 62, 52, SlotKind::Normal);
            add_slot(&mut slots, 2, 120, 52, SlotKind::Output);
        },
    }
    assert(slots@ =~= own_slots(kind, size as int));
    slots
}

/// Own slot `i` is backed by place `i` of the container.
pub proof fn lemma_own_backs(kind: WindowKind, size: int, i: int)
    requires
        0 <= i < own_slots(kind, size).len(),
        0 <= size <= usize::MAX,
    ensures
        own_slots(kind, size)[i].back == SlotBack::Container(i as usize),
{
}

/// The slots of a freshly opened window are well formed over a container
/// inventory that has a place for each own slot.
pub proof fn lemma_open_slots_wf(kind: WindowKind, size: int, main_y: int, hot_y: int, inv_len: int)
    requires
        0 <= size <= usize::MAX,
        own_slots(kind, size).len() <= inv_len,
        own_slots(kind, size).len() <= usize::MAX,
    ensures
        slots_wf(own_slots(kind, size) + player_rows(main_y, hot_y), inv_len),
{
    let own = own_slots(kind, size);
    let all = own + player_rows(main_y, hot_y);
    assert forall|s: int| 0 <= s < all.len() implies (#[trigger] all[s]).back == if s < own.len() {
        SlotBack::Container(s as usize)
    } else {
        SlotBack::Player((9 + s - own.len()) as usize)
    } by {
        if s < own.len() {
            lemma_own_backs(kind, size, s);
        }
    }
}

impl Container {
    fn with_slots(
        window_id: u8,
        kind: WindowKind,
        title: String,
        container_inv: Vec<Option<SlotItem>>,
        slots: Vec<Slot>,
        x_size: i32,
        y_size: i32,
    ) -> (window: Container)
        ensures
            window.window_id == window_id,
            window.kind == kind,
            window.title == title,
            window.container_inv == container_inv,
            window.slots == slots,
            window.x_size == x_size,
            window.y_size == y_size,
            window.fresh(),
    {
        Container {
            window_id,
            kind,
            title,
            container_inv,
            slots,
            properties: [0;8],
            x_size,
            y_size,
            drag_event: 0,
            drag_mode: 0,
            drag_slots: Vec::new(),
            action: 0,
            trades: Vec::new(),
            selected_trade: 0,
        }
    }

    /// Nothing has happened in the window yet.
    pub open spec fn fresh(&self) -> bool {
        &&& forall|i: int| 0 <= i < 8 ==> #[trigger] self.properties@[i] == 0
        &&& self.drag_event == 0
        &&& self.drag_mode == 0
        &&& self.drag_slots@.len() == 0
        &&& self.action == 0
        &&& self.trades@.len() == 0
        &&& self.selected_trade == 0
    }

    /// The player inventory window (window 0).
    pub fn player() -> (window: Container)
        ensures
            window.wf(),
            window.fresh(),
            window.window_id == 0,
            window.kind == WindowKind::Player,
            window.title@ == Seq::<char>::empty(),
            window.container_inv@.len() == 0,
            window.slots@ == player_window_slots(),
            window.x_size == 176,
            window.y_size == 166,
    {
        let mut slots: Vec<Slot> = Vec::new();
        slots.push(Slot { back: SlotBack::Player(0), x: 144, y: 36, kind: SlotKind::Output });
        slots.push(Slot { back: SlotBack::Player(1), x: 88, y: 26, kind: SlotKind::Normal });
        slots.push(Slot { back: SlotBack::Player(2), x: 106, y: 26, kind: SlotKind::Normal });
        slots.push(Slot { back: SlotBack::Player(3), x: 88, y: 44, kind: SlotKind::Normal });
        slots.push(Slot { back: SlotBack::Player(4), x: 106, y: 44, kind: SlotKind::Normal });
        slots.push(Slot { back: SlotBack::Player(5), x: 8, y: 8, kind: SlotKind::Limit1 });
        slots.push(Slot { back: SlotBack::Player(6), x: 8, y: 26, kind: SlotKind::Limit1 });
        slots.push(Slot { back: SlotBack::Player(7), x: 8, y: 44, kind: SlotKind::Limit1 });
        slots.push(Slot { back: SlotBack::Player(8), x: 8, y: 62, kind: SlotKind::Limit1 });
        add_player_inv(&mut slots, 84, 142);
        assert(slots@ =~= player_window_slots());
        assert forall|s: int| 0 <= s < 45 implies (#[trigger] slots@[s]).back == SlotBack::Player(
            s as usize,
        ) by {}
        Self::with_slots(0, WindowKind::Player, String::new(), Vec::new(), slots, 176, 166)
    }

    /// A server-opened window. `container_size` is the container's own slot
    /// count, excluding the 36 player slots.
    pub fn open(window_id: u8, inventory_type: &str, title: String, container_size: usize) -> (window:
        Container)
        requires
            kind_of_type(inventory_type@, container_size as int) == WindowKind::Enchant
                ==> container_size <= 119_304_646,
        ensures
            window.wf(),
            window.fresh(),
            window.window_id == window_id,
            window.kind == kind_of_type(inventory_type@, container_size as int),
            window.title == title,
            ({
                let own = own_slots(window.kind, container_size as int);
                let (main_y, hot_y, x_size, y_size) = window_metrics(window.kind);
                &&& window.slots@ == own + player_rows(main_y, hot_y)
                &&& window.x_size == x_size
                &&& window.y_size == y_size
                &&& window.container_inv@.len() == if own.len() < container_size {
                    container_size as int
                } else {
                    own.len() as int
                }
            }),
            forall|i: int|
                0 <= i < window.container_inv@.len() ==> (#[trigger] window.container_inv@[i])
                    is None,
    {
        let kind = WindowKind::from_type(inventory_type, container_size);
        let mut slots = build_own_slots(kind, container_size);
        let needed = slots.len();
        let (main_y, hot_y, x_size, y_size): (i32, i32, i32, i32) = match kind {
            WindowKind::Chest(rows) => (
                103 + (rows as i32 - 4) * 18,
                161 + (rows as i32 - 4) * 18,
                176,
                114 + rows as i32 * 18,
            ),
            WindowKind::Hopper => (51, 109, 176, 133),
            WindowKind::Beacon => (132, 190, 230, 219),
            _ => (84, 142, 176, 166),
        };
        add_player_inv(&mut slots, main_y, hot_y);
        let size: usize = if needed < container_size {
            container_size
        } else {
            needed
        };
        let mut inv: Vec<Option<SlotItem>> = Vec::new();
        let mut i: usize = 0;
        while i < size
            invariant
                i <= size,
                inv@.len() == i,
                forall|j: int| 0 <= j < i ==> (#[trigger] inv@[j]) is None,
            decreases size - i,
        {
            inv.push(None);
            i += 1;
        }
        proof {
            lemma_open_slots_wf(
                kind,
                container_size as int,
                main_y as int,
                hot_y as int,
                size as int,
            );
        }
        Self::with_slots(window_id, kind, title, inv, slots, x_size, y_size)
    }
}

} // verus!
