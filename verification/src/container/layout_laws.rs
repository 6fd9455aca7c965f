//! What a window's layout is for: its own slots first and the player's after them, each with
//! a place of its own, none over another; and trade offers that read as they were written.

use vstd::prelude::*;
use crate::container::layout::{
    chest_rows, grid, kind_of_type, own_slots, player_rows, player_window_slots, window_metrics,
};
use crate::container::state::{Slot, SlotBack, SlotKind, WindowKind};
use crate::container::trades::{
    recipe_at, recipes_at, slot_at, trade_list_at, RecipeModel,
};
use crate::item::ItemModel;
use crate::text::without_prefix;

verus! {

/// A chest has rows of nine, and no more of them than its slots need.
pub proof fn law_chests_have_rows_of_nine(slots: int)
    requires
        1 <= slots < 256,
    ensures
        chest_rows(slots) * 9 >= slots,
        (chest_rows(slots) - 1) * 9 < slots,
{
}

/// The windows that the server names are of the kind that they are named for; anything else
/// is a chest.
pub proof fn law_windows_are_what_they_are_named(inventory_type: Seq<char>, slots: int)
    ensures
        ({
            let name = without_prefix(inventory_type, "minecraft:"@);
            let kind = kind_of_type(inventory_type, slots);
            &&& kind == WindowKind::Dispenser <==> name == "dispenser"@ || name == "dropper"@
            &&& kind == WindowKind::Hopper <==> name == "hopper"@
            &&& kind == WindowKind::Furnace <==> name == "furnace"@
            &&& kind == WindowKind::Crafting <==> name == "crafting_table"@ || name == "workbench"@
            &&& kind == WindowKind::Brewing <==> name == "brewing_stand"@
            &&& kind == WindowKind::Enchant <==> name == "enchanting_table"@
            &&& kind == WindowKind::Anvil <==> name == "anvil"@
            &&& kind == WindowKind::Beacon <==> name == "beacon"@
            &&& kind == WindowKind::Villager <==> name == "villager"@
            &&& kind != WindowKind::Player
            &&& (kind matches WindowKind::Chest(rows) ==> rows == chest_rows(slots))
        }),
{
    reveal_strlit("chest");
    reveal_strlit("container");
    reveal_strlit("EntityHorse");
    reveal_strlit("dispenser");
    reveal_strlit("dropper");
    reveal_strlit("hopper");
    reveal_strlit("furnace");
    reveal_strlit("crafting_table");
    reveal_strlit("workbench");
    reveal_strlit("brewing_stand");
    reveal_strlit("enchanting_table");
    reveal_strlit("anvil");
    reveal_strlit("beacon");
    reveal_strlit("villager");
    assert("chest"@.len() == 5 && "chest"@[0] == 'c');
    assert("container"@.len() == 9 && "container"@[0] == 'c');
    assert("EntityHorse"@.len() == 11);
    assert("dispenser"@.len() == 9 && "dispenser"@[0] == 'd');
    assert("dropper"@.len() == 7 && "dropper"@[0] == 'd');
    assert("hopper"@.len() == 6 && "hopper"@[0] == 'h');
    assert("furnace"@.len() == 7 && "furnace"@[0] == 'f');
    assert("crafting_table"@.len() == 14);
    assert("workbench"@.len() == 9 && "workbench"@[0] == 'w');
    assert("brewing_stand"@.len() == 13);
    assert("enchanting_table"@.len() == 16);
    assert("anvil"@.len() == 5 && "anvil"@[0] == 'a');
    assert("beacon"@.len() == 6 && "beacon"@[0] == 'b');
    assert("villager"@.len() == 8);
}

/// How many slots of its own a window has.
pub proof fn law_windows_have_their_slots(kind: WindowKind, size: int)
    ensures
        ({
            let n = own_slots(kind, size).len();
            &&& kind is Player ==> n == 0
            &&& (kind matches WindowKind::Chest(rows) ==> n == rows * 9)
            &&& kind is Dispenser ==> n == 9
            &&& kind is Hopper ==> n == 5
            &&& kind is Furnace ==> n == 3
            &&& kind is Crafting ==> n == 10
            &&& kind is Brewing ==> n == 4
            &&& kind is Enchant ==> n == if size > 1 {
                size
            } else {
                1
            }
            &&& kind is Anvil ==> n == 3
            &&& kind is Beacon ==> n == 1
            &&& kind is Villager ==> n == 3
        }),
{
}

/// The slots of a window's own show its own places, in order.
pub proof fn law_own_slots_show_own_places(kind: WindowKind, size: int, i: int)
    requires
        0 <= i < own_slots(kind, size).len(),
        size <= 255,
    ensures
        own_slots(kind, size)[i].back == SlotBack::Container(i as usize),
{
}

/// Results are only taken: from the third slot of a furnace, an anvil and a trade, and from
/// the first of a crafting table. Bottles, what is enchanted and a beacon's price are single.
pub proof fn law_results_and_single_slots(kind: WindowKind, size: int, i: int)
    requires
        0 <= i < own_slots(kind, size).len(),
    ensures
        own_slots(kind, size)[i].kind == SlotKind::Output <==> (i == 2 && (kind is Furnace
            || kind is Anvil || kind is Villager)) || (i == 0 && kind is Crafting),
        own_slots(kind, size)[i].kind == SlotKind::Limit1 <==> kind is Enchant || kind is Beacon || (
        kind is Brewing && i < 3),
{
}

/// The player's slots stand in three rows of nine and a fourth below, eighteen apart, and
/// show the main places and then the hotbar.
pub proof fn law_player_rows_show_the_inventory(main_y: int, hot_y: int, i: int)
    requires
        0 <= i < 36,
        -10000 <= main_y <= 10000,
        -10000 <= hot_y <= 10000,
    ensures
        player_rows(main_y, hot_y).len() == 36,
        ({
            let slot = player_rows(main_y, hot_y)[i];
            &&& slot.back == SlotBack::Player((9 + i) as usize)
            &&& slot.kind == SlotKind::Normal
            &&& slot.x == 8 + 18 * (i % 9)
            &&& i < 27 ==> slot.y == main_y + 18 * (i / 9)
            &&& i >= 27 ==> slot.y == hot_y
        }),
{
}

/// The hotbar stands four pixels below the last main row, and the rows end seven pixels
/// above the lower edge.
pub proof fn law_the_hotbar_stands_apart(kind: WindowKind)
    ensures
        ({
            let (main_y, hot_y, x_size, y_size) = window_metrics(kind);
            &&& hot_y == main_y + 3 * 18 + 4
            &&& kind is Chest || kind is Hopper || kind is Player || kind is Furnace
                || kind is Crafting || kind is Brewing || kind is Enchant || kind is Anvil
                || kind is Villager || kind is Dispenser ==> x_size == 176
            &&& (kind matches WindowKind::Chest(rows) ==> main_y == 18 + 18 * rows + 13 && y_size
                == hot_y + 25)
            &&& !(kind is Chest) && !(kind is Beacon) ==> y_size == hot_y + 24
            &&& kind is Beacon ==> x_size == 230 && y_size == hot_y + 29
        }),
{
}

/// The player's window shows every place of the inventory at its own number: the result, a
/// grid of four, four single pieces of armor, and the rows.
pub proof fn law_the_players_window_shows_the_inventory(i: int)
    requires
        0 <= i < 45,
    ensures
        player_window_slots().len() == 45,
        player_window_slots()[i].back == SlotBack::Player(i as usize),
        player_window_slots()[i].kind == SlotKind::Output <==> i == 0,
        player_window_slots()[i].kind == SlotKind::Limit1 <==> 5 <= i < 9,
        5 <= i < 9 ==> player_window_slots()[i].x == 8 && player_window_slots()[i].y == 8 + 18 * (i
            - 5),
        1 <= i < 5 ==> player_window_slots()[i].x == 88 + 18 * ((i - 1) % 2)
            && player_window_slots()[i].y == 26 + 18 * ((i - 1) / 2),
        9 <= i < 36 ==> player_window_slots()[i].x == 8 + 18 * (i % 9)
            && player_window_slots()[i].y == 84 + 18 * (i / 9 - 1),
        36 <= i ==> player_window_slots()[i].x == 8 + 18 * (i - 36)
            && player_window_slots()[i].y == 142,
        i == 0 ==> player_window_slots()[i].y == 36 && player_window_slots()[i].x == 144,
{
    assert((i - 9) % 9 == i % 9 && (i - 9) / 9 == i / 9 - 1);
}

/// Two slots are drawn clear of each other.
pub open spec fn clear_of(a: Slot, b: Slot) -> bool {
    a.x >= b.x + 18 || b.x >= a.x + 18 || a.y >= b.y + 18 || b.y >= a.y + 18
}

proof fn lemma_rows_clear(main_y: int, i: int, j: int)
    requires
        0 <= i < j < 36,
        -9000 <= main_y <= 9000,
    ensures
        clear_of(player_rows(main_y, main_y + 58)[i], player_rows(main_y, main_y + 58)[j]),
{
    law_player_rows_show_the_inventory(main_y, main_y + 58, i);
    law_player_rows_show_the_inventory(main_y, main_y + 58, j);
    let (a, b) = (i / 9, j / 9);
    assert(i == 9 * a + i % 9 && j == 9 * b + j % 9);
}

proof fn lemma_threes_clear(first: int, x: int, y: int, i: int, j: int)
    requires
        0 <= i < j < 9,
        0 <= x <= 1000,
        0 <= y <= 1000,
    ensures
        clear_of(grid(first, 9, 3, x, y)[i], grid(first, 9, 3, x, y)[j]),
{
    let g = grid(first, 9, 3, x, y);
    assert(g[i].x == x + (i % 3) * 18 && g[i].y == y + (i / 3) * 18);
    assert(g[j].x == x + (j % 3) * 18 && g[j].y == y + (j / 3) * 18);
}

proof fn lemma_nines_clear(n: int, i: int, j: int)
    requires
        0 <= i < j < n <= 300,
    ensures
        clear_of(grid(0, n, 9, 8, 18)[i], grid(0, n, 9, 8, 18)[j]),
{
    let g = grid(0, n, 9, 8, 18);
    assert(g[i].x == 8 + (i % 9) * 18 && g[i].y == 18 + (i / 9) * 18);
    assert(g[j].x == 8 + (j % 9) * 18 && g[j].y == 18 + (j / 9) * 18);
}

proof fn lemma_own_above(kind: WindowKind, size: int, i: int)
    requires
        0 <= size <= 255,
        kind matches WindowKind::Chest(rows) ==> rows <= 29,
        0 <= i < own_slots(kind, size).len(),
    ensures
        own_slots(kind, size)[i].y + 18 <= window_metrics(kind).0,
{
    match kind {
        WindowKind::Chest(rows) => {
            assert(own_slots(kind, size)[i].y == 18 + (i / 9) * 18);
            assert(i / 9 <= rows - 1);
        },
        WindowKind::Dispenser => {
            assert(own_slots(kind, size)[i].y == 17 + (i / 3) * 18);
        },
        WindowKind::Hopper => {
            assert(own_slots(kind, size)[i].y == 20 + (i / 5) * 18);
        },
        WindowKind::Crafting => {
            if i > 0 {
                assert(own_slots(kind, size)[i] == grid(1, 9, 3, 30, 17)[i - 1]);
                assert(own_slots(kind, size)[i].y == 17 + ((i - 1) / 3) * 18);
            }
        },
        WindowKind::Enchant => {
            assert(own_slots(kind, size)[i].y == 47);
        },
        _ => {},
    }
}

proof fn lemma_own_clear(kind: WindowKind, size: int, i: int, j: int)
    requires
        0 <= size <= 255,
        kind matches WindowKind::Chest(rows) ==> rows <= 29,
        0 <= i < j < own_slots(kind, size).len(),
    ensures
        clear_of(own_slots(kind, size)[i], own_slots(kind, size)[j]),
{
    match kind {
        WindowKind::Chest(rows) => {
            lemma_nines_clear(rows * 9, i, j);
        },
        WindowKind::Dispenser => {
            lemma_threes_clear(0, 62, 17, i, j);
        },
        WindowKind::Hopper => {
            let own = own_slots(kind, size);
            assert(own[i].x == 44 + (i % 5) * 18 && own[j].x == 44 + (j % 5) * 18);
        },
        WindowKind::Crafting => {
            let own = own_slots(kind, size);
            assert(own[j] == grid(1, 9, 3, 30, 17)[j - 1]);
            if i > 0 {
                assert(own[i] == grid(1, 9, 3, 30, 17)[i - 1]);
                lemma_threes_clear(1, 30, 17, i - 1, j - 1);
            } else {
                assert(own[j].x == 30 + ((j - 1) % 3) * 18);
            }
        },
        WindowKind::Enchant => {
            let own = own_slots(kind, size);
            assert(own[i].x == 25 + i * 18 && own[j].x == 25 + j * 18);
        },
        _ => {},
    }
}

/// No slot is drawn over another: any two slots of an opened window are eighteen pixels
/// apart, one way or the other.
pub proof fn law_slots_do_not_overlap(kind: WindowKind, size: int, i: int, j: int)
    requires
        0 <= size <= 255,
        !(kind is Player),
        kind matches WindowKind::Chest(rows) ==> rows <= 29,
        0 <= i < j < own_slots(kind, size).len() + 36,
    ensures
        ({
            let slots = own_slots(kind, size) + player_rows(
                window_metrics(kind).0,
                window_metrics(kind).1,
            );
            clear_of(slots[i], slots[j])
        }),
{
    let main_y = window_metrics(kind).0;
    law_the_hotbar_stands_apart(kind);
    let own = own_slots(kind, size);
    let rows = player_rows(main_y, window_metrics(kind).1);
    let slots = own + rows;
    let n = own.len() as int;
    if i >= n {
        assert(slots[i] == rows[i - n] && slots[j] == rows[j - n]);
        lemma_rows_clear(main_y, i - n, j - n);
    } else {
        assert(slots[i] == own[i]);
        if j < n {
            assert(slots[j] == own[j]);
            lemma_own_clear(kind, size, i, j);
        } else {
            assert(slots[j] == rows[j - n]);
            lemma_own_above(kind, size, i);
            law_player_rows_show_the_inventory(main_y, window_metrics(kind).1, j - n);
        }
    }
}

// ── Offers ────────────────────────────────────────────────────────────────

/// A plain stack as it is written: item, count, wear and no tag, numbers with the higher
/// byte first.
pub open spec fn stack_bytes(hi: u8, lo: u8, count: u8, worn_hi: u8, worn_lo: u8) -> Seq<u8> {
    seq![hi, lo, count, worn_hi, worn_lo, 0u8]
}

/// The stack that those bytes are of.
pub open spec fn plain_stack(hi: u8, lo: u8, count: u8, worn_hi: u8, worn_lo: u8) -> ItemModel {
    ItemModel {
        id: hi * 256 + lo,
        count: count as int,
        damage: if worn_hi < 128 {
            worn_hi * 256 + worn_lo
        } else {
            worn_hi * 256 + worn_lo - 65536
        },
        nbt: None,
    }
}

/// Bytes stand in a message at a place.
pub open spec fn written_at(b: Seq<u8>, at: int, bytes: Seq<u8>) -> bool {
    &&& 0 <= at && at + bytes.len() <= b.len()
    &&& forall|i: int| 0 <= i < bytes.len() ==> b[at + i] == #[trigger] bytes[i]
}

/// A written stack is read back, and reading goes on behind it; a negative item is no stack.
pub proof fn law_stacks_read_back(
    b: Seq<u8>,
    at: int,
    hi: u8,
    lo: u8,
    count: u8,
    worn_hi: u8,
    worn_lo: u8,
)
    requires
        written_at(b, at, stack_bytes(hi, lo, count, worn_hi, worn_lo)),
    ensures
        hi < 128 ==> slot_at(b, at) == Some(
            (Some(plain_stack(hi, lo, count, worn_hi, worn_lo)), at + 6),
        ),
        hi >= 128 ==> slot_at(b, at) == Some((None::<ItemModel>, at + 2)),
{
    let bytes = stack_bytes(hi, lo, count, worn_hi, worn_lo);
    assert(b[at + 0] == bytes[0] && b[at + 1] == bytes[1] && b[at + 2] == bytes[2]);
    assert(b[at + 3] == bytes[3] && b[at + 4] == bytes[4] && b[at + 5] == bytes[5]);
    assert(b[at + 3 + 1] == bytes[4]);
}

/// A written offer is read back: the first stack is the cost, the second the goods, then
/// comes the second cost, if there is one, and whether the offer is closed; the two counters
/// behind are passed over.
pub proof fn law_offers_read_back(
    b: Seq<u8>,
    at: int,
    cost: (u8, u8, u8, u8, u8),
    goods: (u8, u8, u8, u8, u8),
    second: Option<(u8, u8, u8, u8, u8)>,
    closed: bool,
)
    requires
        cost.0 < 128,
        goods.0 < 128,
        second matches Some(s) ==> s.0 < 128,
        written_at(b, at, stack_bytes(cost.0, cost.1, cost.2, cost.3, cost.4)),
        written_at(b, at + 6, stack_bytes(goods.0, goods.1, goods.2, goods.3, goods.4)),
        second is None ==> written_at(b, at + 12, seq![0u8, closed as u8]) && at + 22 <= b.len(),
        second matches Some(s) ==> written_at(b, at + 12, seq![1u8]) && written_at(
            b,
            at + 13,
            stack_bytes(s.0, s.1, s.2, s.3, s.4),
        ) && written_at(b, at + 19, seq![closed as u8]) && at + 28 <= b.len(),
    ensures
        ({
            let end = if second is None {
                at + 22
            } else {
                at + 28
            };
            recipe_at(b, at) == Some(
                (
                    RecipeModel {
                        buy: plain_stack(cost.0, cost.1, cost.2, cost.3, cost.4),
                        buy_secondary: match second {
                            Some(s) => Some(plain_stack(s.0, s.1, s.2, s.3, s.4)),
                            None => None,
                        },
                        sell: plain_stack(goods.0, goods.1, goods.2, goods.3, goods.4),
                        disabled: closed,
                    },
                    end,
                ),
            )
        }),
{
    law_stacks_read_back(b, at, cost.0, cost.1, cost.2, cost.3, cost.4);
    law_stacks_read_back(b, at + 6, goods.0, goods.1, goods.2, goods.3, goods.4);
    match second {
        Some(s) => {
            law_stacks_read_back(b, at + 13, s.0, s.1, s.2, s.3, s.4);
            assert(b[at + 12 + 0] == seq![1u8][0]);
            assert(b[at + 19 + 0] == seq![closed as u8][0]);
        },
        None => {
            let flags = seq![0u8, closed as u8];
            assert(b[at + 12 + 0] == flags[0]);
            assert(b[at + 12 + 1] == flags[1]);
        },
    }
}

/// A list of offers starts with its window, four bytes, and its length, one; the offers
/// follow, each where the one before ends.
pub proof fn law_lists_of_offers_read_in_order(b: Seq<u8>, at: int, n: int)
    requires
        n > 0,
    ensures
        recipes_at(b, at, n) matches Some(all) ==> all.len() == n && (recipe_at(b, at)
            matches Some((first, next)) && all[0] == first && recipes_at(b, next, n - 1)
            == Some(all.skip(1))),
        recipe_at(b, at) is None ==> recipes_at(b, at, n) is None,
        b.len() >= 5 && b[0] == 0 && b[1] == 0 ==> (trade_list_at(b) matches Some((window, all))
            ==> window == b[2] * 256 + b[3] && all.len() == b[4]),
        b.len() < 5 ==> trade_list_at(b) is None,
    decreases n,
{
    if let Some(all) = recipes_at(b, at, n) {
        let (first, next) = recipe_at(b, at)->0;
        let rest = recipes_at(b, next, n - 1)->0;
        assert(all == seq![first] + rest);
        assert(all.skip(1) =~= rest);
    }
    lemma_offers_len(b, at, n);
    if b.len() >= 5 {
        lemma_offers_len(b, 5, b[4] as int);
    }
}

proof fn lemma_offers_len(b: Seq<u8>, at: int, n: int)
    requires
        n >= 0,
    ensures
        recipes_at(b, at, n) matches Some(all) ==> all.len() == n,
    decreases n,
{
    if n > 0 {
        if let Some((first, next)) = recipe_at(b, at) {
            lemma_offers_len(b, next, n - 1);
        }
    }
}

// ── Shapes ────────────────────────────────────────────────────────────────

/// The slots of a chest stand in rows of nine, eighteen apart, as wide as the player's and
/// starting a row below the window's top.
pub proof fn law_chests_are_grids(rows: u8, i: int)
    requires
        0 <= i < rows * 9,
    ensures
        ({
            let s = own_slots(WindowKind::Chest(rows), 0);
            &&& s[0].x == 8 && s[0].y == 18
            &&& i % 9 != 8 ==> s[i + 1].x == s[i].x + 18 && s[i + 1].y == s[i].y
            &&& i + 9 < rows * 9 ==> s[i + 9].x == s[i].x && s[i + 9].y == s[i].y + 18
            &&& rows >= 1 ==> s[8].x + 16 + 8 == window_metrics(WindowKind::Chest(rows)).2
        }),
{
    assert(i % 9 != 8 ==> (i + 1) % 9 == i % 9 + 1 && (i + 1) / 9 == i / 9);
    assert((i + 9) % 9 == i % 9 && (i + 9) / 9 == i / 9 + 1);
}

/// A dispenser's nine slots stand in a square in the middle of the window; those of a
/// crafting table stand in one to the left of the result, which is level with its middle.
/// A hopper's five stand in a row in the middle.
pub proof fn law_squares_and_rows_of_slots(i: int)
    requires
        0 <= i < 9,
    ensures
        ({
            let d = own_slots(WindowKind::Dispenser, 9);
            let c = own_slots(WindowKind::Crafting, 10);
            &&& i % 3 != 2 ==> d[i + 1].x == d[i].x + 18 && d[i + 1].y == d[i].y
            &&& i < 6 ==> d[i + 3].x == d[i].x && d[i + 3].y == d[i].y + 18
            &&& d[0].x + d[2].x + 16 == 176
            &&& d[0].y == 17
            &&& i % 3 != 2 ==> c[i + 2].x == c[i + 1].x + 18 && c[i + 2].y == c[i + 1].y
            &&& i < 6 ==> c[i + 4].x == c[i + 1].x && c[i + 4].y == c[i + 1].y + 18
            &&& c[0].y == c[5].y && c[0].x >= c[3].x + 58
            &&& c[1].x == 30 && c[1].y == d[0].y
        }),
        ({
            let h = own_slots(WindowKind::Hopper, 5);
            &&& i < 4 ==> h[i + 1].x == h[i].x + 18 && h[i + 1].y == h[i].y
            &&& h[0].x + h[4].x + 16 == 176
            &&& h[0].y == 20
        }),
{
}

/// A furnace's fuel lies two rows under what it smelts, and the result level with the flame
/// between them, to the right. The bottles of a brewing stand hang evenly to both sides of
/// the one under the ingredient, which hangs lowest.
pub proof fn law_furnaces_and_stands_are_even(size: int)
    ensures
        ({
            let f = own_slots(WindowKind::Furnace, size);
            let b = own_slots(WindowKind::Brewing, size);
            &&& f[0].x == f[1].x && f[1].y == f[0].y + 36
            &&& f[2].y == f[0].y + 18 && f[2].x == f[0].x + 60
            &&& b[3].x == b[1].x && b[0].y == b[2].y && b[1].y == b[0].y + 7
            &&& b[0].x + b[2].x == 2 * b[1].x && b[2].x == b[0].x + 46
            &&& b[3].y == f[0].y && b[1].y == f[1].y
            &&& b[1].x + 9 == 88 && f[0].x == b[0].x
        }),
{
}

/// What is put together and what comes of it stand in a row, the result to the right.
pub proof fn law_results_stand_to_the_right(size: int)
    ensures
        ({
            let a = own_slots(WindowKind::Anvil, size);
            let v = own_slots(WindowKind::Villager, size);
            &&& a[0].y == a[1].y && a[1].y == a[2].y
            &&& a[1].x - a[0].x == 49 && a[2].x - a[1].x == 58
            &&& v[0].y == v[1].y && v[1].y == v[2].y
            &&& v[1].x - v[0].x == 26 && v[2].x - v[1].x == 58
            &&& v[0].y == a[0].y + 5
        }),
{
}

} // verus!
