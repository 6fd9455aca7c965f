//! Villager trade offers and the message that lists them.

use vstd::prelude::*;
use crate::item::{stack_view, ItemModel, SlotItem};
use crate::nbt::{be_i16, be_i32, in_bytes, read_i16, read_i32, root_end, skip_root};

verus! {

/// One villager trade offer. The interactive slots are server-driven; these
/// recipes only feed the trade preview row and the selection.
#[derive(Debug)]
pub struct MerchantRecipe {
    /// The first (primary) item the trade costs.
    pub buy: SlotItem,
    /// The optional second cost item.
    pub buy_secondary: Option<SlotItem>,
    /// The item the trade yields.
    pub sell: SlotItem,
    /// Whether the trade is locked out.
    pub disabled: bool,
}

/// The mathematical value of a [`MerchantRecipe`].
pub struct RecipeModel {
    pub buy: ItemModel,
    pub buy_secondary: Option<ItemModel>,
    pub sell: ItemModel,
    pub disabled: bool,
}

impl View for MerchantRecipe {
    type V = RecipeModel;

    open spec fn view(&self) -> RecipeModel {
        RecipeModel {
            buy: self.buy@,
            buy_secondary: stack_view(self.buy_secondary),
            sell: self.sell@,
            disabled: self.disabled,
        }
    }
}

/// The value of a list of offers.
pub open spec fn recipes_view(recipes: Seq<MerchantRecipe>) -> Seq<RecipeModel> {
    Seq::new(recipes.len(), |i: int| recipes[i]@)
}

// ── Wire form ─────────────────────────────────────────────────────────────

/// An item stack at `at`: a negative id for an empty slot, else id, count, damage
/// and an item tag, absent when its first byte is zero. The stack and where it
/// ends; nothing if the bytes are malformed.
pub open spec fn slot_at(b: Seq<u8>, at: int) -> Option<(Option<ItemModel>, int)> {
    if !in_bytes(b, at, 2) {
        None
    } else if be_i16(b, at) < 0 {
        Some((None, at + 2))
    } else if !in_bytes(b, at, 6) {
        None
    } else {
        let plain = ItemModel {
            id: be_i16(b, at),
            count: b[at + 2] as int,
            damage: be_i16(b, at + 3),
            nbt: None,
        };
        if b[at + 5] == 0 {
            Some((Some(plain), at + 6))
        } else {
            match root_end(b, at + 5) {
                Some(end) => Some(
                    (Some(ItemModel { nbt: Some(b.subrange(at + 5, end)), ..plain }), end),
                ),
                None => None,
            }
        }
    }
}

/// A stack at `at` that must not be empty.
pub open spec fn stack_at(b: Seq<u8>, at: int) -> Option<(ItemModel, int)> {
    match slot_at(b, at) {
        Some((Some(item), end)) => Some((item, end)),
        _ => None,
    }
}

/// The optional second cost at `at`: a flag byte, then a slot when it is set.
pub open spec fn second_cost_at(b: Seq<u8>, at: int) -> Option<(Option<ItemModel>, int)> {
    if !in_bytes(b, at, 1) {
        None
    } else if b[at] != 0 {
        slot_at(b, at + 1)
    } else {
        Some((None, at + 1))
    }
}

/// One offer at `at`: cost, yield, optional second cost, a disabled flag, and the
/// use counters, which are not kept.
pub open spec fn recipe_at(b: Seq<u8>, at: int) -> Option<(RecipeModel, int)> {
    match stack_at(b, at) {
        None => None,
        Some((buy, at1)) => match stack_at(b, at1) {
            None => None,
            Some((sell, at2)) => match second_cost_at(b, at2) {
                None => None,
                Some((buy_secondary, at3)) => if in_bytes(b, at3, 9) {
                    Some(
                        (
                            RecipeModel { buy, buy_secondary, sell, disabled: b[at3] != 0 },
                            at3 + 9,
                        ),
                    )
                } else {
                    None
                },
            },
        },
    }
}

/// `n` offers in a row from `at`.
pub open spec fn recipes_at(b: Seq<u8>, at: int, n: int) -> Option<Seq<RecipeModel>>
    decreases n,
{
    if n <= 0 {
        Some(Seq::empty())
    } else {
        match recipe_at(b, at) {
            None => None,
            Some((first, next)) => match recipes_at(b, next, n - 1) {
                None => None,
                Some(rest) => Some(seq![first] + rest),
            },
        }
    }
}

/// The trade list message: window id, offer count, the offers.
pub open spec fn trade_list_at(b: Seq<u8>) -> Option<(int, Seq<RecipeModel>)> {
    if !in_bytes(b, 0, 5) {
        None
    } else {
        match recipes_at(b, 5, b[4] as int) {
            None => None,
            Some(recipes) => Some((be_i32(b, 0), recipes)),
        }
    }
}

// ── Reading ───────────────────────────────────────────────────────────────

/// Read an item stack in wire form at `at`.
pub fn read_slot(b: &[u8], at: usize) -> (slot: Option<(Option<SlotItem>, usize)>)
    requires
        at <= b@.len(),
    ensures
        match (slot, slot_at(b@, at as int)) {
            (Some((item, end)), Some((value, stop))) => stack_view(item) == value && end == stop
                && at <= end <= b@.len(),
            (None, None) => true,
            _ => false,
        },
{
    let left: usize = b.len() - at;
    if left < 2 {
        return None;
    }
    let id = read_i16(b, at);
    if id < 0 {
        return Some((None, at + 2));
    }
    if left < 6 {
        return None;
    }
    let count = b[at + 2];
    let damage = read_i16(b, at + 3);
    if b[at + 5] == 0 {
        return Some((Some(SlotItem { id, count, damage, nbt: None }), at + 6));
    }
    match skip_root(b, at + 5) {
        Some(end) => {
            let mut bytes: Vec<u8> = Vec::new();
            let mut i: usize = at + 5;
            while i < end
                invariant
                    at + 5 <= i <= end <= b@.len(),
                    bytes@ == b@.subrange(at + 5, i as int),
                decreases end - i,
            {
                bytes.push(b[i]);
                i += 1;
                assert(b@.subrange(at + 5, i as int) =~= b@.subrange(at + 5, i - 1).push(
                    b@[i - 1],
                ));
            }
            Some((Some(SlotItem { id, count, damage, nbt: Some(bytes) }), end))
        },
        None => None,
    }
}

/// Read one offer at `at`.
fn read_recipe(b: &[u8], at: usize) -> (recipe: Option<(MerchantRecipe, usize)>)
    requires
        at <= b@.len(),
    ensures
        match (recipe, recipe_at(b@, at as int)) {
            (Some((r, end)), Some((value, stop))) => r@ == value && end == stop && at <= end
                <= b@.len(),
            (None, None) => true,
            _ => false,
        },
{
    let (buy, at1) = match read_slot(b, at) {
        Some((Some(item), end)) => (item, end),
        _ => {
            return None;
        },
    };
    let (sell, at2) = match read_slot(b, at1) {
        Some((Some(item), end)) => (item, end),
        _ => {
            return None;
        },
    };
    if at2 >= b.len() {
        return None;
    }
    let (buy_secondary, at3) = if b[at2] != 0 {
        match read_slot(b, at2 + 1) {
            Some((item, end)) => (item, end),
            None => {
                return None;
            },
        }
    } else {
        (None, at2 + 1)
    };
    if b.len() - at3 < 9 {
        return None;
    }
    Some((MerchantRecipe { buy, buy_secondary, sell, disabled: b[at3] != 0 }, at3 + 9))
}

/// Parse a trade list message: window id, offer count, then per offer the cost,
/// the yield, an optional second cost, a disabled flag and the use counters.
/// Returns the window id and the offers, or `None` if the bytes are malformed.
pub fn parse_trade_list(data: &[u8]) -> (list: Option<(i32, Vec<MerchantRecipe>)>)
    ensures
        match (list, trade_list_at(data@)) {
            (Some((window, recipes)), Some((id, values))) => window == id && recipes_view(
                recipes@,
            ) == values,
            (None, None) => true,
            _ => false,
        },
{
    if data.len() < 5 {
        return None;
    }
    let window_id = read_i32(data, 0);
    let count: usize = data[4] as usize;
    let mut trades: Vec<MerchantRecipe> = Vec::with_capacity(count);
    let mut at: usize = 5;
    let mut k: usize = 0;
    proof {
        assert(recipes_view(trades@) =~= Seq::<RecipeModel>::empty());
        if let Some(rest) = recipes_at(data@, 5, count as int) {
            assert(Seq::<RecipeModel>::empty() + rest =~= rest);
        }
    }
    while k < count
        invariant
            k <= count,
            at <= data@.len(),
            count == data@[4],
            in_bytes(data@, 0, 5),
            recipes_at(data@, 5, count as int) == match recipes_at(
                data@,
                at as int,
                count - k,
            ) {
                Some(rest) => Some(recipes_view(trades@) + rest),
                None => None,
            },
        decreases count - k,
    {
        let ghost before = recipes_view(trades@);
        match read_recipe(data, at) {
            Some((recipe, next)) => {
                let ghost first = recipe@;
                trades.push(recipe);
                at = next;
                k += 1;
                proof {
                    assert(recipes_view(trades@) =~= before.push(first));
                    if let Some(rest) = recipes_at(data@, at as int, count - k) {
                        assert(before + (seq![first] + rest) =~= recipes_view(trades@) + rest);
                    }
                }
            },
            None => {
                return None;
            },
        }
    }
    proof {
        assert(recipes_view(trades@) + Seq::<RecipeModel>::empty() =~= recipes_view(trades@));
    }
    Some((window_id, trades))
}

} // verus!
