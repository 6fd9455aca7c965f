//! Item stacks: what a slot holds, which stacks merge, and how far they stack.

use vstd::prelude::*;

verus! {

/// A stack of items as it travels on the wire: item id, count, damage value and
/// the optional NBT payload, kept as the raw bytes of its tag.
#[derive(Debug, PartialEq, Eq)]
pub struct SlotItem {
    pub id: i16,
    pub count: u8,
    pub damage: i16,
    pub nbt: Option<Vec<u8>>,
}

/// The mathematical value of a [`SlotItem`].
pub struct ItemModel {
    pub id: int,
    pub count: int,
    pub damage: int,
    pub nbt: Option<Seq<u8>>,
}

impl ItemModel {
    /// The same stack with `n` items in it.
    pub open spec fn with_count(self, n: int) -> ItemModel {
        ItemModel { count: n, ..self }
    }

    /// The stack left when `n` items remain: nothing for zero.
    pub open spec fn remaining(self, n: int) -> Option<ItemModel> {
        if n > 0 {
            Some(self.with_count(n))
        } else {
            None
        }
    }
}

impl View for SlotItem {
    type V = ItemModel;

    open spec fn view(&self) -> ItemModel {
        ItemModel {
            id: self.id as int,
            count: self.count as int,
            damage: self.damage as int,
            nbt: match self.nbt {
                Some(bytes) => Some(bytes@),
                None => None,
            },
        }
    }
}

/// The value of an optional stack.
pub open spec fn stack_view(item: Option<SlotItem>) -> Option<ItemModel> {
    match item {
        Some(stack) => Some(stack@),
        None => None,
    }
}

/// The value of an inventory: the value of each of its places.
pub open spec fn inventory_view(items: Seq<Option<SlotItem>>) -> Seq<Option<ItemModel>> {
    Seq::new(items.len(), |i: int| stack_view(items[i]))
}

/// Item ids that do not stack: tools, weapons, armor, buckets and the like.
pub open spec fn spec_non_stackable(id: int) -> bool {
    ||| 256 <= id <= 259
    ||| id == 261
    ||| 267 <= id <= 279
    ||| 283 <= id <= 286
    ||| 290 <= id <= 294
    ||| 298 <= id <= 317
    ||| 325 <= id <= 327
    ||| id == 329
    ||| id == 333
    ||| id == 346
    ||| id == 359
    ||| id == 373
}

/// How many items of a kind fit in one stack.
pub open spec fn spec_max_stack(item: ItemModel) -> int {
    if spec_non_stackable(item.id) {
        1
    } else {
        64
    }
}

/// Two stacks merge when item id and damage agree; NBT is not compared.
pub open spec fn spec_stackable(a: ItemModel, b: ItemModel) -> bool {
    a.id == b.id && a.damage == b.damage
}

impl Clone for SlotItem {
    fn clone(&self) -> (copy: Self)
        ensures
            copy@ == self@,
    {
        let nbt = match &self.nbt {
            Some(bytes) => Some(copy_bytes(bytes)),
            None => None,
        };
        SlotItem { id: self.id, count: self.count, damage: self.damage, nbt }
    }
}

/// A copy of a byte string.
pub fn copy_bytes(bytes: &Vec<u8>) -> (copy: Vec<u8>)
    ensures
        copy@ == bytes@,
{
    let mut copy: Vec<u8> = Vec::with_capacity(bytes.len());
    let mut i: usize = 0;
    while i < bytes.len()
        invariant
            i <= bytes.len(),
            copy@ == bytes@.take(i as int),
        decreases bytes.len() - i,
    {
        copy.push(bytes[i]);
        i += 1;
        assert(bytes@.take(i as int) =~= bytes@.take(i - 1).push(bytes@[i - 1]));
    }
    assert(bytes@.take(i as int) =~= bytes@);
    copy
}

/// A copy of an optional stack.
pub fn copy_stack(item: &Option<SlotItem>) -> (copy: Option<SlotItem>)
    ensures
        stack_view(copy) == stack_view(*item),
{
    match item {
        Some(stack) => Some(stack.clone()),
        None => None,
    }
}

/// Whether two byte strings are equal.
pub fn same_bytes(a: &Vec<u8>, b: &Vec<u8>) -> (same: bool)
    ensures
        same == (a@ == b@),
{
    if a.len() != b.len() {
        return false;
    }
    let mut i: usize = 0;
    while i < a.len()
        invariant
            i <= a@.len(),
            a@.len() == b@.len(),
            forall|j: int| 0 <= j < i ==> a@[j] == b@[j],
        decreases a@.len() - i,
    {
        if a[i] != b[i] {
            return false;
        }
        i += 1;
    }
    assert(a@ =~= b@);
    true
}

/// Whether two optional stacks are equal, tags and all.
pub fn same_stack(a: &Option<SlotItem>, b: &Option<SlotItem>) -> (same: bool)
    ensures
        same == (stack_view(*a) == stack_view(*b)),
{
    match (a, b) {
        (Some(p), Some(q)) => p.id == q.id && p.count == q.count && p.damage == q.damage
            && match (&p.nbt, &q.nbt) {
            (Some(m), Some(n)) => same_bytes(m, n),
            (None, None) => true,
            _ => false,
        },
        (None, None) => true,
        _ => false,
    }
}

impl SlotItem {
    /// A stack without NBT.
    pub fn new(id: i16, count: u8, damage: i16) -> (item: SlotItem)
        ensures
            item@ == (ItemModel { id: id as int, count: count as int, damage: damage as int, nbt: None }),
    {
        SlotItem { id, count, damage, nbt: None }
    }

    /// A copy of this stack holding `n` items.
    pub fn with_count(&self, n: u8) -> (item: SlotItem)
        ensures
            item@ == self@.with_count(n as int),
    {
        let mut item = self.clone();
        item.count = n;
        item
    }

    /// A copy of this stack holding `n` items, or nothing when `n` is zero.
    pub fn remaining(&self, n: u8) -> (item: Option<SlotItem>)
        ensures
            stack_view(item) == self@.remaining(n as int),
    {
        if n > 0 {
            Some(self.with_count(n))
        } else {
            None
        }
    }
}

/// Two stacks merge only when id and damage match (NBT is not modelled).
pub fn stackable(a: &SlotItem, b: &SlotItem) -> (yes: bool)
    ensures
        yes == spec_stackable(a@, b@),
{
    a.id == b.id && a.damage == b.damage
}

/// The stack limit of an item: equipment caps at 1, everything else at 64.
pub fn max_stack(item: &SlotItem) -> (limit: u8)
    ensures
        limit == spec_max_stack(item@),
{
    if is_non_stackable(item.id) {
        1
    } else {
        64
    }
}

/// Item ids that stack to 1 (tools, weapons, armor, buckets, …).
pub fn is_non_stackable(id: i16) -> (yes: bool)
    ensures
        yes == spec_non_stackable(id as int),
{
    match id {
        256..=259
        | 261
        | 267..=279
        | 283..=286
        | 290..=294
        | 298..=317
        | 325..=327
        | 329
        | 333
        | 346
        | 359
        | 373 => true,
        _ => false,
    }
}

/// Merging is symmetric, and stacks that merge share their stack limit.
pub proof fn law_stackable_symmetric(a: ItemModel, b: ItemModel)
    ensures
        spec_stackable(a, b) == spec_stackable(b, a),
        spec_stackable(a, b) ==> spec_max_stack(a) == spec_max_stack(b),
{
}

} // verus!
