//! Item tags read as they are written: an enchanted tool is as efficient as its tag says.

use vstd::prelude::*;
use crate::item::{spec_max_stack, spec_stackable, ItemModel};
use crate::nbt::{
    be_i16, be_i32, be_u16, compound_end, entry_end, entry_named, list_end, payload_end, root_end,
};
use super::mining::{
    ench_name, efficiency_among, efficiency_in, id_name, lvl_name, short_named, spec_efficiency,
};

verus! {

/// The tag of an item with one enchantment: its number and its level, two bytes each, the
/// higher first.
pub open spec fn enchanted_tag(id_hi: u8, id_lo: u8, hi: u8, lo: u8) -> Seq<u8> {
    seq![
        10u8, 0u8, 0u8, 9u8, 0u8, 4u8, 101u8, 110u8, 99u8, 104u8, 10u8, 0u8, 0u8, 0u8, 1u8, 2u8, 0u8,
        2u8, 105u8, 100u8, id_hi, id_lo, 2u8, 0u8, 3u8, 108u8, 118u8, 108u8, hi, lo, 0u8, 0u8,
    ]
}

/// Numbers are read with the higher byte first; sixteen bits from the upper half are
/// negative.
pub proof fn law_numbers_are_read_high_byte_first(b: Seq<u8>, at: int)
    requires
        0 <= at,
        at + 4 <= b.len(),
    ensures
        be_u16(b, at) == b[at] * 256 + b[at + 1],
        b[at] < 128 ==> be_i16(b, at) == b[at] * 256 + b[at + 1],
        b[at] >= 128 ==> be_i16(b, at) == b[at] * 256 + b[at + 1] - 65536,
        b[at] < 128 ==> be_i32(b, at) == ((b[at] * 256 + b[at + 1]) * 256 + b[at + 2]) * 256 + b[at
            + 3],
        b[at] >= 128 ==> be_i32(b, at) < 0,
{
}

/// Plain numbers of a tag take one, two, four or eight bytes, as their type says.
pub proof fn law_numbers_take_their_bytes(left: nat, b: Seq<u8>, at: int)
    requires
        0 <= at,
        at + 8 <= b.len(),
    ensures
        payload_end(1, left, b, at) == Some(at + 1),
        payload_end(2, left, b, at) == Some(at + 2),
        payload_end(3, left, b, at) == Some(at + 4),
        payload_end(5, left, b, at) == Some(at + 4),
        payload_end(4, left, b, at) == Some(at + 8),
        payload_end(6, left, b, at) == Some(at + 8),
        payload_end(0, left, b, at) is None,
        payload_end(12, left, b, at) is None,
{
}

proof fn lemma_tag(id_hi: u8, id_lo: u8, hi: u8, lo: u8, outer: nat, inner: nat)
    requires
        outer == inner + 2,
    ensures
        ({
            let b = enchanted_tag(id_hi, id_lo, hi, lo);
            &&& compound_end(inner, b, 15) == Some(31int)
            &&& entry_end(outer, b, 3) == Some(31int)
            &&& entry_end(inner, b, 15) == Some(22int)
            &&& entry_end(inner, b, 22) == Some(30int)
        }),
{
    let b = enchanted_tag(id_hi, id_lo, hi, lo);
    assert(b.len() == 32);
    assert(be_u16(b, 16) == 2);
    assert(payload_end(2, inner, b, 20) == Some(22int));
    assert(entry_end(inner, b, 15) == Some(22int));
    assert(be_u16(b, 23) == 3);
    assert(payload_end(2, inner, b, 28) == Some(30int));
    assert(entry_end(inner, b, 22) == Some(30int));
    assert(compound_end(inner, b, 30) == Some(31int));
    assert(compound_end(inner, b, 22) == Some(31int));
    assert(compound_end(inner, b, 15) == Some(31int));
    let mid = (inner + 1) as nat;
    assert(payload_end(10, mid, b, 15) == Some(31int));
    assert(list_end(10, mid, 0, b, 31) == Some(31int));
    assert(list_end(10, mid, 1, b, 15) == Some(31int));
    assert(be_i32(b, 11) == 1);
    assert(payload_end(9, outer, b, 10) == Some(31int));
    assert(be_u16(b, 4) == 4);
    assert(entry_end(outer, b, 3) == Some(31int));
}

proof fn lemma_short(id_hi: u8, id_lo: u8, hi: u8, lo: u8, inner: nat)
    ensures
        ({
            let b = enchanted_tag(id_hi, id_lo, hi, lo);
            &&& short_named(inner, b, 15, id_name()) == Some(be_i16(b, 20))
            &&& short_named(inner, b, 15, lvl_name()) == Some(be_i16(b, 28))
        }),
{
    let b = enchanted_tag(id_hi, id_lo, hi, lo);
    lemma_tag(id_hi, id_lo, hi, lo, inner + 2, inner);
    assert(be_u16(b, 16) == 2 && be_u16(b, 23) == 3);
    let first = b.subrange(18, 20);
    let second = b.subrange(25, 28);
    assert(first =~= id_name());
    assert(second =~= lvl_name());
    assert(id_name().len() == 2 && lvl_name().len() == 3);
    let id_at = Some((2u8, 20int));
    let lvl_at = Some((2u8, 28int));
    assert(entry_named(inner, b, 30, id_name(), id_at) == id_at);
    assert(entry_named(inner, b, 22, id_name(), id_at) == id_at);
    assert(entry_named(inner, b, 15, id_name(), None) == id_at);
    assert(entry_named(inner, b, 30, lvl_name(), lvl_at) == lvl_at);
    assert(entry_named(inner, b, 22, lvl_name(), None) == lvl_at);
    assert(entry_named(inner, b, 15, lvl_name(), None) == lvl_at);
}

/// A tool whose tag names efficiency has the level written there; another enchantment gives
/// none.
pub proof fn law_efficiency_is_read_as_written(id_hi: u8, id_lo: u8, hi: u8, lo: u8)
    requires
        hi < 128,
        id_hi < 128,
    ensures
        id_hi == 0 && id_lo == 32 ==> efficiency_in(enchanted_tag(id_hi, id_lo, hi, lo)) == hi * 256
            + lo,
        !(id_hi == 0 && id_lo == 32) ==> efficiency_in(enchanted_tag(id_hi, id_lo, hi, lo)) == 0,
        root_end(enchanted_tag(id_hi, id_lo, hi, lo), 0) == Some(32int),
{
    let b = enchanted_tag(id_hi, id_lo, hi, lo);
    lemma_tag(id_hi, id_lo, hi, lo, 511, 509);
    lemma_short(id_hi, id_lo, hi, lo, 509);
    assert(be_u16(b, 1) == 0);
    assert(be_u16(b, 4) == 4);
    let here = b.subrange(6, 10);
    assert(here =~= ench_name());
    let at = Some((9u8, 10int));
    assert(entry_named(511, b, 31, ench_name(), at) == at);
    assert(entry_named(511, b, 3, ench_name(), None) == at);
    assert(be_i32(b, 11) == 1);
    assert(be_i16(b, 20) == id_hi * 256 + id_lo);
    assert(be_i16(b, 28) == hi * 256 + lo);
    assert(efficiency_among(509, 0, b, 31) == 0);
    assert(efficiency_in(b) == efficiency_among(509, 1, b, 15));
    assert(compound_end(511, b, 31) == Some(32int));
    assert(compound_end(511, b, 3) == Some(32int));
    assert(payload_end(10, 512, b, 3) == Some(32int));
}

/// A stack without a tag, or with an empty one, is not enchanted.
pub proof fn law_plain_stacks_are_not_enchanted(item: ItemModel)
    ensures
        item.nbt is None ==> spec_efficiency(item) == 0,
        item.nbt == Some(seq![10u8, 0u8, 0u8, 0u8]) ==> spec_efficiency(item) == 0,
{
    let b = seq![10u8, 0u8, 0u8, 0u8];
    assert(be_u16(b, 1) == 0);
    assert(entry_named(511, b, 3, ench_name(), None) is None);
}

/// Stacks of one item and wear go together, whatever their counts; of another item or wear
/// they do not.
pub proof fn law_like_stacks_go_together(a: ItemModel, b: ItemModel, n: int)
    ensures
        spec_stackable(a, b) <==> a.id == b.id && a.damage == b.damage,
        spec_stackable(a, a.with_count(n)),
        spec_max_stack(a.with_count(n)) == spec_max_stack(a),
        a.with_count(n).count == n,
        a.with_count(n).id == a.id && a.with_count(n).damage == a.damage && a.with_count(n).nbt
            == a.nbt,
        n > 0 ==> a.remaining(n) == Some(a.with_count(n)),
        n <= 0 ==> a.remaining(n) is None,
{
}

/// Tools, blades, armor, buckets and potions do not stack; blocks and most items stack to
/// sixty-four.
pub proof fn law_tools_do_not_stack(item: ItemModel)
    ensures
        0 <= item.id < 256 ==> spec_max_stack(item) == 64,
        267 <= item.id <= 279 || 256 <= item.id <= 259 || 283 <= item.id <= 286 || 290 <= item.id
            <= 294 ==> spec_max_stack(item) == 1,
        298 <= item.id <= 317 ==> spec_max_stack(item) == 1,
        325 <= item.id <= 327 || item.id == 261 || item.id == 346 || item.id == 359 || item.id == 373
            ==> spec_max_stack(item) == 1,
        260 == item.id || 262 <= item.id <= 266 || 280 <= item.id <= 282 || 318 <= item.id <= 324
            || 330 <= item.id <= 332 || 334 <= item.id <= 345 ==> spec_max_stack(item) == 64,
{
}

} // verus!
