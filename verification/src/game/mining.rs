//! How long a block takes to break, and what state a placed block gets.

use vstd::prelude::*;
use crate::item::{ItemModel, SlotItem};
use crate::nbt::{
    be_i16, be_i32, be_u16, compound_end, entry_named, find_entry, in_bytes, read_i16, read_i32,
    read_u16, skip_compound, MAX_DEPTH, TAG_COMPOUND, TAG_LIST, TAG_SHORT,
};
use super::rules::{
    block_hardness, block_harvest_level, block_needs_tool, block_tool_class, is_sword,
    spec_block_tool_class, spec_hardness, spec_harvest_level, spec_needs_tool, spec_sword,
    spec_tool_props, tool_props, BlockState, ToolClass,
};

verus! {

/// The enchantment that makes tools dig faster.
pub const EFFICIENCY: i16 = 32;

/// The name of the enchantment list in an item tag: `ench`.
pub open spec fn ench_name() -> Seq<u8> {
    seq![101u8, 110u8, 99u8, 104u8]
}

/// The name of an enchantment's number: `id`.
pub open spec fn id_name() -> Seq<u8> {
    seq![105u8, 100u8]
}

/// The name of an enchantment's level: `lvl`.
pub open spec fn lvl_name() -> Seq<u8> {
    seq![108u8, 118u8, 108u8]
}

/// The 16-bit number called `name` among the entries at `at`.
pub open spec fn short_named(left: nat, b: Seq<u8>, at: int, name: Seq<u8>) -> Option<int> {
    match entry_named(left, b, at, name, None) {
        Some((tag, p)) => if tag == TAG_SHORT && in_bytes(b, p, 2) {
            Some(be_i16(b, p))
        } else {
            None
        },
        None => None,
    }
}

/// The level of the first efficiency enchantment among the `n` enchantments at
/// `at`.
pub open spec fn efficiency_among(left: nat, n: int, b: Seq<u8>, at: int) -> int
    decreases n,
{
    if n <= 0 {
        0
    } else if short_named(left, b, at, id_name()) == Some(EFFICIENCY as int) {
        match short_named(left, b, at, lvl_name()) {
            Some(level) => level,
            None => 0,
        }
    } else {
        match compound_end(left, b, at) {
            Some(next) => efficiency_among(left, n - 1, b, next),
            None => 0,
        }
    }
}

/// The efficiency level written in an item tag.
pub open spec fn efficiency_in(b: Seq<u8>) -> int {
    if in_bytes(b, 0, 3) && b[0] == TAG_COMPOUND && in_bytes(b, 3, be_u16(b, 1)) {
        match entry_named((MAX_DEPTH - 1) as nat, b, 3 + be_u16(b, 1), ench_name(), None) {
            Some((tag, p)) => if tag == TAG_LIST && in_bytes(b, p, 5) && b[p] == TAG_COMPOUND {
                efficiency_among((MAX_DEPTH - 3) as nat, be_i32(b, p + 1), b, p + 5)
            } else {
                0
            },
            None => 0,
        }
    } else {
        0
    }
}

/// The efficiency level of a stack: 0 without the enchantment.
pub open spec fn spec_efficiency(item: ItemModel) -> int {
    match item.nbt {
        Some(b) => efficiency_in(b),
        None => 0,
    }
}

/// Read the 16-bit number called `name` among the entries at `at`.
fn find_short(left: usize, b: &[u8], at: usize, name: &[u8]) -> (n: Option<i16>)
    requires
        at <= b@.len(),
    ensures
        match (n, short_named(left as nat, b@, at as int, name@)) {
            (Some(x), Some(y)) => x == y,
            (None, None) => true,
            _ => false,
        },
{
    match find_entry(left, b, at, name) {
        Some((tag, p)) => if tag == TAG_SHORT && b.len() - p >= 2 {
            Some(read_i16(b, p))
        } else {
            None
        },
        None => None,
    }
}

/// The level of the efficiency enchantment of a stack, 0 when absent.
pub fn efficiency_level(item: &SlotItem) -> (level: i32)
    ensures
        level == spec_efficiency(item@),
        -0x8000 <= level < 0x8000,
{
    let bytes = match &item.nbt {
        Some(bytes) => bytes,
        None => {
            return 0;
        },
    };
    let b = bytes.as_slice();
    if b.len() < 3 || b[0] != TAG_COMPOUND {
        return 0;
    }
    let name_len: usize = read_u16(b, 1) as usize;
    if b.len() - 3 < name_len {
        return 0;
    }
    let ench: Vec<u8> = vec![101u8, 110u8, 99u8, 104u8];
    let id: Vec<u8> = vec![105u8, 100u8];
    let lvl: Vec<u8> = vec![108u8, 118u8, 108u8];
    assert(ench@ =~= ench_name());
    assert(id@ =~= id_name());
    assert(lvl@ =~= lvl_name());
    let p = match find_entry(MAX_DEPTH - 1, b, 3 + name_len, ench.as_slice()) {
        Some((tag, p)) => {
            if tag != TAG_LIST || b.len() - p < 5 || b[p] != TAG_COMPOUND {
                return 0;
            }
            p
        },
        None => {
            return 0;
        },
    };
    let mut n: i32 = read_i32(b, p + 1);
    let mut at: usize = p + 5;
    while n > 0
        invariant
            b@ == bytes@,
            at <= b@.len(),
            id@ == id_name(),
            lvl@ == lvl_name(),
            item@.nbt == Some(bytes@),
            spec_efficiency(item@) == efficiency_among((MAX_DEPTH - 3) as nat, n as int, b@, at as int),
        decreases n,
    {
        if let Some(found) = find_short(MAX_DEPTH - 3, b, at, id.as_slice()) {
            if found == EFFICIENCY {
                return match find_short(MAX_DEPTH - 3, b, at, lvl.as_slice()) {
                    Some(level) => level as i32,
                    None => 0,
                };
            }
        }
        match skip_compound(MAX_DEPTH - 3, b, at) {
            Some(next) => {
                at = next;
                n -= 1;
            },
            None => {
                return 0;
            },
        }
    }
    0
}

// ── Digging ───────────────────────────────────────────────────────────────

/// The speed of a held tool on a block, in tenths of the bare hand's: a sword
/// cuts cobweb, shears cut cobweb, leaves and wool, other tools have the speed
/// of their tier on the blocks of their class.
pub open spec fn spec_tool_strength(item: ItemModel, block: BlockState) -> int {
    if spec_sword(item.id) {
        if block.id == 30 {
            150
        } else {
            15
        }
    } else if item.id == 359 {
        if block.id == 30 || block.id == 18 || block.id == 161 {
            150
        } else if block.id == 35 {
            50
        } else {
            10
        }
    } else {
        match spec_tool_props(item.id) {
            Some((class, speed, level)) => if spec_block_tool_class(block.id as int) == Some(class) {
                speed
            } else {
                10
            },
            None => 10,
        }
    }
}

/// The speed of a held tool on a block, in tenths of the bare hand's.
pub fn tool_strength(item: &SlotItem, block: BlockState) -> (tenths: i32)
    ensures
        tenths == spec_tool_strength(item@, block),
        0 < tenths <= 150,
{
    if is_sword(item.id) {
        return if block.id == 30 {
            150
        } else {
            15
        };
    }
    if item.id == 359 {
        return match block.id {
            30 | 18 | 161 => 150,
            35 => 50,
            _ => 10,
        };
    }
    match tool_props(item.id) {
        Some((class, speed, _)) => match block_tool_class(block.id) {
            Some(needed) => if needed == class {
                speed
            } else {
                10
            },
            None => 10,
        },
        None => 10,
    }
}

/// Whether a stack harvests a block: the block needs no tool, or the stack is a
/// pickaxe of a high enough tier.
pub open spec fn spec_can_harvest(held: Option<ItemModel>, block: BlockState) -> bool {
    !spec_needs_tool(block.id as int) || match held {
        Some(item) => match spec_tool_props(item.id) {
            Some((class, speed, level)) => class == ToolClass::Pickaxe && level
                >= spec_harvest_level(block.id as int),
            None => false,
        },
        None => false,
    }
}

/// Whether a stack harvests a block.
pub fn can_harvest_block(held: &Option<SlotItem>, block: BlockState) -> (yes: bool)
    ensures
        yes == spec_can_harvest(crate::item::stack_view(*held), block),
{
    if !block_needs_tool(block.id) {
        return true;
    }
    match held {
        Some(item) => match tool_props(item.id) {
            Some((class, _, level)) => class == ToolClass::Pickaxe && level
                >= block_harvest_level(block.id),
            None => false,
        },
        None => false,
    }
}

/// What the player's condition does to digging.
#[derive(Debug, Clone, Copy, PartialEq, Eq, Structural)]
pub struct Condition {
    /// The amplifier of the haste effect.
    pub haste: Option<i8>,
    /// The amplifier of the mining fatigue effect.
    pub fatigue: Option<i8>,
    pub on_ground: bool,
}

/// The share of its speed that mining fatigue leaves, as a fraction.
pub open spec fn fatigue_share(amplifier: int) -> (int, int) {
    if amplifier == 0 {
        (3, 10)
    } else if amplifier == 1 {
        (9, 100)
    } else if amplifier == 2 {
        (27, 10_000)
    } else {
        (81, 100_000)
    }
}

/// The dig speed against a block as a fraction: the tool's strength, to which
/// efficiency adds its level squared plus one on a block the tool works on;
/// haste adds a fifth per level, fatigue takes its share, and in the air a fifth
/// is left.
pub open spec fn spec_break_speed(
    held: Option<ItemModel>,
    block: BlockState,
    c: Condition,
) -> (int, int) {
    let strength = match held {
        Some(item) => spec_tool_strength(item, block),
        None => 10,
    };
    let level = match held {
        Some(item) => spec_efficiency(item),
        None => 0,
    };
    let tenths = if strength > 10 && level > 0 {
        strength + 10 * (level * level + 1)
    } else {
        strength
    };
    let haste = match c.haste {
        Some(amplifier) => 6 + amplifier,
        None => 5int,
    };
    let fatigue = match c.fatigue {
        Some(amplifier) => fatigue_share(amplifier as int),
        None => (1, 1),
    };
    (tenths * haste * fatigue.0, 50 * fatigue.1 * (if c.on_ground {
        1
    } else {
        5int
    }))
}

/// The dig speed against a block, as numerator and denominator.
pub fn break_speed(held: &Option<SlotItem>, block: BlockState, c: Condition) -> (speed: (i64, i64))
    ensures
        speed.0 == spec_break_speed(crate::item::stack_view(*held), block, c).0,
        speed.1 == spec_break_speed(crate::item::stack_view(*held), block, c).1,
        speed.0 <= 1_000_000_000_000_000,
        0 < speed.1 <= 25_000_000,
{
    let (strength, level): (i64, i64) = match held {
        Some(item) => (tool_strength(item, block) as i64, efficiency_level(item) as i64),
        None => (10, 0),
    };
    let mut tenths: i64 = strength;
    if strength > 10 && level > 0 {
        assert(0 < level * level <= 0x4000_0000) by (nonlinear_arith)
            requires
                0 < level < 0x8000,
        ;
        tenths = strength + 10 * (level * level + 1);
    }
    let haste: i64 = match c.haste {
        Some(amplifier) => 6 + amplifier as i64,
        None => 5,
    };
    let (num, den): (i64, i64) = match c.fatigue {
        Some(amplifier) => match amplifier {
            0 => (3, 10),
            1 => (9, 100),
            2 => (27, 10_000),
            _ => (81, 100_000),
        },
        None => (1, 1),
    };
    assert(-2_000_000_000_000 <= tenths * haste <= 2_000_000_000_000) by (nonlinear_arith)
        requires
            0 < tenths <= 11_000_000_000,
            -122 <= haste <= 133,
    ;
    let hasted: i64 = tenths * haste;
    assert(-200_000_000_000_000 <= hasted * num <= 200_000_000_000_000) by (nonlinear_arith)
        requires
            -2_000_000_000_000 <= hasted <= 2_000_000_000_000,
            0 < num <= 81,
    ;
    let speed: i64 = hasted * num;
    let ground: i64 = if c.on_ground {
        1
    } else {
        5
    };
    (speed, 50 * den * ground)
}

/// Ticks to break a block in survival: the least number, at least one, for which
/// that many ticks at the dig speed, divided by hardness and by 30 (100 for
/// blocks the stack does not harvest), add up to the whole block. Nothing for
/// blocks that never break.
pub open spec fn spec_break_ticks(
    held: Option<ItemModel>,
    block: BlockState,
    c: Condition,
) -> Option<int> {
    let hardness = spec_hardness(block.id as int);
    let (num, den) = spec_break_speed(held, block, c);
    if hardness < 0 || num <= 0 {
        None
    } else {
        let work = work_for(held, block, c);
        let ticks = (work + 100 * num - 1) / (100 * num);
        Some(if ticks < 1 {
            1
        } else {
            ticks
        })
    }
}

/// The work a block takes, in units of which a tick does a hundred per unit of
/// speed numerator.
pub open spec fn work_for(held: Option<ItemModel>, block: BlockState, c: Condition) -> int {
    let divisor = if spec_can_harvest(held, block) {
        30
    } else {
        100int
    };
    spec_hardness(block.id as int) * divisor * spec_break_speed(held, block, c).1
}

/// Ticks to break a block in survival; nothing for blocks that never break.
pub fn block_break_ticks(held: &Option<SlotItem>, block: BlockState, c: Condition) -> (ticks: Option<u64>)
    ensures
        match (ticks, spec_break_ticks(crate::item::stack_view(*held), block, c)) {
            (Some(n), Some(m)) => n == m && 1 <= n <= 20_000_000_000_000,
            (None, None) => true,
            _ => false,
        },
{
    let hardness: i64 = block_hardness(block.id) as i64;
    let (num, den) = break_speed(held, block, c);
    if hardness < 0 || num <= 0 {
        return None;
    }
    let divisor: i64 = if can_harvest_block(held, block) {
        30
    } else {
        100
    };
    assert(0 <= hardness * divisor <= 500_000) by (nonlinear_arith)
        requires
            0 <= hardness <= 5000,
            0 < divisor <= 100,
    ;
    let scaled: i64 = hardness * divisor;
    assert(0 <= scaled * den <= 12_500_000_000_000) by (nonlinear_arith)
        requires
            0 <= scaled <= 500_000,
            0 < den <= 25_000_000,
    ;
    let work: i64 = scaled * den;
    let per_tick: i64 = 100 * num;
    assert(0 <= (work + per_tick - 1) / (per_tick as int) <= work + per_tick) by (nonlinear_arith)
        requires
            0 <= work,
            0 < per_tick,
    ;
    assert((work + per_tick - 1) / (per_tick as int) <= work + 1) by (nonlinear_arith)
        requires
            0 <= work,
            0 < per_tick,
    ;
    let ticks: i64 = (work + per_tick - 1) / per_tick;
    Some(if ticks < 1 {
        1
    } else {
        ticks as u64
    })
}

/// The ticks to break a block do enough work, and one tick fewer would not: the
/// block breaks on the first tick at which the progress adds up to the whole.
pub proof fn law_break_ticks_are_least(held: Option<ItemModel>, block: BlockState, c: Condition)
    ensures
        spec_break_ticks(held, block, c) matches Some(n) ==> {
            &&& n >= 1
            &&& n * (100 * spec_break_speed(held, block, c).0) >= work_for(held, block, c)
            &&& n > 1 ==> (n - 1) * (100 * spec_break_speed(held, block, c).0) < work_for(
                held,
                block,
                c,
            )
        },
{
    let num = spec_break_speed(held, block, c).0;
    let work = work_for(held, block, c);
    if spec_hardness(block.id as int) >= 0 && num > 0 {
        let per = 100 * num;
        let q = (work + per - 1) / per;
        assert(q * per <= work + per - 1 < q * per + per) by (nonlinear_arith)
            requires
                per > 0,
                q == (work + per - 1) / per,
        ;
        assert((q - 1) * per == q * per - per) by (nonlinear_arith);
        if q < 1 {
            assert(q * per <= 0) by (nonlinear_arith)
                requires
                    q < 1,
                    per > 0,
            ;
        }
    }
}

/// Standing on the ground never makes a block take longer than in the air.
pub proof fn law_ground_digs_no_slower(held: Option<ItemModel>, block: BlockState, c: Condition)
    ensures
        match (
            spec_break_ticks(held, block, (Condition { on_ground: true, ..c })),
            spec_break_ticks(held, block, (Condition { on_ground: false, ..c })),
        ) {
            (Some(n), Some(m)) => n <= m,
            (None, None) => true,
            _ => false,
        },
{
    let on = Condition { on_ground: true, ..c };
    let off = Condition { on_ground: false, ..c };
    let (num, den) = spec_break_speed(held, block, on);
    assert(spec_break_speed(held, block, off).0 == num);
    assert(spec_break_speed(held, block, off).1 == 5 * den) by {
        let f = match c.fatigue {
            Some(amplifier) => fatigue_share(amplifier as int),
            None => (1, 1),
        };
        assert(50 * f.1 * 1 == den);
        assert(50 * f.1 * 5 == 5 * (50 * f.1 * 1)) by (nonlinear_arith);
    }
    let hardness = spec_hardness(block.id as int);
    if hardness >= 0 && num > 0 {
        let divisor: int = if spec_can_harvest(held, block) {
            30
        } else {
            100
        };
        let per = 100 * num;
        let a = work_for(held, block, on);
        let b = work_for(held, block, off);
        assert(0 < den);
        assert(0 <= a <= b) by (nonlinear_arith)
            requires
                a == hardness * divisor * den,
                b == hardness * divisor * (5 * den),
                hardness >= 0,
                divisor > 0,
                den > 0,
        ;
        assert((a + per - 1) / per <= (b + per - 1) / per) by (nonlinear_arith)
            requires
                0 <= a <= b,
                per > 0,
        ;
    }
}

// ── Placing ───────────────────────────────────────────────────────────────

/// How a block takes its state when placed.
#[derive(Debug, Clone, Copy, PartialEq, Eq, Structural)]
pub enum Shape {
    /// A full cube, whose state is the item's damage value.
    Cube,
    /// Stairs, oriented by the player and the cursor.
    Stairs,
    /// Fences and panes, which connect by themselves.
    Connecting,
    /// Anything whose placement is not predicted.
    Oriented,
}

/// Stairs face where the player looks: south 2, west 1, north 3, east 0. The
/// facing is the quarter turn from south.
pub open spec fn spec_stair_meta(facing: u8) -> u8 {
    if facing == 0 {
        2
    } else if facing == 1 {
        1
    } else if facing == 2 {
        3
    } else {
        0
    }
}

/// Stairs face where the player looks.
pub fn stair_facing_meta(facing: u8) -> (meta: u8)
    ensures
        meta == spec_stair_meta(facing),
{
    match facing {
        0 => 2,
        1 => 1,
        2 => 3,
        _ => 0,
    }
}

/// The axis of a log or hay bale from the clicked face.
pub open spec fn spec_pillar_axis(face: u8) -> u8 {
    if face <= 1 {
        0
    } else if face <= 3 {
        8
    } else {
        4
    }
}

/// Slabs and stairs fill the upper half when placed against an underside, or
/// against a side above its middle.
pub open spec fn spec_upper_half(face: u8, cursor_y: u8) -> bool {
    face == 0 || (face != 1 && cursor_y > 8)
}

/// The state a held block item is placed with; nothing where it is no block item
/// or its state is not predictable.
pub open spec fn spec_placement_state(
    id: i16,
    damage: i16,
    face: u8,
    facing: u8,
    cursor_y: u8,
    shape: Shape,
) -> Option<BlockState> {
    let dmg = damage as u8;
    let upper = spec_upper_half(face, cursor_y);
    if !(1 <= id <= 255) {
        None
    } else if id == 44 || id == 126 || id == 182 {
        Some(BlockState { id: id as u16, meta: (dmg & 7) | (if upper {
                8u8
            } else {
                0u8
            }) })
    } else if id == 17 || id == 162 || id == 170 {
        Some(BlockState { id: id as u16, meta: (dmg & 3) | spec_pillar_axis(face) })
    } else if shape == Shape::Stairs {
        Some(BlockState { id: id as u16, meta: spec_stair_meta(facing) | (if upper {
                4u8
            } else {
                0u8
            }) })
    } else if shape == Shape::Cube || shape == Shape::Connecting || id == 139 {
        Some(BlockState { id: id as u16, meta: dmg })
    } else {
        None
    }
}

/// The state a held block item is placed with.
pub fn placement_block_state(
    item: &SlotItem,
    face: u8,
    facing: u8,
    cursor_y: u8,
    shape: Shape,
) -> (state: Option<BlockState>)
    ensures
        state == spec_placement_state(item.id, item.damage, face, facing, cursor_y, shape),
{
    let raw = item.id;
    if raw < 1 || raw > 255 {
        return None;
    }
    let id: u16 = raw as u16;
    let dmg: u8 = #[verifier::truncate] (item.damage as u8);
    let upper = face == 0 || (face != 1 && cursor_y > 8);
    if id == 44 || id == 126 || id == 182 {
        let half: u8 = if upper {
            8
        } else {
            0
        };
        return Some(BlockState { id, meta: (dmg & 7) | half });
    }
    if id == 17 || id == 162 || id == 170 {
        let axis: u8 = if face <= 1 {
            0
        } else if face <= 3 {
            8
        } else {
            4
        };
        return Some(BlockState { id, meta: (dmg & 3) | axis });
    }
    if shape == Shape::Stairs {
        let half: u8 = if upper {
            4
        } else {
            0
        };
        return Some(BlockState { id, meta: stair_facing_meta(facing) | half });
    }
    if shape == Shape::Cube || shape == Shape::Connecting || id == 139 {
        return Some(BlockState { id, meta: dmg });
    }
    None
}

} // verus!
