//! What makes digging faster or slower, which tools are for what, and how placed blocks
//! come to stand.

use vstd::prelude::*;
use crate::item::{spec_max_stack, ItemModel};
use super::mining::{
    spec_break_speed, spec_break_ticks, spec_can_harvest, spec_efficiency, spec_placement_state,
    spec_tool_strength, work_for, Condition, Shape,
};
use super::rules::{
    spec_armor_points, spec_block_tool_class, spec_face_offset, spec_food, spec_hardness,
    spec_harvest_level, spec_interactable, spec_needs_tool, spec_replaceable, spec_sword,
    spec_tool_props, spec_use_action, BlockState, ItemUseAction, ToolClass,
};

verus! {

// ── Speed ─────────────────────────────────────────────────────────────────

/// The bare hand without effects on the ground is the measure of dig speed, and a stack
/// without the enchantment is as many tenths of it as its tool has strength.
pub proof fn law_the_bare_hand_is_the_measure(item: ItemModel, block: BlockState, c: Condition)
    requires
        c.haste is None,
        c.fatigue is None,
        c.on_ground,
        spec_efficiency(item) <= 0,
    ensures
        ({
            let (hand, of) = spec_break_speed(None, block, c);
            let (num, den) = spec_break_speed(Some(item), block, c);
            &&& hand == of && hand > 0
            &&& den == of
            &&& 10 * num == spec_tool_strength(item, block) * hand
        }),
{
}

/// Efficiency of level `n` on a block that the tool works on raises the dig speed by the
/// bare hand's `n * n + 1` times, over the same tool without it; whatever the effects.
pub proof fn law_efficiency_adds_its_square_and_one(
    item: ItemModel,
    plain: ItemModel,
    block: BlockState,
    c: Condition,
    n: int,
)
    requires
        item.id == plain.id,
        spec_efficiency(item) == n,
        n > 0,
        spec_efficiency(plain) == 0,
        spec_tool_strength(plain, block) > 10,
    ensures
        ({
            let (hand, of) = spec_break_speed(None, block, c);
            let (with, den) = spec_break_speed(Some(item), block, c);
            let (without, same) = spec_break_speed(Some(plain), block, c);
            &&& den == of && same == of
            &&& with - without == (n * n + 1) * hand
        }),
{
    let s = spec_tool_strength(plain, block);
    assert(spec_tool_strength(item, block) == s);
    let haste = match c.haste {
        Some(amplifier) => 6 + amplifier,
        None => 5int,
    };
    let f = match c.fatigue {
        Some(amplifier) => super::mining::fatigue_share(amplifier as int),
        None => (1, 1),
    };
    let k = n * n + 1;
    assert((s + 10 * k) * haste * f.0 - s * haste * f.0 == k * (10 * haste * f.0))
        by (nonlinear_arith);
}

/// On a block that the tool does not work on, efficiency of any level changes nothing; nor
/// does a level of zero or less anywhere.
pub proof fn law_efficiency_needs_a_working_tool(
    item: ItemModel,
    plain: ItemModel,
    block: BlockState,
    c: Condition,
)
    requires
        item.id == plain.id,
        spec_efficiency(plain) == 0,
        spec_tool_strength(plain, block) <= 10 || spec_efficiency(item) <= 0,
    ensures
        spec_break_speed(Some(item), block, c) == spec_break_speed(Some(plain), block, c),
{
    assert(spec_tool_strength(item, block) == spec_tool_strength(plain, block));
}

/// Haste adds a fifth of the speed per level, the first included.
pub proof fn law_haste_adds_fifths(
    held: Option<ItemModel>,
    block: BlockState,
    c: Condition,
    amplifier: i8,
)
    ensures
        ({
            let (num, den) = spec_break_speed(held, block, (Condition { haste: None, ..c }));
            let (more, of) = spec_break_speed(
                held,
                block,
                (Condition { haste: Some(amplifier), ..c }),
            );
            of == den && 5 * more == num * (5 + (amplifier + 1))
        }),
{
    let (num, den) = spec_break_speed(held, block, (Condition { haste: None, ..c }));
    let strength = match held {
        Some(item) => spec_tool_strength(item, block),
        None => 10,
    };
    let level = match held {
        Some(item) => spec_efficiency(item),
        None => 0,
    };
    let tenths = if strength > 10 && level > 0 {
        strength + 10 * (level * level + 1)
    } else {
        strength
    };
    let f = match c.fatigue {
        Some(amplifier) => super::mining::fatigue_share(amplifier as int),
        None => (1, 1),
    };
    let h = 6 + amplifier;
    assert(5 * (tenths * h * f.0) == (tenths * 5 * f.0) * h) by (nonlinear_arith);
}

/// Fatigue leaves three tenths of the speed at its first level, nine hundredths at the
/// second, 27 ten-thousandths at the third and 81 hundred-thousandths past it.
pub proof fn law_fatigue_leaves_a_share(
    held: Option<ItemModel>,
    block: BlockState,
    c: Condition,
    amplifier: i8,
)
    requires
        amplifier >= 0,
    ensures
        ({
            let (num, den) = spec_break_speed(held, block, (Condition { fatigue: None, ..c }));
            let (less, of) = spec_break_speed(
                held,
                block,
                (Condition { fatigue: Some(amplifier), ..c }),
            );
            &&& amplifier == 0 ==> less == 3 * num && of == 10 * den
            &&& amplifier == 1 ==> less == 9 * num && of == 100 * den
            &&& amplifier == 2 ==> less == 27 * num && of == 10_000 * den
            &&& amplifier >= 3 ==> less == 81 * num && of == 100_000 * den
        }),
{
    let strength = match held {
        Some(item) => spec_tool_strength(item, block),
        None => 10,
    };
    let level = match held {
        Some(item) => spec_efficiency(item),
        None => 0,
    };
    let tenths = if strength > 10 && level > 0 {
        strength + 10 * (level * level + 1)
    } else {
        strength
    };
    let h = match c.haste {
        Some(amplifier) => 6 + amplifier,
        None => 5int,
    };
    let f = super::mining::fatigue_share(amplifier as int);
    assert(tenths * h * f.0 == f.0 * (tenths * h * 1)) by (nonlinear_arith);
    let g = if c.on_ground {
        1
    } else {
        5int
    };
    assert(50 * f.1 * g == f.1 * (50 * 1 * g)) by (nonlinear_arith);
}

/// In the air a fifth of the speed is left.
pub proof fn law_a_fifth_is_left_in_the_air(
    held: Option<ItemModel>,
    block: BlockState,
    c: Condition,
)
    ensures
        ({
            let (num, den) = spec_break_speed(held, block, (Condition { on_ground: true, ..c }));
            let (same, of) = spec_break_speed(held, block, (Condition { on_ground: false, ..c }));
            same == num && of == 5 * den
        }),
{
    let f = match c.fatigue {
        Some(amplifier) => super::mining::fatigue_share(amplifier as int),
        None => (1, 1),
    };
    assert(50 * f.1 * 5 == 5 * (50 * f.1 * 1)) by (nonlinear_arith);
}

// ── Ticks ─────────────────────────────────────────────────────────────────

/// A block takes the least whole number of ticks, at least one, in which the dig speed gets
/// through its hardness: 30 times that for a stack that harvests it, 100 times else. Hardness
/// is in hundredths.
pub proof fn law_ticks_get_through_the_hardness(
    held: Option<ItemModel>,
    block: BlockState,
    c: Condition,
    n: int,
)
    requires
        spec_break_ticks(held, block, c) == Some(n),
    ensures
        ({
            let (num, den) = spec_break_speed(held, block, c);
            let times = if spec_can_harvest(held, block) {
                30int
            } else {
                100
            };
            let needed = spec_hardness(block.id as int) * times * den;
            &&& n >= 1
            &&& 100 * num * n >= needed
            &&& n > 1 ==> 100 * num * (n - 1) < needed
        }),
{
    super::mining::law_break_ticks_are_least(held, block, c);
    let num = spec_break_speed(held, block, c).0;
    assert(100 * num * n == n * (100 * num)) by (nonlinear_arith);
    assert(100 * num * (n - 1) == (n - 1) * (100 * num)) by (nonlinear_arith);
}

/// Every block breaks with any speed above none, but for those that never do, whatever is
/// held.
pub proof fn law_only_unbreakable_blocks_never_break(
    held: Option<ItemModel>,
    block: BlockState,
    c: Condition,
)
    ensures
        spec_break_ticks(held, block, c) is None <==> spec_hardness(block.id as int) < 0
            || spec_break_speed(held, block, c).0 <= 0,
        block.id == 7 || block.spec_liquid() ==> spec_break_ticks(held, block, c) is None,
{
}

/// A block of no hardness breaks in one tick.
pub proof fn law_soft_blocks_break_at_once(
    held: Option<ItemModel>,
    block: BlockState,
    c: Condition,
)
    requires
        spec_hardness(block.id as int) == 0,
        spec_break_speed(held, block, c).0 > 0,
    ensures
        spec_break_ticks(held, block, c) == Some(1int),
{
    let (num, den) = spec_break_speed(held, block, c);
    let d = if spec_can_harvest(held, block) {
        30int
    } else {
        100
    };
    assert(0 * d * den == 0) by (nonlinear_arith);
    assert(work_for(held, block, c) == 0);
    assert((0 + 100 * num - 1) / (100 * num) == 0) by (nonlinear_arith)
        requires
            num > 0,
    ;
}

// ── Tools ─────────────────────────────────────────────────────────────────

/// A pickaxe, shovel or axe has the speed of its tier on the blocks of its class, and the
/// bare hand's on all others.
pub proof fn law_tools_work_on_their_own_blocks(item: ItemModel, block: BlockState)
    requires
        spec_tool_props(item.id) matches Some((class, speed, level)) && (class
            == ToolClass::Pickaxe || class == ToolClass::Shovel || class == ToolClass::Axe),
    ensures
        ({
            let (class, speed, level) = spec_tool_props(item.id)->0;
            let works = spec_block_tool_class(block.id as int) == Some(class);
            &&& works ==> spec_tool_strength(item, block) == speed
            &&& !works ==> spec_tool_strength(item, block) == 10
        }),
{
}

/// A sword cuts cobweb and little else, shears cut cobweb, leaves and wool; what is no tool
/// digs like the hand.
pub proof fn law_blades_cut(item: ItemModel, block: BlockState)
    ensures
        spec_sword(item.id) ==> spec_tool_strength(item, block) == if block.id == 30 {
            150int
        } else {
            15
        },
        item.id == 359 ==> spec_tool_strength(item, block) == if block.id == 30 || block.id == 18
            || block.id == 161 {
            150int
        } else if block.id == 35 {
            50
        } else {
            10
        },
        spec_tool_props(item.id) is None && !spec_sword(item.id) && item.id != 359
            ==> spec_tool_strength(item, block) == 10,
{
}

/// The tools of a tier, by their numbers: shovel, pickaxe, axe and sword.
pub open spec fn tier_tools(tier: int) -> (int, int, int, int) {
    if tier == 0 {
        (269, 270, 271, 268)
    } else if tier == 1 {
        (273, 274, 275, 272)
    } else if tier == 2 {
        (256, 257, 258, 267)
    } else if tier == 3 {
        (277, 278, 279, 276)
    } else {
        (284, 285, 286, 283)
    }
}

/// The tools of a tier have one speed and one harvest level, and each its own class: wood,
/// stone, iron and diamond get faster by as much as wood is, and gold is six times as fast as
/// wood but harvests no more.
pub proof fn law_tools_of_a_tier_agree(tier: int)
    requires
        0 <= tier <= 4,
    ensures
        ({
            let (shovel, pickaxe, axe, sword) = tier_tools(tier);
            let speed = if tier <= 3 {
                20 * (tier + 1)
            } else {
                120int
            };
            let level = if tier <= 3 {
                tier
            } else {
                0int
            };
            &&& spec_tool_props(shovel) == Some((ToolClass::Shovel, speed, level))
            &&& spec_tool_props(pickaxe) == Some((ToolClass::Pickaxe, speed, level))
            &&& spec_tool_props(axe) == Some((ToolClass::Axe, speed, level))
            &&& spec_tool_props(sword) == Some((ToolClass::Sword, speed, level))
            &&& spec_sword(sword)
            &&& !spec_sword(shovel) && !spec_sword(pickaxe) && !spec_sword(axe)
        }),
{
}

/// Nothing else is a tool, but for shears; no tool stacks, and every block item does.
pub proof fn law_tools_do_not_stack(item: ItemModel)
    ensures
        spec_tool_props(item.id) is Some ==> spec_max_stack(item) == 1,
        spec_armor_points(item.id) > 0 ==> spec_max_stack(item) == 1,
        0 <= item.id < 256 ==> spec_max_stack(item) == 64,
        spec_max_stack(item) == 1 || spec_max_stack(item) == 64,
        spec_tool_props(item.id) is Some ==> item.id == 359 || exists|tier: int|
            0 <= tier <= 4 && {
                let t = #[trigger] tier_tools(tier);
                item.id == t.0 || item.id == t.1 || item.id == t.2 || item.id == t.3
            },
        spec_sword(item.id) ==> exists|tier: int|
            0 <= tier <= 4 && item.id == (#[trigger] tier_tools(tier)).3,
{
    assert(tier_tools(0) == (269int, 270int, 271int, 268int));
    assert(tier_tools(1) == (273int, 274int, 275int, 272int));
    assert(tier_tools(2) == (256int, 257int, 258int, 267int));
    assert(tier_tools(3) == (277int, 278int, 279int, 276int));
    assert(tier_tools(4) == (284int, 285int, 286int, 283int));
}

/// A block that needs no tool is harvested by anything. One that does is harvested by
/// pickaxes alone, of its level and all above it.
pub proof fn law_pickaxes_harvest_what_needs_a_tool(held: Option<ItemModel>, block: BlockState)
    ensures
        !spec_needs_tool(block.id as int) ==> spec_can_harvest(held, block),
        spec_needs_tool(block.id as int) && held is None ==> !spec_can_harvest(held, block),
        spec_needs_tool(block.id as int) ==> (held matches Some(item) ==> (spec_can_harvest(
            held,
            block,
        ) <==> (spec_tool_props(item.id) matches Some((class, speed, level)) && class
            == ToolClass::Pickaxe && level >= spec_harvest_level(block.id as int)))),
{
}

/// What needs a tool is a pickaxe's, can be broken, and only that has a level: obsidian needs
/// diamond, and nothing needs more.
pub proof fn law_what_needs_a_tool_is_rock(id: int)
    ensures
        spec_needs_tool(id) ==> spec_block_tool_class(id) == Some(ToolClass::Pickaxe)
            && spec_hardness(id) > 0,
        spec_harvest_level(id) > 0 ==> spec_needs_tool(id),
        0 <= spec_harvest_level(id) <= 3,
        spec_harvest_level(id) == 3 <==> id == 49,
        spec_hardness(id) <= spec_hardness(49),
        spec_block_tool_class(id) is Some ==> spec_hardness(id) >= 0,
{
}

/// A full set of armor protects: leather by 7 points, chain by 12, iron by 15, diamond by 20
/// and gold by 11; helmets never more than chestplates, boots never more than leggings.
pub proof fn law_armor_sets_add_up(k: int)
    requires
        0 <= k <= 4,
    ensures
        ({
            let first = 298 + 4 * k;
            let helmet = spec_armor_points(first);
            let chest = spec_armor_points(first + 1);
            let legs = spec_armor_points(first + 2);
            let boots = spec_armor_points(first + 3);
            &&& helmet + chest + legs + boots == if k == 0 {
                7int
            } else if k == 1 {
                12
            } else if k == 2 {
                15
            } else if k == 3 {
                20
            } else {
                11
            }
            &&& 0 < boots <= helmet <= legs <= chest
            &&& k == 3 ==> chest == 8
        }),
        forall|id: int| id < 298 || id > 317 ==> #[trigger] spec_armor_points(id) == 0,
{
}

/// Swords are raised, bows drawn, potions and milk drunk but for potions that are thrown, and
/// food eaten; nothing else is used over time.
pub proof fn law_items_are_used_as_what_they_are(id: i16, damage: i16)
    ensures
        spec_use_action(id, damage) == ItemUseAction::Block <==> spec_sword(id as int),
        spec_use_action(id, damage) == ItemUseAction::Bow <==> id == 261,
        spec_use_action(id, damage) == ItemUseAction::Drink <==> id == 335 || id == 373 && damage
            & 0x4000 == 0,
        spec_use_action(id, damage) == ItemUseAction::Eat <==> spec_food(id as int),
{
}

// ── Placing ───────────────────────────────────────────────────────────────

/// Opposite faces lead in opposite directions by one cell: down and up, north and south, west
/// and east.
pub proof fn law_faces_are_opposite_in_pairs(face: u8)
    requires
        face <= 5,
    ensures
        ({
            let (dx, dy, dz) = spec_face_offset(face);
            let (ox, oy, oz) = spec_face_offset(if face % 2 == 0 {
                (face + 1) as u8
            } else {
                (face - 1) as u8
            });
            &&& dx + ox == 0 && dy + oy == 0 && dz + oz == 0
            &&& face / 2 == 0 ==> dx == 0 && dz == 0 && dy == if face % 2 == 0 {
                -1int
            } else {
                1
            }
            &&& face / 2 == 1 ==> dx == 0 && dy == 0 && dz == if face % 2 == 0 {
                -1int
            } else {
                1
            }
            &&& face / 2 == 2 ==> dy == 0 && dz == 0 && dx == if face % 2 == 0 {
                -1int
            } else {
                1
            }
        }),
{
}

/// A placed block is the held one; what is no block item is not placed.
pub proof fn law_placed_blocks_are_the_held_ones(
    id: i16,
    damage: i16,
    face: u8,
    facing: u8,
    cursor_y: u8,
    shape: Shape,
)
    ensures
        spec_placement_state(id, damage, face, facing, cursor_y, shape) matches Some(state)
            ==> state.id == id && 1 <= id <= 255,
        id < 1 || id > 255 ==> spec_placement_state(id, damage, face, facing, cursor_y, shape)
            is None,
        1 <= id <= 255 && shape != Shape::Oriented ==> spec_placement_state(
            id,
            damage,
            face,
            facing,
            cursor_y,
            shape,
        ) is Some,
{
}

/// A slab keeps its material and fills the half that was clicked: the upper one under an
/// underside and on the upper half of a side, the lower one else.
pub proof fn law_slabs_fill_the_clicked_half(
    id: i16,
    damage: i16,
    face: u8,
    facing: u8,
    cursor_y: u8,
    shape: Shape,
)
    requires
        id == 44 || id == 126 || id == 182,
        0 <= damage <= 7,
        face <= 5,
    ensures
        ({
            let upper = face == 0 || face >= 2 && cursor_y > 8;
            spec_placement_state(id, damage, face, facing, cursor_y, shape) matches Some(state)
                && state.meta == damage + if upper {
                8int
            } else {
                0
            }
        }),
{
    assert(0 <= damage <= 7 ==> ((damage as u8) & 7u8) | 8u8 == damage + 8 && ((damage as u8) & 7u8)
        | 0u8 == damage) by (bit_vector);
}

/// A log lies along the axis of the clicked face, upright on a floor or a ceiling, and keeps
/// its wood.
pub proof fn law_logs_lie_along_the_clicked_face(
    id: i16,
    damage: i16,
    face: u8,
    facing: u8,
    cursor_y: u8,
    shape: Shape,
)
    requires
        id == 17 || id == 162 || id == 170,
        0 <= damage <= 3,
        face <= 5,
    ensures
        spec_placement_state(id, damage, face, facing, cursor_y, shape) matches Some(state)
            && state.meta % 4 == damage && state.meta / 4 == if face / 2 == 0 {
            0int
        } else if face / 2 == 1 {
            2
        } else {
            1
        },
{
    assert(0 <= damage <= 3 ==> ((damage as u8) & 3u8) | 0u8 == damage && ((damage as u8) & 3u8)
        | 8u8 == damage + 8 && ((damage as u8) & 3u8) | 4u8 == damage + 4) by (bit_vector);
}

/// Stairs rise away from the player, whatever the stack's damage value, and hang upside down
/// on the upper half.
pub proof fn law_stairs_face_the_player(
    id: i16,
    damage: i16,
    face: u8,
    facing: u8,
    cursor_y: u8,
)
    requires
        1 <= id <= 255,
        id != 44 && id != 126 && id != 182 && id != 17 && id != 162 && id != 170,
        face <= 5,
        facing <= 3,
    ensures
        ({
            let upper = face == 0 || face >= 2 && cursor_y > 8;
            &&& spec_placement_state(id, damage, face, facing, cursor_y, Shape::Stairs)
                matches Some(state)
            &&& (state.meta >= 4) == upper
            &&& state.meta % 4 == if facing == 0 {
                2int
            } else if facing == 1 {
                1
            } else if facing == 2 {
                3
            } else {
                0
            }
        }),
{
    assert(2u8 | 4u8 == 6 && 1u8 | 4u8 == 5 && 3u8 | 4u8 == 7 && 0u8 | 4u8 == 4 && 2u8 | 0u8 == 2
        && 1u8 | 0u8 == 1 && 3u8 | 0u8 == 3 && 0u8 | 0u8 == 0) by (bit_vector);
}

/// Blocks go into air, into liquids and onto small plants, fire and snow; never into what
/// activates or needs a tool.
pub proof fn law_blocks_replace_only_soft_cells(block: BlockState)
    ensures
        block.spec_air() || block.spec_liquid() ==> spec_replaceable(block),
        spec_replaceable(block) ==> !spec_interactable(block.id as int) && !spec_needs_tool(
            block.id as int,
        ) && block.spec_passable(),
{
}

} // verus!
