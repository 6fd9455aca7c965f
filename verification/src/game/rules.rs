//! Tables of items and blocks: which tool works on what, how hard blocks are, and
//! what using an item does.

use vstd::prelude::*;
use crate::item::SlotItem;

verus! {

/// A block id with its metadata.
#[derive(Debug, Clone, Copy, PartialEq, Eq, Structural)]
pub struct BlockState {
    pub id: u16,
    pub meta: u8,
}

impl BlockState {
    pub fn new(id: u16, meta: u8) -> (b: BlockState)
        ensures
            b == (BlockState { id, meta }),
    {
        BlockState { id, meta }
    }

    pub open spec fn spec_air(self) -> bool {
        self.id == 0
    }

    pub open spec fn spec_liquid(self) -> bool {
        8 <= self.id <= 11
    }

    /// Nothing is stopped by these: air, plants, webs, fire, portals, rails, wires,
    /// torches, switches, ladders, snow on the ground, pots, skulls and carpets. Liquids
    /// let things in, too.
    pub open spec fn spec_passable(self) -> bool {
        let id = self.id as int;
        ||| self.spec_air()
        ||| self.spec_liquid()
        ||| id == 6
        ||| 27 <= id <= 28
        ||| 30 <= id <= 32
        ||| 37 <= id <= 40
        ||| 50 <= id <= 51
        ||| id == 55
        ||| id == 59
        ||| 65 <= id <= 66
        ||| id == 69
        ||| 75 <= id <= 78
        ||| id == 83
        ||| id == 90
        ||| 93 <= id <= 94
        ||| 104 <= id <= 106
        ||| id == 111
        ||| id == 115
        ||| id == 119
        ||| id == 127
        ||| 131 <= id <= 132
        ||| 140 <= id <= 144
        ||| 149 <= id <= 150
        ||| id == 157
        ||| id == 171
        ||| id == 175
    }

    /// Whether rain lands on the block: it blocks movement, or is a liquid.
    pub open spec fn spec_stops_rain(self) -> bool {
        !self.spec_passable() || self.spec_liquid()
    }

    /// Whether the block blocks no movement.
    pub fn is_passable(&self) -> (yes: bool)
        ensures
            yes == self.spec_passable(),
    {
        match self.id {
            0 | 6 | 8..=11 | 27 | 28 | 30..=32 | 37..=40 | 50 | 51 | 55 | 59 | 65 | 66 | 69
            | 75..=78 | 83 | 90 | 93 | 94 | 104..=106 | 111 | 115 | 119 | 127 | 131 | 132
            | 140..=144 | 149 | 150 | 157 | 171 | 175 => true,
            _ => false,
        }
    }

    /// Whether rain lands on the block.
    pub fn stops_rain(&self) -> (yes: bool)
        ensures
            yes == self.spec_stops_rain(),
    {
        !self.is_passable() || self.is_liquid()
    }

    pub fn is_air(&self) -> (yes: bool)
        ensures
            yes == self.spec_air(),
    {
        self.id == 0
    }

    /// Water or lava.
    pub fn is_liquid(&self) -> (yes: bool)
        ensures
            yes == self.spec_liquid(),
    {
        8 <= self.id && self.id <= 11
    }
}

/// What using the held item does.
#[derive(Debug, Clone, Copy, PartialEq, Eq, Structural)]
pub enum ItemUseAction {
    Nothing,
    Block,
    Eat,
    Drink,
    Bow,
}

/// The tool classes that affect mining.
#[derive(Debug, Clone, Copy, PartialEq, Eq, Structural)]
pub enum ToolClass {
    Pickaxe,
    Axe,
    Shovel,
    Sword,
    Shears,
}

/// Sword items: wood, gold, stone, iron, diamond.
pub open spec fn spec_sword(id: int) -> bool {
    ||| id == 267
    ||| id == 268
    ||| id == 272
    ||| id == 276
    ||| id == 283
}

/// Whether an item is a sword.
pub fn is_sword(id: i16) -> (yes: bool)
    ensures
        yes == spec_sword(id as int),
{
    match id {
        267 | 268 | 272 | 276 | 283 => true,
        _ => false,
    }
}

/// Items that are eaten.
pub open spec fn spec_food(id: int) -> bool {
    ||| id == 260
    ||| id == 282
    ||| id == 297
    ||| id == 319
    ||| id == 320
    ||| id == 322
    ||| id == 349
    ||| id == 350
    ||| id == 357
    ||| id == 360
    ||| 363 <= id <= 367
    ||| id == 375
    ||| 391 <= id <= 394
    ||| id == 396
    ||| id == 400
    ||| id == 412
    ||| id == 413
    ||| id == 423
    ||| id == 424
}

/// Whether an item is eaten.
pub fn is_food(id: i16) -> (yes: bool)
    ensures
        yes == spec_food(id as int),
{
    match id {
        260 | 282 | 297 | 319 | 320 | 322 | 349 | 350 | 357 | 360 | 363..=367 | 375 | 391..=394 | 396 | 400 | 412 | 413 | 423 | 424 => true,
        _ => false,
    }
}

/// A potion that is thrown rather than drunk carries this damage bit.
pub open spec fn spec_splash(damage: i16) -> bool {
    damage & 0x4000 != 0
}

/// What using an item does.
pub open spec fn spec_use_action(id: i16, damage: i16) -> ItemUseAction {
    if spec_sword(id as int) {
        ItemUseAction::Block
    } else if id == 261 {
        ItemUseAction::Bow
    } else if (id == 373 && !spec_splash(damage)) || id == 335 {
        ItemUseAction::Drink
    } else if spec_food(id as int) {
        ItemUseAction::Eat
    } else {
        ItemUseAction::Nothing
    }
}

/// What using an item does.
pub fn item_use_action(id: i16, damage: i16) -> (action: ItemUseAction)
    ensures
        action == spec_use_action(id, damage),
{
    if is_sword(id) {
        ItemUseAction::Block
    } else if id == 261 {
        ItemUseAction::Bow
    } else if (id == 373 && damage & 0x4000 == 0) || id == 335 {
        ItemUseAction::Drink
    } else if is_food(id) {
        ItemUseAction::Eat
    } else {
        ItemUseAction::Nothing
    }
}

/// The arm pose of a player: 0 with an empty hand, 1 holding an item, 3 blocking
/// with a sword.
pub open spec fn spec_held_state(item: Option<SlotItem>, using_item: bool) -> u8 {
    match item {
        None => 0,
        Some(it) => if using_item && spec_use_action(it.id, it.damage) == ItemUseAction::Block {
            3
        } else {
            1
        },
    }
}

/// The arm pose of a player.
pub fn held_item_right_state(item: &Option<SlotItem>, using_item: bool) -> (state: u8)
    ensures
        state == spec_held_state(*item, using_item),
{
    match item {
        None => 0,
        Some(it) => if using_item && item_use_action(it.id, it.damage) == ItemUseAction::Block {
            3
        } else {
            1
        },
    }
}

/// Whether an item places a block: block items share the block ids.
pub fn is_block_item(id: i16) -> (yes: bool)
    ensures
        yes == (1 <= id < 256),
{
    1 <= id && id < 256
}

/// The class, speed on its proper material (in tenths) and harvest level of a
/// tool.
pub open spec fn spec_tool_props(id: int) -> Option<(ToolClass, int, int)> {
    if id == 269 {
        Some((ToolClass::Shovel, 20, 0))
    } else if id == 270 {
        Some((ToolClass::Pickaxe, 20, 0))
    } else if id == 271 {
        Some((ToolClass::Axe, 20, 0))
    } else if id == 268 {
        Some((ToolClass::Sword, 20, 0))
    } else if id == 273 {
        Some((ToolClass::Shovel, 40, 1))
    } else if id == 274 {
        Some((ToolClass::Pickaxe, 40, 1))
    } else if id == 275 {
        Some((ToolClass::Axe, 40, 1))
    } else if id == 272 {
        Some((ToolClass::Sword, 40, 1))
    } else if id == 256 {
        Some((ToolClass::Shovel, 60, 2))
    } else if id == 257 {
        Some((ToolClass::Pickaxe, 60, 2))
    } else if id == 258 {
        Some((ToolClass::Axe, 60, 2))
    } else if id == 267 {
        Some((ToolClass::Sword, 60, 2))
    } else if id == 277 {
        Some((ToolClass::Shovel, 80, 3))
    } else if id == 278 {
        Some((ToolClass::Pickaxe, 80, 3))
    } else if id == 279 {
        Some((ToolClass::Axe, 80, 3))
    } else if id == 276 {
        Some((ToolClass::Sword, 80, 3))
    } else if id == 284 {
        Some((ToolClass::Shovel, 120, 0))
    } else if id == 285 {
        Some((ToolClass::Pickaxe, 120, 0))
    } else if id == 286 {
        Some((ToolClass::Axe, 120, 0))
    } else if id == 283 {
        Some((ToolClass::Sword, 120, 0))
    } else if id == 359 {
        Some((ToolClass::Shears, 10, 0))
    } else {
        None
    }
}

/// The class, speed on its proper material (in tenths) and harvest level of a
/// tool.
pub fn tool_props(id: i16) -> (props: Option<(ToolClass, i32, u8)>)
    ensures
        match (props, spec_tool_props(id as int)) {
            (Some(p), Some(q)) => p.0 == q.0 && p.1 == q.1 && p.2 == q.2 && 0 < p.1 <= 120,
            (None, None) => true,
            _ => false,
        },
{
    match id {
        269 => Some((ToolClass::Shovel, 20, 0)),
        270 => Some((ToolClass::Pickaxe, 20, 0)),
        271 => Some((ToolClass::Axe, 20, 0)),
        268 => Some((ToolClass::Sword, 20, 0)),
        273 => Some((ToolClass::Shovel, 40, 1)),
        274 => Some((ToolClass::Pickaxe, 40, 1)),
        275 => Some((ToolClass::Axe, 40, 1)),
        272 => Some((ToolClass::Sword, 40, 1)),
        256 => Some((ToolClass::Shovel, 60, 2)),
        257 => Some((ToolClass::Pickaxe, 60, 2)),
        258 => Some((ToolClass::Axe, 60, 2)),
        267 => Some((ToolClass::Sword, 60, 2)),
        277 => Some((ToolClass::Shovel, 80, 3)),
        278 => Some((ToolClass::Pickaxe, 80, 3)),
        279 => Some((ToolClass::Axe, 80, 3)),
        276 => Some((ToolClass::Sword, 80, 3)),
        284 => Some((ToolClass::Shovel, 120, 0)),
        285 => Some((ToolClass::Pickaxe, 120, 0)),
        286 => Some((ToolClass::Axe, 120, 0)),
        283 => Some((ToolClass::Sword, 120, 0)),
        359 => Some((ToolClass::Shears, 10, 0)),
        _ => None,
    }
}

/// Rock, ore, metal and rails: what a pickaxe works on.
pub open spec fn pickaxe_block(id: int) -> bool {
    ||| id == 1
    ||| id == 4
    ||| 14 <= id <= 16
    ||| 21 <= id <= 24
    ||| id == 27
    ||| id == 28
    ||| 41 <= id <= 45
    ||| id == 48
    ||| id == 49
    ||| id == 52
    ||| id == 56
    ||| id == 57
    ||| id == 61
    ||| id == 62
    ||| id == 66
    ||| id == 67
    ||| id == 70
    ||| id == 73
    ||| id == 74
    ||| id == 77
    ||| id == 79
    ||| id == 87
    ||| id == 98
    ||| id == 101
    ||| id == 108
    ||| id == 109
    ||| 112 <= id <= 114
    ||| id == 116
    ||| id == 118
    ||| id == 121
    ||| id == 129
    ||| id == 130
    ||| id == 133
    ||| id == 139
    ||| id == 145
    ||| id == 152
    ||| id == 153
    ||| 155 <= id <= 159
    ||| id == 168
    ||| 172 <= id <= 174
    ||| 179 <= id <= 182
}

/// Soft ground: what a shovel works on.
pub open spec fn shovel_block(id: int) -> bool {
    ||| id == 2
    ||| id == 3
    ||| id == 12
    ||| id == 13
    ||| id == 60
    ||| id == 78
    ||| id == 80
    ||| id == 82
    ||| id == 88
    ||| id == 110
}

/// Wood and plants: what an axe works on.
pub open spec fn axe_block(id: int) -> bool {
    ||| id == 5
    ||| id == 17
    ||| id == 25
    ||| id == 47
    ||| id == 53
    ||| id == 54
    ||| id == 58
    ||| 63 <= id <= 65
    ||| id == 68
    ||| 84 <= id <= 86
    ||| id == 91
    ||| id == 96
    ||| id == 103
    ||| id == 106
    ||| id == 107
    ||| id == 125
    ||| id == 126
    ||| 134 <= id <= 136
    ||| id == 146
    ||| id == 151
    ||| 162 <= id <= 164
    ||| 183 <= id <= 197
}

/// The tool class that speeds up a block.
pub open spec fn spec_block_tool_class(id: int) -> Option<ToolClass> {
    if pickaxe_block(id) {
        Some(ToolClass::Pickaxe)
    } else if shovel_block(id) {
        Some(ToolClass::Shovel)
    } else if axe_block(id) {
        Some(ToolClass::Axe)
    } else {
        None
    }
}

/// The tool class that speeds up a block; none for blocks that no tool is sure to
/// help with.
pub fn block_tool_class(id: u16) -> (class: Option<ToolClass>)
    ensures
        class == spec_block_tool_class(id as int),
{
    match id {
        1 | 4 | 14..=16 | 21..=24 | 27 | 28 | 41..=45 | 48 | 49 | 52 | 56 | 57 | 61 | 62 | 66 | 67 | 70 | 73 | 74 | 77 | 79 | 87 | 98 | 101 | 108 | 109 | 112..=114 | 116 | 118 | 121 | 129 | 130 | 133 | 139 | 145 | 152 | 153 | 155..=159 | 168 | 172..=174 | 179..=182 => Some(ToolClass::Pickaxe),
        2 | 3 | 12 | 13 | 60 | 78 | 80 | 82 | 88 | 110 => Some(ToolClass::Shovel),
        5 | 17 | 25 | 47 | 53 | 54 | 58 | 63..=65 | 68 | 84..=86 | 91 | 96 | 103 | 106 | 107 | 125 | 126 | 134..=136 | 146 | 151 | 162..=164 | 183..=197 => Some(ToolClass::Axe),
        _ => None,
    }
}

/// The least harvest level that yields a block: 1 stone, 2 iron, 3 diamond.
pub open spec fn spec_harvest_level(id: int) -> int {
    if id == 49 {
        3
    } else if id == 14 || id == 41 || id == 56 || id == 57 || id == 73 || id == 74 || id == 129
        || id == 133 || id == 152 {
        2
    } else if id == 15 || id == 21 || id == 22 || id == 42 {
        1
    } else {
        0
    }
}

/// The least harvest level that yields a block.
pub fn block_harvest_level(id: u16) -> (level: u8)
    ensures
        level == spec_harvest_level(id as int),
{
    match id {
        49 => 3,
        14 | 41 | 56 | 57 | 73 | 74 | 129 | 133 | 152 => 2,
        15 | 21 | 22 | 42 => 1,
        _ => 0,
    }
}

/// Blocks that need a tool to be harvested at full speed.
pub open spec fn spec_needs_tool(id: int) -> bool {
    ||| id == 1
    ||| id == 4
    ||| 14 <= id <= 16
    ||| id == 21
    ||| id == 22
    ||| id == 24
    ||| 41 <= id <= 45
    ||| id == 48
    ||| id == 49
    ||| id == 56
    ||| id == 57
    ||| id == 61
    ||| id == 62
    ||| id == 73
    ||| id == 74
    ||| id == 87
    ||| id == 98
    ||| id == 112
    ||| id == 129
    ||| id == 133
    ||| id == 152
}

/// Whether a block needs a tool to be harvested at full speed.
pub fn block_needs_tool(id: u16) -> (yes: bool)
    ensures
        yes == spec_needs_tool(id as int),
{
    match id {
        1 | 4 | 14..=16 | 21 | 22 | 24 | 41..=45 | 48 | 49 | 56 | 57 | 61 | 62 | 73 | 74 | 87 | 98 | 112 | 129 | 133 | 152 => true,
        _ => false,
    }
}

/// Block hardness in hundredths; negative for blocks that cannot be broken. Zero
/// is an instant break.
pub open spec fn spec_hardness(id: int) -> int {
    if id == 49 {
        5000
    } else if id == 130 {
        2250
    } else if id == 42 || id == 52 || id == 57 || id == 71 || id == 101 || id == 116 || id == 133 || id == 145 || id == 152 || id == 167 || id == 173 {
        500
    } else if id == 30 {
        400
    } else if id == 23 || id == 61 || id == 62 || id == 158 {
        350
    } else if (14 <= id <= 16) || id == 21 || id == 22 || id == 41 || id == 56 || id == 64 || id == 73 || id == 74 || id == 96 || id == 121 || id == 122 || id == 129 || id == 138 || id == 153 || id == 154 || (193 <= id <= 197) {
        300
    } else if id == 54 || id == 58 || id == 146 {
        250
    } else if id == 4 || id == 5 || id == 17 || (43 <= id <= 45) || id == 48 || id == 53 || id == 67 || id == 84 || id == 85 || id == 107 || id == 108 || (112 <= id <= 114) || id == 118 || id == 125 || id == 126 || (134 <= id <= 136) || id == 139 || (162 <= id <= 164) || (181 <= id <= 192) {
        200
    } else if id == 1 || id == 47 || id == 98 || id == 109 || id == 168 {
        150
    } else if id == 159 || id == 172 {
        125
    } else if id == 63 || id == 68 || id == 86 || id == 91 || id == 103 || id == 144 || id == 176 || id == 177 {
        100
    } else if id == 24 || id == 25 || id == 35 || id == 128 || id == 155 || id == 156 || id == 179 || id == 180 {
        80
    } else if id == 97 {
        75
    } else if id == 27 || id == 28 || id == 66 || id == 157 {
        70
    } else if id == 2 || id == 13 || id == 19 || id == 60 || id == 82 || id == 110 || id == 111 {
        60
    } else if id == 3 || id == 12 || id == 29 || id == 33 || id == 34 || id == 69 || id == 70 || id == 72 || id == 77 || id == 79 || id == 88 || id == 92 || id == 117 || id == 143 || id == 147 || id == 148 || id == 170 || id == 174 {
        50
    } else if id == 65 || id == 81 || id == 87 {
        40
    } else if id == 20 || id == 89 || id == 95 || id == 102 || id == 123 || id == 124 || id == 160 || id == 169 {
        30
    } else if id == 18 || id == 26 || id == 78 || id == 80 || id == 106 || id == 127 || id == 151 || id == 161 || id == 178 {
        20
    } else if id == 171 {
        10
    } else if id == 6 || id == 31 || id == 32 || (37 <= id <= 40) || id == 46 || id == 50 || id == 51 || id == 55 || id == 59 || id == 75 || id == 76 || id == 83 || id == 93 || id == 94 || id == 99 || id == 100 || id == 104 || id == 105 || id == 115 || id == 131 || id == 132 || (140 <= id <= 142) || id == 149 || id == 150 || id == 165 || id == 175 {
        0
    } else if (7 <= id <= 11) || id == 36 || id == 90 || id == 119 || id == 120 || id == 137 || id == 166 {
        -100
    } else {
        100
    }
}

/// Block hardness in hundredths; negative for blocks that cannot be broken.
pub fn block_hardness(id: u16) -> (hardness: i32)
    ensures
        hardness == spec_hardness(id as int),
        -100 <= hardness <= 5000,
{
    match id {
        49 => 5000,
        130 => 2250,
        42 | 52 | 57 | 71 | 101 | 116 | 133 | 145 | 152 | 167 | 173 => 500,
        30 => 400,
        23 | 61 | 62 | 158 => 350,
        14..=16 | 21 | 22 | 41 | 56 | 64 | 73 | 74 | 96 | 121 | 122 | 129 | 138 | 153 | 154 | 193..=197 => 300,
        54 | 58 | 146 => 250,
        4 | 5 | 17 | 43..=45 | 48 | 53 | 67 | 84 | 85 | 107 | 108 | 112..=114 | 118 | 125 | 126 | 134..=136 | 139 | 162..=164 | 181..=192 => 200,
        1 | 47 | 98 | 109 | 168 => 150,
        159 | 172 => 125,
        63 | 68 | 86 | 91 | 103 | 144 | 176 | 177 => 100,
        24 | 25 | 35 | 128 | 155 | 156 | 179 | 180 => 80,
        97 => 75,
        27 | 28 | 66 | 157 => 70,
        2 | 13 | 19 | 60 | 82 | 110 | 111 => 60,
        3 | 12 | 29 | 33 | 34 | 69 | 70 | 72 | 77 | 79 | 88 | 92 | 117 | 143 | 147 | 148 | 170 | 174 => 50,
        65 | 81 | 87 => 40,
        20 | 89 | 95 | 102 | 123 | 124 | 160 | 169 => 30,
        18 | 26 | 78 | 80 | 106 | 127 | 151 | 161 | 178 => 20,
        171 => 10,
        6 | 31 | 32 | 37..=40 | 46 | 50 | 51 | 55 | 59 | 75 | 76 | 83 | 93 | 94 | 99 | 100 | 104 | 105 | 115 | 131 | 132 | 140..=142 | 149 | 150 | 165 | 175 => 0,
        7..=11 | 36 | 90 | 119 | 120 | 137 | 166 => -100,
        _ => 100,
    }
}

/// Small plants, fire and snow.
pub open spec fn spec_replaceable_plant(id: int) -> bool {
    ||| id == 31
    ||| id == 32
    ||| 37 <= id <= 40
    ||| id == 51
    ||| id == 78
    ||| id == 106
    ||| id == 175
}

/// Whether a block is a small plant, fire or snow that placing overwrites.
pub fn is_replaceable_plant(id: u16) -> (yes: bool)
    ensures
        yes == spec_replaceable_plant(id as int),
{
    match id {
        31 | 32 | 37..=40 | 51 | 78 | 106 | 175 => true,
        _ => false,
    }
}

/// Blocks that a right-click activates: containers, doors, switches, workstations.
pub open spec fn spec_interactable(id: int) -> bool {
    ||| id == 23
    ||| id == 25
    ||| id == 26
    ||| id == 54
    ||| id == 58
    ||| id == 61
    ||| id == 62
    ||| id == 64
    ||| id == 69
    ||| id == 71
    ||| id == 77
    ||| id == 84
    ||| 92 <= id <= 94
    ||| id == 96
    ||| id == 107
    ||| id == 116
    ||| id == 117
    ||| id == 130
    ||| id == 137
    ||| id == 138
    ||| id == 143
    ||| id == 145
    ||| id == 146
    ||| id == 149
    ||| id == 150
    ||| id == 154
    ||| id == 158
    ||| id == 167
    ||| 183 <= id <= 187
    ||| 193 <= id <= 197
}

/// Whether a right-click on a block with this id activates it.
pub fn is_interactable_id(id: u16) -> (yes: bool)
    ensures
        yes == spec_interactable(id as int),
{
    match id {
        23 | 25 | 26 | 54 | 58 | 61 | 62 | 64 | 69 | 71 | 77 | 84 | 92..=94 | 96 | 107 | 116 | 117 | 130 | 137 | 138 | 143 | 145 | 146 | 149 | 150 | 154 | 158 | 167 | 183..=187 | 193..=197 => true,
        _ => false,
    }
}

/// Cells a block may be placed into: air, liquids, and what placing overwrites.
pub open spec fn spec_replaceable(block: BlockState) -> bool {
    block.spec_air() || block.spec_liquid() || spec_replaceable_plant(block.id as int)
}

/// Whether a block may be placed into this cell.
pub fn is_replaceable(block: BlockState) -> (yes: bool)
    ensures
        yes == spec_replaceable(block),
{
    block.is_air() || block.is_liquid() || is_replaceable_plant(block.id)
}

/// Whether a right-click activates the block.
pub fn is_interactable(block: BlockState) -> (yes: bool)
    ensures
        yes == spec_interactable(block.id as int),
{
    is_interactable_id(block.id)
}

/// The crosshair can point at a block: not at air, nor at a liquid.
pub open spec fn pickable(block: BlockState) -> bool {
    !(block.spec_air() || block.spec_liquid())
}

/// Whether the crosshair can point at a block.
pub fn is_pickable(block: BlockState) -> (yes: bool)
    ensures
        yes == pickable(block),
{
    !block.is_air() && !block.is_liquid()
}

/// The step to the cell beyond a face: down, up, north, south, west, east.
pub open spec fn spec_face_offset(face: u8) -> (int, int, int) {
    if face == 0 {
        (0, -1, 0)
    } else if face == 1 {
        (0, 1, 0)
    } else if face == 2 {
        (0, 0, -1)
    } else if face == 3 {
        (0, 0, 1)
    } else if face == 4 {
        (-1, 0, 0)
    } else {
        (1, 0, 0)
    }
}

/// The step to the cell beyond a face.
pub fn face_offset(face: u8) -> (step: (i32, i32, i32))
    ensures
        step.0 == spec_face_offset(face).0,
        step.1 == spec_face_offset(face).1,
        step.2 == spec_face_offset(face).2,
{
    match face {
        0 => (0, -1, 0),
        1 => (0, 1, 0),
        2 => (0, 0, -1),
        3 => (0, 0, 1),
        4 => (-1, 0, 0),
        _ => (1, 0, 0),
    }
}

/// Armor defense points of an item.
pub open spec fn spec_armor_points(id: int) -> int {
    if id == 298 || id == 301 || id == 305 || id == 317 {
        1
    } else if id == 300 || id == 302 || id == 306 || id == 309 || id == 314 {
        2
    } else if id == 299 || id == 310 || id == 313 || id == 316 {
        3
    } else if id == 304 {
        4
    } else if id == 303 || id == 308 || id == 315 {
        5
    } else if id == 307 || id == 312 {
        6
    } else if id == 311 {
        8
    } else {
        0
    }
}

/// Armor defense points of an item.
pub fn armor_points(id: i16) -> (points: i32)
    ensures
        points == spec_armor_points(id as int),
        0 <= points <= 8,
{
    match id {
        298 => 1,
        299 => 3,
        300 => 2,
        301 => 1,
        302 => 2,
        303 => 5,
        304 => 4,
        305 => 1,
        306 => 2,
        307 => 6,
        308 => 5,
        309 => 2,
        310 => 3,
        311 => 8,
        312 => 6,
        313 => 3,
        314 => 2,
        315 => 5,
        316 => 3,
        317 => 1,
        _ => 0,
    }
}

/// The sprite of an experience orb: one cell up at each threshold reached.
pub open spec fn spec_orb_cell(xp: int) -> int {
    if xp >= 2477 {
        10
    } else if xp >= 1237 {
        9
    } else if xp >= 617 {
        8
    } else if xp >= 307 {
        7
    } else if xp >= 149 {
        6
    } else if xp >= 73 {
        5
    } else if xp >= 37 {
        4
    } else if xp >= 17 {
        3
    } else if xp >= 7 {
        2
    } else if xp >= 3 {
        1
    } else {
        0
    }
}

/// The sprite cell of an experience orb worth `xp`.
pub fn xp_orb_texture_cell(xp: i16) -> (cell: u32)
    ensures
        cell == spec_orb_cell(xp as int),
        cell <= 10,
{
    if xp >= 2477 {
        10
    } else if xp >= 1237 {
        9
    } else if xp >= 617 {
        8
    } else if xp >= 307 {
        7
    } else if xp >= 149 {
        6
    } else if xp >= 73 {
        5
    } else if xp >= 37 {
        4
    } else if xp >= 17 {
        3
    } else if xp >= 7 {
        2
    } else if xp >= 3 {
        1
    } else {
        0
    }
}

/// More experience never shows a smaller orb.
pub proof fn law_orb_cells_grow(a: int, b: int)
    requires
        a <= b,
    ensures
        spec_orb_cell(a) <= spec_orb_cell(b),
{
}

/// The item whose sprite stands in for a projectile; none for kinds drawn
/// otherwise.
pub open spec fn spec_projectile_item(kind: int) -> Option<i16> {
    if kind == 61 {
        Some(332)
    } else if kind == 62 {
        Some(344)
    } else if kind == 64 {
        Some(385)
    } else if kind == 65 {
        Some(368)
    } else if kind == 72 {
        Some(381)
    } else if kind == 73 {
        Some(373)
    } else if kind == 75 {
        Some(384)
    } else if kind == 76 {
        Some(401)
    } else {
        None
    }
}

/// The item whose sprite stands in for a projectile.
pub fn projectile_item_id(kind: u8) -> (item: Option<i16>)
    ensures
        item == spec_projectile_item(kind as int),
{
    match kind {
        61 => Some(332),
        62 => Some(344),
        64 => Some(385),
        65 => Some(368),
        72 => Some(381),
        73 => Some(373),
        75 => Some(384),
        76 => Some(401),
        _ => None,
    }
}

/// How a projectile flies when it is followed here: its fall a tick and what of its
/// speed it keeps, in hundredths, and whether it sticks in blocks. Others are moved by
/// the server.
pub open spec fn spec_projectile_physics(kind: int) -> Option<(i32, i32, bool)> {
    if kind == 60 {
        Some((5, 99, true))
    } else if kind == 61 || kind == 62 || kind == 65 || kind == 73 {
        Some((3, 99, false))
    } else if kind == 75 {
        Some((7, 99, false))
    } else {
        None
    }
}

/// How a projectile flies when it is followed here.
pub fn projectile_physics(kind: u8) -> (physics: Option<(i32, i32, bool)>)
    ensures
        physics == spec_projectile_physics(kind as int),
{
    match kind {
        60 => Some((5, 99, true)),
        61 | 62 | 65 | 73 => Some((3, 99, false)),
        75 => Some((7, 99, false)),
        _ => None,
    }
}

/// The column and the row of an experience orb's sprite.
pub open spec fn orb_place(cell: u32) -> (u32, u32) {
    (cell % 4, cell / 4)
}

/// Where the sprite of an experience orb is: the column and the row of its cell, four
/// to a row.
pub fn xp_orb_cell(cell: u32) -> (at: (u32, u32))
    ensures
        at == orb_place(cell),
{
    (cell % 4, cell / 4)
}

} // verus!
