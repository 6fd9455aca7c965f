//! What of the world is drawn as models, and how.

use vstd::prelude::*;
use crate::chat::component::{flat_message, flatten_chat_json};
use crate::chat::lang::Language;
use crate::item::{copy_stack, stack_view, ItemModel, SlotItem};
use crate::packets::{Real32, Real64};
use crate::text::copy_text;
use super::dispatch::EntityKind;
use super::entities::worn;
use super::fixtures::{sign_text, BlockPos, Sign};
use super::rules::{
    held_item_right_state, projectile_item_id, spec_held_state, spec_orb_cell,
    spec_projectile_item, xp_orb_texture_cell, BlockState,
};
use super::state::GameState;

verus! {

broadcast use vstd::std_specs::hash::group_hash_axioms;

/// An entity of the world, as a frame sees it.
#[derive(Debug)]
pub struct SeenEntity {
    pub id: i32,
    pub kind: EntityKind,
    /// It is beyond the distance at which entities are drawn.
    pub far: bool,
    /// Its box is outside the picture.
    pub out_of_view: bool,
    pub invisible: bool,
    pub sneaking: bool,
    pub using_item: bool,
    pub custom_name: Option<String>,
    pub custom_name_visible: bool,
    pub hurt_time: u32,
    pub death_time: u32,
    /// Which of the worn pieces shimmer.
    pub shimmer: Shimmer,
    /// Position and angles, in the steps in which a change is noticed.
    pub pose: [u64; 9],
    /// The roll of a dying body, in such steps.
    pub death_roll: u64,
}

/// What is worn, by item number.
#[derive(Debug, Clone, Copy, PartialEq, Eq, Structural)]
pub struct Armor {
    pub feet: Option<i16>,
    pub legs: Option<i16>,
    pub chest: Option<i16>,
    pub head: Option<i16>,
}

/// Which worn pieces shimmer.
#[derive(Debug, Clone, Copy, PartialEq, Eq, Structural)]
pub struct Shimmer {
    pub feet: bool,
    pub legs: bool,
    pub chest: bool,
    pub head: bool,
}

/// How an entity is drawn.
#[derive(Debug, Clone, Copy, PartialEq, Eq, Structural)]
pub struct EntityPlan {
    /// Its place in the list.
    pub index: usize,
    /// The row of a player's own skin.
    pub skin_row: Option<u32>,
    /// The vehicle it sits on, if that is in the world.
    pub vehicle: Option<i32>,
    /// How the right arm is held.
    pub held_item_right: u8,
    /// The body is drawn; of the invisible only armor is.
    pub body: bool,
    /// Armor over the body.
    pub armor: Option<Armor>,
    /// Which pieces of it shimmer.
    pub glint: Option<Shimmer>,
    /// The model is tinted red.
    pub hurt: bool,
}

// ── Models ────────────────────────────────────────────────────────────────

/// Whether an entity counts for the model: not the player's own, which is not
/// seen, nor items and orbs, which are drawn otherwise, nor what is far away.
pub open spec fn counts(e: SeenEntity, player_id: i32) -> bool {
    &&& e.id != player_id
    &&& e.kind != EntityKind::Object(2)
    &&& e.kind != EntityKind::ExperienceOrb
    &&& !e.far
}

/// The row of a skin: the first that is listed for the account.
pub open spec fn row_of(rows: Seq<([u8; 16], u32)>, uuid: Seq<u8>, n: int) -> Option<u32>
    decreases n,
{
    if n <= 0 {
        None
    } else {
        match row_of(rows, uuid, n - 1) {
            Some(row) => Some(row),
            None => if rows[n - 1].0@ == uuid {
                Some(rows[n - 1].1)
            } else {
                None
            },
        }
    }
}

/// The row of an entity's own skin; only players have one.
pub open spec fn skin_of(g: GameState, e: SeenEntity, rows: Seq<([u8; 16], u32)>) -> Option<u32> {
    if e.kind == EntityKind::RemotePlayer && g.tables.uuids@.dom().contains(e.id) {
        row_of(rows, g.tables.uuids@[e.id]@, rows.len() as int)
    } else {
        None
    }
}

/// Whether the world holds an entity.
pub open spec fn present(entities: Seq<SeenEntity>, id: i32) -> bool {
    exists|i: int| 0 <= i < entities.len() && (#[trigger] entities[i]).id == id
}

/// The number of a worn item.
pub open spec fn worn_id(item: Option<SlotItem>) -> Option<i16> {
    match item {
        Some(s) => Some(s.id),
        None => None,
    }
}

/// The numbers of the worn items of a player.
pub open spec fn armor_of(places: Seq<Option<SlotItem>>) -> Armor {
    Armor {
        feet: worn_id(places[1]),
        legs: worn_id(places[2]),
        chest: worn_id(places[3]),
        head: worn_id(places[4]),
    }
}

/// Which worn items shimmer.
pub open spec fn glint_of(places: Seq<Option<SlotItem>>, shimmer: Shimmer) -> Shimmer {
    Shimmer {
        feet: places[1] is Some && shimmer.feet,
        legs: places[2] is Some && shimmer.legs,
        chest: places[3] is Some && shimmer.chest,
        head: places[4] is Some && shimmer.head,
    }
}

/// How an entity is drawn.
pub open spec fn plan_of(
    g: GameState,
    entities: Seq<SeenEntity>,
    index: int,
    rows: Seq<([u8; 16], u32)>,
) -> EntityPlan {
    let e = entities[index];
    let places = worn(g.tables.equipment@, e.id);
    let player = e.kind == EntityKind::RemotePlayer;
    let armor = armor_of(places);
    let glint = glint_of(places, e.shimmer);
    let armored = player && (armor.feet is Some || armor.legs is Some || armor.chest is Some
        || armor.head is Some);
    EntityPlan {
        index: index as usize,
        skin_row: skin_of(g, e, rows),
        vehicle: match g.tables.riders.vehicle(e.id) {
            Some(v) => if present(entities, v) {
                Some(v)
            } else {
                None
            },
            None => None,
        },
        held_item_right: if player {
            spec_held_state(places[0], e.using_item)
        } else {
            0
        },
        body: !e.invisible,
        armor: if armored {
            Some(armor)
        } else {
            None
        },
        glint: if armored && (glint.feet || glint.legs || glint.chest || glint.head) {
            Some(glint)
        } else {
            None
        },
        hurt: e.hurt_time > 0 || e.death_time > 0,
    }
}

/// How the first `n` entities are drawn.
pub open spec fn plans(
    g: GameState,
    entities: Seq<SeenEntity>,
    rows: Seq<([u8; 16], u32)>,
    n: int,
) -> Seq<EntityPlan>
    decreases n,
{
    if n <= 0 {
        Seq::empty()
    } else if counts(entities[n - 1], g.session.player_id) && !entities[n - 1].out_of_view {
        plans(g, entities, rows, n - 1).push(plan_of(g, entities, n - 1, rows))
    } else {
        plans(g, entities, rows, n - 1)
    }
}

/// Whether an entity counts for the model.
pub fn entity_counts(e: &SeenEntity, player_id: i32) -> (yes: bool)
    ensures
        yes == counts(*e, player_id),
{
    e.id != player_id && e.kind != EntityKind::Object(2) && e.kind != EntityKind::ExperienceOrb
        && !e.far
}

fn same_account(a: &[u8; 16], b: &[u8; 16]) -> (same: bool)
    ensures
        same == (a@ == b@),
{
    let mut i: usize = 0;
    while i < 16
        invariant
            i <= 16,
            a@.len() == 16,
            b@.len() == 16,
            forall|j: int| 0 <= j < i ==> a@[j] == b@[j],
        decreases 16 - i,
    {
        if a[i] != b[i] {
            assert(a@[i as int] != b@[i as int]);
            return false;
        }
        i += 1;
    }
    assert(a@ =~= b@);
    true
}

/// The row of a skin.
fn find_row(rows: &Vec<([u8; 16], u32)>, uuid: &[u8; 16]) -> (row: Option<u32>)
    ensures
        row == row_of(rows@, uuid@, rows@.len() as int),
{
    let mut i: usize = 0;
    let mut row: Option<u32> = None;
    while i < rows.len()
        invariant
            i <= rows@.len(),
            row == row_of(rows@, uuid@, i as int),
        decreases rows@.len() - i,
    {
        if row.is_none() && same_account(&rows[i].0, uuid) {
            row = Some(rows[i].1);
        }
        i += 1;
    }
    row
}

fn is_present(entities: &Vec<SeenEntity>, id: i32) -> (yes: bool)
    ensures
        yes == present(entities@, id),
{
    let mut i: usize = 0;
    while i < entities.len()
        invariant
            i <= entities@.len(),
            forall|j: int| 0 <= j < i ==> (#[trigger] entities@[j]).id != id,
        decreases entities@.len() - i,
    {
        if entities[i].id == id {
            return true;
        }
        i += 1;
    }
    false
}

fn id_of(item: &Option<SlotItem>) -> (id: Option<i16>)
    ensures
        id == worn_id(*item),
{
    match item {
        Some(s) => Some(s.id),
        None => None,
    }
}

impl GameState {
    /// The row of an entity's own skin.
    pub fn skin_row(&self, e: &SeenEntity, rows: &Vec<([u8; 16], u32)>) -> (row: Option<u32>)
        ensures
            row == skin_of(*self, *e, rows@),
    {
        if e.kind == EntityKind::RemotePlayer {
            if let Some(uuid) = self.tables.uuids.get(&e.id) {
                return find_row(rows, uuid);
            }
        }
        None
    }

    /// How one entity is drawn.
    fn plan(
        &self,
        entities: &Vec<SeenEntity>,
        index: usize,
        rows: &Vec<([u8; 16], u32)>,
    ) -> (plan: EntityPlan)
        requires
            self.tables.wf(),
            index < entities@.len(),
        ensures
            plan == plan_of(*self, entities@, index as int, rows@),
    {
        let e = &entities[index];
        let ghost places = worn(self.tables.equipment@, e.id);
        let vehicle = match self.tables.riders.vehicle_of(e.id) {
            Some(v) => if is_present(entities, v) {
                Some(v)
            } else {
                None
            },
            None => None,
        };
        let mut held_item_right: u8 = 0;
        let mut armor: Option<Armor> = None;
        let mut glint: Option<Shimmer> = None;
        if e.kind == EntityKind::RemotePlayer {
            let nothing: Option<SlotItem> = None;
            match self.tables.equipment.get(&e.id) {
                Some(slots) => {
                    assert(places == slots@);
                    held_item_right = held_item_right_state(&slots[0], e.using_item);
                    let worn_now = Armor {
                        feet: id_of(&slots[1]),
                        legs: id_of(&slots[2]),
                        chest: id_of(&slots[3]),
                        head: id_of(&slots[4]),
                    };
                    if worn_now.feet.is_some() || worn_now.legs.is_some()
                        || worn_now.chest.is_some() || worn_now.head.is_some() {
                        armor = Some(worn_now);
                        let shining = Shimmer {
                            feet: slots[1].is_some() && e.shimmer.feet,
                            legs: slots[2].is_some() && e.shimmer.legs,
                            chest: slots[3].is_some() && e.shimmer.chest,
                            head: slots[4].is_some() && e.shimmer.head,
                        };
                        if shining.feet || shining.legs || shining.chest || shining.head {
                            glint = Some(shining);
                        }
                    }
                },
                None => {
                    held_item_right = held_item_right_state(&nothing, e.using_item);
                },
            }
        }
        EntityPlan {
            index,
            skin_row: self.skin_row(e, rows),
            vehicle,
            held_item_right,
            body: !e.invisible,
            armor,
            glint,
            hurt: e.hurt_time > 0 || e.death_time > 0,
        }
    }

    /// How the world's entities are drawn this frame.
    pub fn build_entity_model(
        &self,
        entities: &Vec<SeenEntity>,
        rows: &Vec<([u8; 16], u32)>,
    ) -> (drawn: Vec<EntityPlan>)
        requires
            self.wf(),
        ensures
            drawn@ == plans(*self, entities@, rows@, entities@.len() as int),
    {
        let mut drawn: Vec<EntityPlan> = Vec::new();
        let mut i: usize = 0;
        while i < entities.len()
            invariant
                self.wf(),
                i <= entities@.len(),
                drawn@ == plans(*self, entities@, rows@, i as int),
            decreases entities@.len() - i,
        {
            if entity_counts(&entities[i], self.session.player_id) && !entities[i].out_of_view {
                drawn.push(self.plan(entities, i, rows));
            }
            i += 1;
        }
        drawn
    }
}

// ── Chests ────────────────────────────────────────────────────────────────

/// The chests.
#[derive(Debug, Clone, Copy, PartialEq, Eq, Structural)]
pub enum ChestKind {
    Normal,
    Ender,
    Trapped,
}

/// A chest, or a block where one might be, with the blocks beside it.
#[derive(Debug, Clone, Copy, PartialEq, Eq, Structural)]
pub struct ChestSite {
    pub block: BlockState,
    /// The numbers of the blocks to the west, east, north and south.
    pub west: u16,
    pub east: u16,
    pub north: u16,
    pub south: u16,
}

/// How a chest is drawn.
#[derive(Debug, Clone, Copy, PartialEq, Eq, Structural)]
pub enum ChestDraw {
    /// It is none, or the other half of a pair draws it.
    Skip,
    Single(ChestKind),
    /// With its partner to the east or to the south; they share the lid that is
    /// further open.
    Large { kind: ChestKind, dx: i32, dz: i32 },
}

/// Which chest a block is.
pub open spec fn chest_kind(id: u16) -> Option<ChestKind> {
    if id == 54 {
        Some(ChestKind::Normal)
    } else if id == 130 {
        Some(ChestKind::Ender)
    } else if id == 146 {
        Some(ChestKind::Trapped)
    } else {
        None
    }
}

/// How a chest is drawn. It pairs with its like across the way it faces; of a pair
/// the half to the west or north draws both. Ender chests never pair.
pub open spec fn chest_draw(site: ChestSite) -> ChestDraw {
    match chest_kind(site.block.id) {
        None => ChestDraw::Skip,
        Some(kind) => if kind == ChestKind::Ender {
            ChestDraw::Single(kind)
        } else if site.block.meta == 2 || site.block.meta == 3 {
            if site.west == site.block.id {
                ChestDraw::Skip
            } else if site.east == site.block.id {
                ChestDraw::Large { kind, dx: 1, dz: 0 }
            } else {
                ChestDraw::Single(kind)
            }
        } else if site.block.meta == 4 || site.block.meta == 5 {
            if site.north == site.block.id {
                ChestDraw::Skip
            } else if site.south == site.block.id {
                ChestDraw::Large { kind, dx: 0, dz: 1 }
            } else {
                ChestDraw::Single(kind)
            }
        } else {
            ChestDraw::Single(kind)
        },
    }
}

/// How a chest is drawn.
pub fn chest_model(site: &ChestSite) -> (draw: ChestDraw)
    ensures
        draw == chest_draw(*site),
{
    let id = site.block.id;
    let kind = match id {
        54 => ChestKind::Normal,
        130 => {
            return ChestDraw::Single(ChestKind::Ender);
        },
        146 => ChestKind::Trapped,
        _ => {
            return ChestDraw::Skip;
        },
    };
    match site.block.meta {
        2 | 3 => if site.west == id {
            ChestDraw::Skip
        } else if site.east == id {
            ChestDraw::Large { kind, dx: 1, dz: 0 }
        } else {
            ChestDraw::Single(kind)
        },
        4 | 5 => if site.north == id {
            ChestDraw::Skip
        } else if site.south == id {
            ChestDraw::Large { kind, dx: 0, dz: 1 }
        } else {
            ChestDraw::Single(kind)
        },
        _ => ChestDraw::Single(kind),
    }
}

/// How each of a list of chests is drawn.
pub fn build_chest_models(sites: &Vec<ChestSite>) -> (draws: Vec<ChestDraw>)
    ensures
        draws@.len() == sites@.len(),
        forall|i: int| 0 <= i < sites@.len() ==> #[trigger] draws@[i] == chest_draw(sites@[i]),
{
    let mut draws: Vec<ChestDraw> = Vec::new();
    let mut i: usize = 0;
    while i < sites.len()
        invariant
            i <= sites@.len(),
            draws@.len() == i,
            forall|j: int| 0 <= j < i ==> #[trigger] draws@[j] == chest_draw(sites@[j]),
        decreases sites@.len() - i,
    {
        draws.push(chest_model(&sites[i]));
        i += 1;
    }
    draws
}

/// Two like chests side by side across the way they face are drawn once: where one
/// is drawn with its partner, the partner is skipped.
pub proof fn law_a_pair_is_drawn_once(a: ChestSite, b: ChestSite)
    requires
        a.block.id == b.block.id,
        chest_draw(a) is Large,
        chest_draw(a) matches ChestDraw::Large { dx, .. } ==> if dx == 1 {
            (b.block.meta == 2 || b.block.meta == 3) && b.west == a.block.id
        } else {
            (b.block.meta == 4 || b.block.meta == 5) && b.north == a.block.id
        },
    ensures
        chest_draw(b) == ChestDraw::Skip,
{
}

/// A chest with none beside it is drawn alone.
pub proof fn law_lone_chests_are_single(site: ChestSite)
    requires
        chest_kind(site.block.id) is Some,
        site.west != site.block.id,
        site.east != site.block.id,
        site.north != site.block.id,
        site.south != site.block.id,
    ensures
        chest_draw(site) == ChestDraw::Single(chest_kind(site.block.id)->0),
{
}

// ── Signs, books and portals ──────────────────────────────────────────────

/// What is drawn at a block besides its mesh.
#[derive(Debug, Clone, Copy, PartialEq, Eq, Structural)]
pub enum BlockModel {
    StandingSign,
    WallSign,
    Book,
    EndPortal,
}

/// What is drawn at a block.
pub open spec fn block_model(id: u16) -> Option<BlockModel> {
    if id == 63 {
        Some(BlockModel::StandingSign)
    } else if id == 68 {
        Some(BlockModel::WallSign)
    } else if id == 116 {
        Some(BlockModel::Book)
    } else if id == 119 {
        Some(BlockModel::EndPortal)
    } else {
        None
    }
}

/// What is drawn at a block.
pub fn model_of_block(id: u16) -> (model: Option<BlockModel>)
    ensures
        model == block_model(id),
{
    match id {
        63 => Some(BlockModel::StandingSign),
        68 => Some(BlockModel::WallSign),
        116 => Some(BlockModel::Book),
        119 => Some(BlockModel::EndPortal),
        _ => None,
    }
}

/// Whether any line has text.
pub open spec fn any_text(lines: Seq<Seq<char>>) -> bool {
    exists|i: int| 0 <= i < lines.len() && (#[trigger] lines[i]).len() > 0
}

/// Whether the text of a sign is drawn: the sign is known and says something.
pub open spec fn text_shown(signs: Seq<Sign>, id: u16, pos: BlockPos) -> bool {
    &&& id == 63 || id == 68
    &&& sign_text(signs, pos) matches Some(lines)
    &&& any_text(lines)
}

fn says_something(lines: &Vec<String>) -> (yes: bool)
    ensures
        yes == any_text(crate::chat::lang::texts_view(lines@)),
{
    let ghost shown = crate::chat::lang::texts_view(lines@);
    let mut i: usize = 0;
    while i < lines.len()
        invariant
            i <= lines@.len(),
            shown == crate::chat::lang::texts_view(lines@),
            forall|j: int| 0 <= j < i ==> (#[trigger] shown[j]).len() == 0,
        decreases lines@.len() - i,
    {
        if lines[i].as_str().unicode_len() > 0 {
            assert(shown[i as int].len() > 0);
            return true;
        }
        i += 1;
    }
    false
}

impl GameState {
    /// Where the text of a sign at a block is, if it is drawn.
    pub fn sign_to_draw(&self, id: u16, pos: BlockPos) -> (at: Option<usize>)
        ensures
            at is Some == text_shown(self.fixtures.signs@, id, pos),
            at matches Some(i) ==> {
                &&& i < self.fixtures.signs@.len()
                &&& self.fixtures.signs@[i as int].pos == pos
                &&& Some(crate::chat::lang::texts_view(self.fixtures.signs@[i as int].lines@))
                    == sign_text(self.fixtures.signs@, pos)
            },
    {
        if id != 63 && id != 68 {
            return None;
        }
        let signs = &self.fixtures.signs;
        let mut n: usize = signs.len();
        assert(signs@.take(n as int) =~= signs@);
        while n > 0
            invariant
                n <= signs@.len(),
                id == 63 || id == 68,
                sign_text(signs@, pos) == sign_text(signs@.take(n as int), pos),
                signs@ == self.fixtures.signs@,
            decreases n,
        {
            assert(signs@.take(n as int).drop_last() =~= signs@.take(n - 1));
            assert(signs@.take(n as int).last() == signs@[n - 1]);
            if signs[n - 1].pos == pos {
                return if says_something(&signs[n - 1].lines) {
                    Some(n - 1)
                } else {
                    None
                };
            }
            n -= 1;
        }
        None
    }
}

/// A block to draw: its place in the list, what it is, and the sign whose text is
/// drawn on it.
#[derive(Debug, Clone, Copy, PartialEq, Eq, Structural)]
pub struct BlockPlan {
    pub index: usize,
    pub model: BlockModel,
    pub sign: Option<usize>,
}

/// Whether plans are those of the first `n` blocks of a list, in its order.
pub open spec fn are_block_plans(
    drawn: Seq<BlockPlan>,
    signs: Seq<Sign>,
    sites: Seq<(BlockPos, u16)>,
    n: int,
) -> bool
    decreases n,
{
    if n <= 0 {
        drawn.len() == 0
    } else {
        let (pos, id) = sites[n - 1];
        match block_model(id) {
            None => are_block_plans(drawn, signs, sites, n - 1),
            Some(model) => {
                &&& drawn.len() > 0
                &&& drawn.last().index == n - 1
                &&& drawn.last().model == model
                &&& drawn.last().sign is Some == text_shown(signs, id, pos)
                &&& drawn.last().sign matches Some(i) ==> 0 <= i < signs.len() && Some(
                    crate::chat::lang::texts_view(signs[i as int].lines@),
                ) == sign_text(signs, pos)
                &&& are_block_plans(drawn.drop_last(), signs, sites, n - 1)
            },
        }
    }
}

impl GameState {
    /// The signs, books and portals to draw of a list of blocks.
    pub fn build_block_entity_models(&self, sites: &Vec<(BlockPos, u16)>) -> (drawn: Vec<BlockPlan>)
        ensures
            are_block_plans(drawn@, self.fixtures.signs@, sites@, sites@.len() as int),
    {
        let mut drawn: Vec<BlockPlan> = Vec::new();
        let mut i: usize = 0;
        while i < sites.len()
            invariant
                i <= sites@.len(),
                are_block_plans(drawn@, self.fixtures.signs@, sites@, i as int),
            decreases sites@.len() - i,
        {
            let (pos, id) = sites[i];
            if let Some(model) = model_of_block(id) {
                let ghost before = drawn@;
                let sign = self.sign_to_draw(id, pos);
                drawn.push(BlockPlan { index: i, model, sign });
                assert(drawn@.drop_last() =~= before);
            }
            i += 1;
        }
        drawn
    }
}

// ── Items, orbs and blocks that move ──────────────────────────────────────

/// The ticks until primed explosives go off: eighty from their first.
pub open spec fn fuse(age: u64) -> int {
    if age >= 80 {
        0
    } else {
        80 - age
    }
}

/// The dropped stack to draw for an entity, if it is one whose stack is known.
pub open spec fn dropped_stack(g: GameState, e: SeenEntity) -> Option<SlotItem> {
    if e.kind == EntityKind::Object(2) && g.tables.items@.dom().contains(e.id) {
        Some(g.tables.items@[e.id])
    } else {
        None
    }
}

/// The sprite cell of an experience orb, if the entity is one; an orb of which nothing
/// is known is worth nothing.
pub open spec fn orb_cell(g: GameState, e: SeenEntity) -> Option<u32> {
    if e.kind == EntityKind::ExperienceOrb {
        Some(
            spec_orb_cell(
                if g.tables.xp@.dom().contains(e.id) {
                    g.tables.xp@[e.id] as int
                } else {
                    0
                },
            ) as u32,
        )
    } else {
        None
    }
}

/// The block of a falling block, if the entity is one.
pub open spec fn block_of(g: GameState, e: SeenEntity) -> Option<BlockState> {
    if g.tables.falling@.dom().contains(e.id) {
        Some(g.tables.falling@[e.id])
    } else {
        None
    }
}

/// What a player other than the local one holds.
pub open spec fn held_stack(g: GameState, e: SeenEntity) -> Option<ItemModel> {
    if e.kind == EntityKind::RemotePlayer && e.id != g.session.player_id {
        stack_view(worn(g.tables.equipment@, e.id)[0])
    } else {
        None
    }
}

/// The item that stands for a projectile, if the entity is one.
pub open spec fn item_of(e: SeenEntity) -> Option<i16> {
    match e.kind {
        EntityKind::Object(kind) => spec_projectile_item(kind as int),
        _ => None,
    }
}

impl GameState {
    /// The dropped stack to draw for an entity.
    pub fn dropped_item(&self, e: &SeenEntity) -> (stack: Option<SlotItem>)
        ensures
            stack_view(stack) == stack_view(dropped_stack(*self, *e)),
    {
        if e.kind != EntityKind::Object(2) {
            return None;
        }
        match self.tables.items.get(&e.id) {
            Some(item) => Some(item.with_count(item.count)),
            None => None,
        }
    }

    /// The sprite cell of an experience orb, if the entity is one.
    pub fn xp_orb(&self, e: &SeenEntity) -> (cell: Option<u32>)
        ensures
            cell == orb_cell(*self, *e),
    {
        if e.kind != EntityKind::ExperienceOrb {
            return None;
        }
        let worth: i16 = match self.tables.xp.get(&e.id) {
            Some(xp) => *xp,
            None => 0,
        };
        Some(xp_orb_texture_cell(worth))
    }

    /// The block of a falling block, if the entity is one.
    pub fn falling_block(&self, e: &SeenEntity) -> (block: Option<BlockState>)
        ensures
            block == block_of(*self, *e),
    {
        match self.tables.falling.get(&e.id) {
            Some(block) => Some(*block),
            None => None,
        }
    }

    /// What a player other than the local one holds.
    pub fn player_held_item(&self, e: &SeenEntity) -> (held: Option<SlotItem>)
        requires
            self.wf(),
        ensures
            stack_view(held) == held_stack(*self, *e),
    {
        if e.kind != EntityKind::RemotePlayer || e.id == self.session.player_id {
            return None;
        }
        assert(worn(self.tables.equipment@, e.id).len() == 5);
        match self.tables.equipment.get(&e.id) {
            Some(slots) => copy_stack(&slots[0]),
            None => None,
        }
    }
}

/// The item that stands for a projectile.
pub fn projectile(e: &SeenEntity) -> (item: Option<i16>)
    ensures
        item == item_of(*e),
{
    match e.kind {
        EntityKind::Object(kind) => projectile_item_id(kind),
        _ => None,
    }
}

/// How primed explosives look.
#[derive(Debug, Clone, Copy, PartialEq, Eq, Structural)]
pub struct Primed {
    /// How far they have swollen, in ten-billionths: 0 before the last ten ticks.
    pub swell: u64,
    /// How white they flash, in trillionths; 0 between flashes.
    pub flash: i64,
}

/// The time left, in billionths of a tick, `partial` billionths into a tick.
pub open spec fn time_left(age: u64, partial: u64) -> int {
    (fuse(age) + 1) * 1_000_000_000 - partial
}

/// How primed explosives look: they swell over the last ten ticks, and flash white
/// for five ticks out of ten, more strongly as the fuse shortens.
pub open spec fn primed_look(age: u64, partial: u64) -> Primed {
    let left = time_left(age, partial);
    Primed {
        swell: if left < 10_000_000_000 {
            (10_000_000_000 - left) as u64
        } else {
            0
        },
        flash: if fuse(age) / 5 % 2 == 0 {
            ((100_000_000_000 - left) * 8) as i64
        } else {
            0
        },
    }
}

/// How primed explosives of an age look, `partial` billionths into a tick; nothing
/// for other entities.
pub fn primed_tnt(kind: EntityKind, age: u64, partial: u64) -> (look: Option<Primed>)
    requires
        partial <= 1_000_000_000,
    ensures
        look == if kind == EntityKind::Object(50) {
            Some(primed_look(age, partial))
        } else {
            None
        },
{
    if kind != EntityKind::Object(50) {
        return None;
    }
    let left_ticks: i64 = if age >= 80 {
        0
    } else {
        80 - age as i64
    };
    let left: i64 = (left_ticks + 1) * 1_000_000_000 - partial as i64;
    let swell: u64 = if left < 10_000_000_000 {
        (10_000_000_000 - left) as u64
    } else {
        0
    };
    let flash: i64 = if left_ticks / 5 % 2 == 0 {
        (100_000_000_000 - left) * 8
    } else {
        0
    };
    Some(Primed { swell, flash })
}

/// Explosives swell to no more than their full size, and their flash is never
/// darker than none.
pub proof fn law_explosives_swell_within_bounds(age: u64, partial: u64)
    requires
        partial <= 1_000_000_000,
    ensures
        primed_look(age, partial).swell <= 10_000_000_000,
        0 <= primed_look(age, partial).flash <= 800_000_000_000,
        age < 70 ==> primed_look(age, partial).swell == 0,
{
}

// ── Bosses and names ──────────────────────────────────────────────────────

/// An entity that might be a boss.
#[derive(Debug)]
pub struct BossSight {
    pub kind: EntityKind,
    pub health: Option<Real32>,
    /// How far it is from the eye; never negative.
    pub distance: Real64,
    pub custom_name: Option<String>,
}

/// Which boss an entity is: its full health and its name.
pub open spec fn boss_of(kind: EntityKind) -> Option<(u32, &'static str)> {
    if kind == EntityKind::Mob(64) {
        Some((300, "Wither"))
    } else if kind == EntityKind::Mob(63) {
        Some((200, "Ender Dragon"))
    } else {
        None
    }
}

/// The bits of 80, and those of infinity.
pub const BOSS_RANGE: u64 = 0x4054_0000_0000_0000;

pub const INFINITE: u64 = 0x7ff0_0000_0000_0000;

/// Whether a positive number is below another; nothing that is not a number is.
/// Positive numbers are ordered as their bits are.
pub open spec fn below(a: Real64, b: Real64) -> bool {
    a.bits <= INFINITE && b.bits <= INFINITE && a.bits < b.bits
}

/// Whether an entity has a boss bar: a living boss no more than 80 blocks away.
pub open spec fn has_bar(s: BossSight) -> bool {
    &&& boss_of(s.kind) is Some
    &&& s.health matches Some(h)
    &&& !h.spec_not_positive()
    &&& !h.nan()
    &&& !below(Real64 { bits: BOSS_RANGE }, s.distance)
}

/// The nearest boss among the first `n`; of equally near ones the first.
pub open spec fn nearest_boss(sights: Seq<BossSight>, n: int) -> Option<int>
    decreases n,
{
    if n <= 0 {
        None
    } else if !has_bar(sights[n - 1]) {
        nearest_boss(sights, n - 1)
    } else {
        match nearest_boss(sights, n - 1) {
            None => Some(n - 1),
            Some(i) => if below(sights[n - 1].distance, sights[i].distance) {
                Some(n - 1)
            } else {
                Some(i)
            },
        }
    }
}

/// A boss bar: the name, the health and what full health is.
#[derive(Debug, PartialEq, Eq)]
pub struct BossBar {
    pub name: String,
    pub health: Real32,
    pub full: u32,
}

fn is_below(a: Real64, b: Real64) -> (yes: bool)
    ensures
        yes == below(a, b),
{
    a.bits <= INFINITE && b.bits <= INFINITE && a.bits < b.bits
}

fn boss_details(kind: EntityKind) -> (details: Option<(u32, &'static str)>)
    ensures
        match boss_of(kind) {
            Some(d) => details matches Some(r) && r.0 == d.0 && r.1@ == d.1@,
            None => details is None,
        },
{
    if kind == EntityKind::Mob(64) {
        Some((300, "Wither"))
    } else if kind == EntityKind::Mob(63) {
        Some((200, "Ender Dragon"))
    } else {
        None
    }
}

/// This boss bar is to be shown: that of the nearest boss.
pub open spec fn is_boss_bar(sights: Seq<BossSight>, bar: Option<BossBar>) -> bool {
    match nearest_boss(sights, sights.len() as int) {
        None => bar is None,
        Some(i) => {
            let s = sights[i];
            let (full, name) = boss_of(s.kind)->0;
            &&& bar matches Some(b)
            &&& Some(b.health) == s.health
            &&& b.full == full
            &&& b.name@ == match s.custom_name {
                Some(own) => own@,
                None => name@,
            }
        },
    }
}

/// The boss bar to show: that of the nearest boss, under its own name if it has
/// one.
pub fn boss_bar(sights: &Vec<BossSight>) -> (bar: Option<BossBar>)
    ensures
        is_boss_bar(sights@, bar),
{
    let mut best: Option<usize> = None;
    let mut i: usize = 0;
    while i < sights.len()
        invariant
            i <= sights@.len(),
            match nearest_boss(sights@, i as int) {
                None => best is None,
                Some(k) => best == Some(k as usize) && 0 <= k < i && has_bar(sights@[k]),
            },
        decreases sights@.len() - i,
    {
        let s = &sights[i];
        let living = match s.health {
            Some(h) => !h.not_positive() && !h.is_nan(),
            None => false,
        };
        let boss = boss_details(s.kind).is_some();
        if boss && living && !is_below(Real64 { bits: BOSS_RANGE }, s.distance) {
            assert(has_bar(sights@[i as int]));
            best = match best {
                None => Some(i),
                Some(k) => if is_below(s.distance, sights[k].distance) {
                    Some(i)
                } else {
                    Some(k)
                },
            };
        } else {
            assert(!has_bar(sights@[i as int]));
        }
        i += 1;
    }
    match best {
        None => None,
        Some(k) => {
            let s = &sights[k];
            match (s.health, boss_details(s.kind)) {
                (Some(health), Some((full, name))) => Some(
                    BossBar {
                        name: match &s.custom_name {
                            Some(own) => own.clone(),
                            None => name.to_string(),
                        },
                        health,
                        full,
                    },
                ),
                _ => None,
            }
        },
    }
}

/// The bar that is shown is of a boss no farther than any other boss in range.
pub proof fn law_the_nearest_boss_is_shown(sights: Seq<BossSight>, n: int, j: int)
    requires
        0 <= j < n <= sights.len(),
        has_bar(sights[j]),
        forall|i: int| 0 <= i < sights.len() ==> (#[trigger] sights[i]).distance.bits <= INFINITE,
    ensures
        nearest_boss(sights, n) matches Some(k) && 0 <= k < n && has_bar(sights[k])
            && sights[k].distance.bits <= sights[j].distance.bits,
    decreases n,
{
    if j < n - 1 {
        law_the_nearest_boss_is_shown(sights, n - 1, j);
    } else {
        match nearest_boss(sights, n - 1) {
            Some(k) => {
                lemma_nearest_has_bar(sights, n - 1);
            },
            None => {},
        }
    }
}

proof fn lemma_nearest_has_bar(sights: Seq<BossSight>, n: int)
    requires
        n <= sights.len(),
    ensures
        nearest_boss(sights, n) matches Some(k) ==> 0 <= k < n && has_bar(sights[k]),
    decreases n,
{
    if n > 0 {
        lemma_nearest_has_bar(sights, n - 1);
    }
}

/// The bits of 64.
pub const NAME_RANGE: u64 = 0x4050_0000_0000_0000;

/// The plate over an entity's head.
#[derive(Debug, PartialEq, Eq)]
pub enum Plate {
    Hidden,
    /// Its own name, which shows through walls.
    Own(String),
    /// The name that the tab list has for the account, unless terrain hides it.
    Listed([u8; 16]),
}

/// The value of [`Plate`].
pub enum PlateModel {
    Hidden,
    Own(Seq<char>),
    Listed([u8; 16]),
}

impl View for Plate {
    type V = PlateModel;

    open spec fn view(&self) -> PlateModel {
        match self {
            Plate::Hidden => PlateModel::Hidden,
            Plate::Own(name) => PlateModel::Own(name@),
            Plate::Listed(uuid) => PlateModel::Listed(*uuid),
        }
    }
}

/// The plate over an entity's head, `distance` from the eye: within 64 blocks, its
/// own name if that is visible, else for players the one on the tab list.
pub open spec fn plate_of(g: GameState, e: SeenEntity, distance: Real64) -> PlateModel {
    if e.id == g.session.player_id || below(Real64 { bits: NAME_RANGE }, distance) {
        PlateModel::Hidden
    } else if e.custom_name_visible && e.custom_name is Some {
        PlateModel::Own(e.custom_name->0@)
    } else if e.kind == EntityKind::RemotePlayer && g.tables.uuids@.dom().contains(e.id) {
        PlateModel::Listed(g.tables.uuids@[e.id])
    } else {
        PlateModel::Hidden
    }
}

impl GameState {
    /// The plate over an entity's head.
    pub fn nametag(&self, e: &SeenEntity, distance: Real64) -> (plate: Plate)
        ensures
            plate@ == plate_of(*self, *e, distance),
    {
        if e.id == self.session.player_id || is_below(Real64 { bits: NAME_RANGE }, distance) {
            return Plate::Hidden;
        }
        if e.custom_name_visible {
            if let Some(name) = &e.custom_name {
                return Plate::Own(copy_text(name.as_str()));
            }
        }
        if e.kind != EntityKind::RemotePlayer {
            return Plate::Hidden;
        }
        match self.tables.uuids.get(&e.id) {
            Some(uuid) => Plate::Listed(*uuid),
            None => Plate::Hidden,
        }
    }
}

/// The name on the tab list.
pub open spec fn spec_listed_name(
    display_json: Option<String>,
    decorated: Seq<char>,
    lang: Language,
) -> Seq<char> {
    match display_json {
        Some(json) => flat_message(json@, lang),
        None => decorated,
    }
}

/// The name on the tab list: the one the server gave for show, else the account's
/// as its team decorates it.
pub fn listed_name(display_json: &Option<String>, decorated: &str, lang: &Language) -> (name: String)
    ensures
        name@ == spec_listed_name(*display_json, decorated@, *lang),
{
    match display_json {
        Some(json) => flatten_chat_json(json.as_str(), lang),
        None => copy_text(decorated),
    }
}

} // verus!
